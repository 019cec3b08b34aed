//! The position tracker: for each tailed file, how far it has been handled.

use crate::events::{SessionState, StreamIdentity};
use dashmap::DashMap;
use std::path::PathBuf;
use std::time::SystemTime;
use vstd::prelude::*;

verus! {

/// `dashmap::DashMap`: a map that may be shared between threads.
#[verifier::external_type_specification]
#[verifier::external_body]
#[verifier::reject_recursive_types(K)]
#[verifier::reject_recursive_types(V)]
#[verifier::reject_recursive_types(S)]
pub struct ExDashMap<K, V, S>(DashMap<K, V, S>);

/// The map that holds the state of each file, keyed by group name and stream
/// name.
pub type StateMap = DashMap<(String, String), SessionState>;

/// A stream identity as a pair of texts.
pub type StreamKey = (Seq<char>, Seq<char>);

/// The states of all streams, by stream key.
pub type States = Map<StreamKey, SessionState>;

/// What a map of states holds: the state kept under each pair of group name
/// and stream name.
pub uninterp spec fn held_states(map: StateMap) -> States;

/// `DashMap::new`: a map that holds nothing.
#[verifier::external_body]
fn states_new() -> (states: StateMap)
    ensures
        held_states(states) == States::empty(),
{
    DashMap::new()
}

/// `DashMap::get`: a copy of the state under the key, when there is one.
#[verifier::external_body]
fn states_get(map: &StateMap, group: &str, stream: &str) -> (state: Option<SessionState>)
    ensures
        state == (if held_states(*map).contains_key((group@, stream@)) {
            Some(held_states(*map)[(group@, stream@)])
        } else {
            None
        }),
{
    map.get(&(group.to_string(), stream.to_string())).map(|state| state.clone())
}

/// `DashMap::insert`: the map then holds the state under the key, in place of
/// what it held there, and everything else as before.
#[verifier::external_body]
fn states_insert(
    map: &mut StateMap,
    group: String,
    stream: String,
    state: SessionState,
)
    ensures
        held_states(*final(map)) == held_states(*old(map)).insert((group@, stream@), state),
{
    map.insert((group, stream), state);
}

/// The tracked state of every file seen so far, by stream identity.
pub struct PositionTracker {
    states: StateMap,
}

impl View for PositionTracker {
    type V = States;

    closed spec fn view(&self) -> States {
        held_states(self.states)
    }
}

impl PositionTracker {
    /// The offset up to which the stream has been handled: 0 for a stream
    /// that has not been seen.
    pub open spec fn offset_of(&self, id: StreamIdentity) -> u64 {
        if self@.contains_key(id.key()) {
            self@[id.key()].last_position
        } else {
            0
        }
    }

    /// A tracker that has seen no stream.
    pub fn new() -> (tracker: Self)
        ensures
            tracker@ == States::empty(),
    {
        PositionTracker { states: states_new() }
    }

    /// The offset up to which the stream has been handled: 0 for a stream
    /// that has not been seen.
    pub fn get_offset(&self, id: &StreamIdentity) -> (offset: u64)
        ensures
            offset == self.offset_of(*id),
    {
        match states_get(&self.states, id.group.as_str(), id.stream.as_str()) {
            Some(state) => state.last_position,
            None => 0,
        }
    }

    /// Whether the stream has been seen.
    pub fn has_seen(&self, id: &StreamIdentity) -> (seen: bool)
        ensures
            seen == self@.contains_key(id.key()),
    {
        states_get(&self.states, id.group.as_str(), id.stream.as_str()).is_some()
    }

    /// What is kept of the stream, if it has been seen.
    pub fn state_of(&self, id: &StreamIdentity) -> (state: Option<SessionState>)
        ensures
            state == (if self@.contains_key(id.key()) {
                Some(self@[id.key()])
            } else {
                None
            }),
    {
        states_get(&self.states, id.group.as_str(), id.stream.as_str())
    }

    /// Sets the tracked offset of the stream to `new_offset` and records the
    /// file and its modification time. No other stream changes.
    pub fn advance(
        &mut self,
        id: &StreamIdentity,
        new_offset: u64,
        session_file: PathBuf,
        last_modified: SystemTime,
    )
        ensures
            final(self)@ == old(self)@.insert(
                id.key(),
                (SessionState {
                    project_name: id.group,
                    session_file,
                    last_position: new_offset,
                    last_modified,
                }),
            ),
            final(self).offset_of(*id) == new_offset,
    {
        let state = SessionState {
            project_name: id.group.clone(),
            session_file,
            last_position: new_offset,
            last_modified,
        };
        states_insert(&mut self.states, id.group.clone(), id.stream.clone(), state);
    }
}

} // verus!
