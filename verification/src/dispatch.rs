//! The dispatcher: from a changed path to the events published for it and
//! the position tracked afterwards.

use crate::broadcast::{Broadcaster, Subscription, Subscriptions, CHANNEL_CAPACITY};
use crate::events::{LogEntry, SessionState, StreamIdentity, Timestamp, WatchEvent};
use crate::text::str_eq;
use crate::text::text_of;
use crate::tracker::{PositionTracker, States, StreamKey};
use std::path::{Path, PathBuf};
use std::time::SystemTime;
use vstd::prelude::*;

verus! {

/// The most entries that one notification emits for one file.
pub const MAX_ENTRIES_PER_EVENT: usize = 10;

/// What a notification says has happened to its paths.
#[derive(Debug, Clone, Copy, PartialEq, Eq, Structural)]
pub enum ChangeKind {
    Any,
    Access,
    Create,
    Modify,
    Remove,
    Other,
}

/// Whether a notification of this kind is looked at: only creations and
/// modifications are.
pub fn is_relevant(kind: ChangeKind) -> (relevant: bool)
    ensures
        relevant == (kind == ChangeKind::Create || kind == ChangeKind::Modify),
{
    match kind {
        ChangeKind::Create => true,
        ChangeKind::Modify => true,
        _ => false,
    }
}

/// What `Path::extension` returns for the path.
pub uninterp spec fn path_extension(path: Seq<char>) -> Option<Seq<char>>;

/// What `Path::file_stem` returns for the path.
pub uninterp spec fn path_file_stem(path: Seq<char>) -> Option<Seq<char>>;

/// What `Path::file_name` returns for the path.
pub uninterp spec fn path_file_name(path: Seq<char>) -> Option<Seq<char>>;

/// What `Path::parent` returns for the path.
pub uninterp spec fn path_parent(path: Seq<char>) -> Option<Seq<char>>;

/// `Path::extension`, on the platform the library is built for.
#[verifier::external_body]
fn extension_of(path: &str) -> (part: Option<String>)
    ensures
        part is Some <==> path_extension(path@) is Some,
        part matches Some(text) ==> path_extension(path@) == Some(text@),
{
    Some(Path::new(path).extension()?.to_str()?.to_string())
}

/// `Path::file_stem`, on the platform the library is built for.
#[verifier::external_body]
fn file_stem_of(path: &str) -> (part: Option<String>)
    ensures
        part is Some <==> path_file_stem(path@) is Some,
        part matches Some(text) ==> path_file_stem(path@) == Some(text@),
{
    Some(Path::new(path).file_stem()?.to_str()?.to_string())
}

/// `Path::file_name`, on the platform the library is built for.
#[verifier::external_body]
fn file_name_of(path: &str) -> (part: Option<String>)
    ensures
        part is Some <==> path_file_name(path@) is Some,
        part matches Some(text) ==> path_file_name(path@) == Some(text@),
{
    Some(Path::new(path).file_name()?.to_str()?.to_string())
}

/// `Path::parent`, on the platform the library is built for.
#[verifier::external_body]
fn parent_of(path: &str) -> (part: Option<String>)
    ensures
        part is Some <==> path_parent(path@) is Some,
        part matches Some(text) ==> path_parent(path@) == Some(text@),
{
    Some(Path::new(path).parent()?.to_str()?.to_string())
}

/// The identity of the stream whose file has the given extension, lies in
/// the directory named `group` and has the given stem: none unless the
/// extension is `jsonl` and the directory has a name; a file without a
/// usable stem is the stream `unknown`.
pub open spec fn identity_of_parts(
    extension: Option<Seq<char>>,
    group: Option<Seq<char>>,
    stem: Option<Seq<char>>,
) -> Option<StreamKey> {
    if extension == Some("jsonl"@) {
        match group {
            Some(g) => Some(
                (
                    g,
                    match stem {
                        Some(s) => s,
                        None => "unknown"@,
                    },
                ),
            ),
            None => None,
        }
    } else {
        None
    }
}

/// The name of the directory that the path lies in.
pub open spec fn path_group(path: Seq<char>) -> Option<Seq<char>> {
    match path_parent(path) {
        Some(dir) => path_file_name(dir),
        None => None,
    }
}

/// The identity of the stream that the path is the file of.
pub open spec fn identity_of_path(path: Seq<char>) -> Option<StreamKey> {
    identity_of_parts(path_extension(path), path_group(path), path_file_stem(path))
}

/// The key of an optional identity.
pub open spec fn key_of(id: Option<StreamIdentity>) -> Option<StreamKey> {
    match id {
        Some(i) => Some(i.key()),
        None => None,
    }
}

/// The identity of a stream from the parts of its file's path: the extension
/// of the file, the name of its directory, and the stem of its name.
pub fn identity_from_parts(extension: Option<&str>, group: Option<&str>, stem: Option<&str>) -> (id:
    Option<StreamIdentity>)
    ensures
        key_of(id) == identity_of_parts(text_of(extension), text_of(group), text_of(stem)),
{
    let is_log = match extension {
        Some(e) => str_eq(e, "jsonl"),
        None => false,
    };
    if !is_log {
        return None;
    }
    match group {
        Some(g) => {
            let stream = match stem {
                Some(s) => s.to_owned(),
                None => "unknown".to_owned(),
            };
            Some(StreamIdentity { group: g.to_owned(), stream })
        },
        None => None,
    }
}

/// The identity of the stream that the path is the file of. A path whose
/// extension is not `jsonl` belongs to no stream.
pub fn stream_identity(path: &str) -> (id: Option<StreamIdentity>)
    ensures
        key_of(id) == identity_of_path(path@),
        path_extension(path@) != Some("jsonl"@) ==> id is None,
{
    let extension = extension_of(path);
    let group = match parent_of(path) {
        Some(dir) => file_name_of(dir.as_str()),
        None => None,
    };
    let stem = file_stem_of(path);
    identity_from_parts(
        match &extension {
            Some(e) => Some(e.as_str()),
            None => None,
        },
        match &group {
            Some(g) => Some(g.as_str()),
            None => None,
        },
        match &stem {
            Some(s) => Some(s.as_str()),
            None => None,
        },
    )
}

/// Whether the event is the one published for the entry of the stream.
pub open spec fn describes(event: WatchEvent, id: StreamIdentity, entry: LogEntry) -> bool {
    &&& event.event_type@ == "log_entry"@
    &&& event.project@ == id.group@
    &&& event.session matches Some(session) && session@ == id.stream@
    &&& event.entry == Some(entry)
}

/// The event published for an entry of the stream, stamped with `timestamp`.
pub fn log_event(id: &StreamIdentity, entry: LogEntry, timestamp: Timestamp) -> (event: WatchEvent)
    ensures
        describes(event, *id, entry),
        event.timestamp == timestamp,
{
    WatchEvent {
        event_type: "log_entry".to_owned(),
        project: id.group.clone(),
        session: Some(id.stream.clone()),
        entry: Some(entry),
        timestamp,
    }
}

/// How far a batch has come.
#[derive(Debug, Clone, Copy, PartialEq, Eq, Structural)]
pub struct BatchReport {
    /// The number of entries published.
    pub emitted: usize,
    /// The position to track: the end offset of the last entry published, or
    /// the position before the batch when none was.
    pub position: u64,
    /// Whether the batch stopped because a publish found no subscriber.
    pub stopped: bool,
}

/// The number of entries that one batch takes of `available` ones.
pub open spec fn batch_size(available: int) -> int {
    if available < MAX_ENTRIES_PER_EVENT {
        available
    } else {
        MAX_ENTRIES_PER_EVENT as int
    }
}

/// The position to track after the first `emitted` entries have been
/// published: the end offset of the last of them, or `current` for none.
pub open spec fn position_after(current: u64, entries: Seq<(LogEntry, u64)>, emitted: int) -> u64 {
    if emitted <= 0 {
        current
    } else {
        entries[emitted - 1].1
    }
}

/// The batch after one more publish, for which the channel reported
/// `receivers` subscribers: with none the batch stops where it is, else the
/// entry counts as published and the position moves to its end offset.
pub open spec fn batch_after(report: BatchReport, receivers: usize, end_offset: u64) -> BatchReport {
    if receivers == 0 {
        BatchReport { emitted: report.emitted, position: report.position, stopped: true }
    } else {
        BatchReport { emitted: (report.emitted + 1) as usize, position: end_offset, stopped: false }
    }
}

/// The batch after one more publish, for which the channel reported
/// `receivers` subscribers.
pub fn batch_step(report: BatchReport, receivers: usize, end_offset: u64) -> (next: BatchReport)
    requires
        report.emitted < MAX_ENTRIES_PER_EVENT,
    ensures
        next == batch_after(report, receivers, end_offset),
{
    if receivers == 0 {
        BatchReport { emitted: report.emitted, position: report.position, stopped: true }
    } else {
        BatchReport { emitted: report.emitted + 1, position: end_offset, stopped: false }
    }
}

/// Whether `after` is `before` with the events of the first `emitted`
/// entries behind it, in the order of the entries.
pub open spec fn published_batch(
    before: Seq<WatchEvent>,
    after: Seq<WatchEvent>,
    id: StreamIdentity,
    entries: Seq<(LogEntry, u64)>,
    emitted: int,
) -> bool {
    &&& after.len() == before.len() + emitted
    &&& after.subrange(0, before.len() as int) == before
    &&& forall|i: int|
        0 <= i < emitted ==> describes(#[trigger] after[before.len() + i], id, entries[i].0)
}

/// Whether `after` is `before` with the attempts of one batch behind it:
/// one for each of the first `emitted` entries, in the order of the entries
/// and each with a subscriber, and, where the batch stopped, one more for
/// the next entry, which found no subscriber.
pub open spec fn attempted_batch(
    before: Seq<(WatchEvent, usize)>,
    after: Seq<(WatchEvent, usize)>,
    id: StreamIdentity,
    entries: Seq<(LogEntry, u64)>,
    emitted: int,
    stopped: bool,
) -> bool {
    &&& after.len() == before.len() + emitted + (if stopped {
        1int
    } else {
        0int
    })
    &&& after.subrange(0, before.len() as int) == before
    &&& forall|i: int|
        0 <= i < emitted ==> describes(
            (#[trigger] after[before.len() + i]).0,
            id,
            entries[i].0,
        ) && after[before.len() + i].1 > 0
    &&& stopped ==> describes(after[before.len() + emitted].0, id, entries[emitted].0)
        && after[before.len() + emitted].1 == 0
}

/// Publishes the entries of one file in their order, at most
/// `MAX_ENTRIES_PER_EVENT` of them, and stops at the first publish that
/// finds no subscriber.
///
/// Each entry comes with the offset at which its line ends. The position in
/// the report is that of the last entry published, so that what was not
/// published is read again.
pub fn publish_entries(
    broadcaster: &mut Broadcaster,
    id: &StreamIdentity,
    entries: Vec<(LogEntry, u64)>,
    current: u64,
) -> (report: BatchReport)
    ensures
        report.emitted <= batch_size(entries@.len() as int),
        report.stopped <==> report.emitted < batch_size(entries@.len() as int),
        report.position == position_after(current, entries@, report.emitted as int),
        attempted_batch(
            old(broadcaster).attempts(),
            final(broadcaster).attempts(),
            *id,
            entries@,
            report.emitted as int,
            report.stopped,
        ),
        published_batch(
            old(broadcaster).published(),
            final(broadcaster).published(),
            *id,
            entries@,
            report.emitted as int,
        ),
        final(broadcaster).channel() == old(broadcaster).channel(),
        final(broadcaster).capacity() == old(broadcaster).capacity(),
{
    let mut report = BatchReport { emitted: 0, position: current, stopped: false };
    let ghost before = broadcaster.published();
    let ghost tried = broadcaster.attempts();
    let ghost all = entries@;
    proof {
        assert(before.subrange(0, before.len() as int) =~= before);
        assert(tried.subrange(0, tried.len() as int) =~= tried);
    }
    for pair in it: entries
        invariant
            it.seq() == all,
            report.emitted <= MAX_ENTRIES_PER_EVENT,
            report.emitted <= it.index(),
            !report.stopped ==> report.emitted == batch_size(it.index() as int),
            report.stopped ==> report.emitted < batch_size(all.len() as int),
            report.position == position_after(current, all, report.emitted as int),
            published_batch(before, broadcaster.published(), *id, all, report.emitted as int),
            attempted_batch(
                tried,
                broadcaster.attempts(),
                *id,
                all,
                report.emitted as int,
                report.stopped,
            ),
            broadcaster.channel() == old(broadcaster).channel(),
            broadcaster.capacity() == old(broadcaster).capacity(),
    {
        if !report.stopped && report.emitted < MAX_ENTRIES_PER_EVENT {
            let (entry, end_offset) = pair;
            let event = log_event(id, entry, crate::events::now());
            let receivers = broadcaster.publish(event);
            report = batch_step(report, receivers, end_offset);
            proof {
                assert(broadcaster.published().subrange(0, before.len() as int) =~= before);
                assert(broadcaster.attempts().subrange(0, tried.len() as int) =~= tried);
            }
        }
    }
    report
}

/// Handles the new entries of one file: publishes them as `publish_entries`
/// does, then tracks for the stream the position of the last entry
/// published, together with the file and its modification time.
pub fn dispatch_entries(
    tracker: &mut PositionTracker,
    broadcaster: &mut Broadcaster,
    id: &StreamIdentity,
    session_file: PathBuf,
    last_modified: SystemTime,
    entries: Vec<(LogEntry, u64)>,
) -> (report: BatchReport)
    ensures
        report.emitted <= batch_size(entries@.len() as int),
        report.stopped <==> report.emitted < batch_size(entries@.len() as int),
        report.position == position_after(
            old(tracker).offset_of(*id),
            entries@,
            report.emitted as int,
        ),
        attempted_batch(
            old(broadcaster).attempts(),
            final(broadcaster).attempts(),
            *id,
            entries@,
            report.emitted as int,
            report.stopped,
        ),
        published_batch(
            old(broadcaster).published(),
            final(broadcaster).published(),
            *id,
            entries@,
            report.emitted as int,
        ),
        final(broadcaster).channel() == old(broadcaster).channel(),
        final(broadcaster).capacity() == old(broadcaster).capacity(),
        final(tracker).offset_of(*id) == report.position,
        final(tracker)@ == old(tracker)@.insert(
            id.key(),
            (SessionState {
                project_name: id.group,
                session_file,
                last_position: report.position,
                last_modified,
            }),
        ),
{
    let current = tracker.get_offset(id);
    let report = publish_entries(broadcaster, id, entries, current);
    tracker.advance(id, report.position, session_file, last_modified);
    report
}

/// The engine behind the watcher of a directory of logs: the position
/// handled of each stream, and the channel to the subscribers.
pub struct WatchManager {
    tracker: PositionTracker,
    broadcaster: Broadcaster,
}

impl WatchManager {
    /// The state kept of each stream that has been seen.
    pub closed spec fn positions(&self) -> States {
        self.tracker@
    }

    /// Every event that has been handed to at least one subscriber, oldest
    /// first.
    pub closed spec fn published(&self) -> Seq<WatchEvent> {
        self.broadcaster.published()
    }

    /// The offset up to which the stream has been handled: 0 for a stream
    /// that has not been seen.
    pub open spec fn offset_of(&self, id: StreamIdentity) -> u64 {
        if self.positions().contains_key(id.key()) {
            self.positions()[id.key()].last_position
        } else {
            0
        }
    }

    /// Every event that has been handed to the channel, each with the
    /// number of subscribers that the channel reported for it, oldest
    /// first.
    pub closed spec fn attempts(&self) -> Seq<(WatchEvent, usize)> {
        self.broadcaster.attempts()
    }

    /// The capacity that the channel to the subscribers was made with.
    pub closed spec fn capacity(&self) -> usize {
        self.broadcaster.capacity()
    }

    /// The mark of the channel to the subscribers. The handles and the
    /// subscriptions that are made from the engine carry it.
    pub closed spec fn channel(&self) -> int {
        self.broadcaster.channel()
    }

    /// An engine that has seen no stream, published nothing and has no
    /// subscriber, over a channel of `CHANNEL_CAPACITY` events.
    pub fn new() -> (manager: Self)
        ensures
            manager.positions() == States::empty(),
            manager.published() == Seq::<WatchEvent>::empty(),
            manager.attempts().len() == 0,
            manager.capacity() == CHANNEL_CAPACITY,
    {
        WatchManager { tracker: PositionTracker::new(), broadcaster: Broadcaster::new() }
    }

    /// A new subscription on the channel of the engine. It is for every
    /// event published after this call and for none published before.
    pub fn subscribe(&self) -> (subscription: Subscription)
        ensures
            subscription.origin() == self.channel(),
            subscription.since() == self.published().len(),
    {
        self.broadcaster.subscribe()
    }

    /// A handle from which subscriptions to the engine are made while the
    /// engine is busy.
    pub fn subscriptions(&self) -> (handle: Subscriptions)
        ensures
            handle.channel() == self.channel(),
    {
        self.broadcaster.subscriptions()
    }

    /// The offset up to which the stream has been handled: where reading
    /// its file goes on.
    pub fn get_offset(&self, id: &StreamIdentity) -> (offset: u64)
        ensures
            offset == self.offset_of(*id),
    {
        self.tracker.get_offset(id)
    }

    /// What is kept of the stream, if it has been seen.
    pub fn state_of(&self, id: &StreamIdentity) -> (state: Option<SessionState>)
        ensures
            state == (if self.positions().contains_key(id.key()) {
                Some(self.positions()[id.key()])
            } else {
                None
            }),
    {
        self.tracker.state_of(id)
    }

    /// Handles the new entries of one file, each with the offset at which
    /// its line ends: publishes them in order, at most
    /// `MAX_ENTRIES_PER_EVENT` of them and none behind a publish that found
    /// no subscriber, then tracks for the stream the end offset of the last
    /// entry published, together with the file and its modification time.
    /// Nothing changes for any other stream.
    pub fn handle_entries(
        &mut self,
        id: &StreamIdentity,
        session_file: PathBuf,
        last_modified: SystemTime,
        entries: Vec<(LogEntry, u64)>,
    ) -> (report: BatchReport)
        ensures
            report.emitted <= batch_size(entries@.len() as int),
            report.stopped <==> report.emitted < batch_size(entries@.len() as int),
            report.position == position_after(
                old(self).offset_of(*id),
                entries@,
                report.emitted as int,
            ),
            attempted_batch(
                old(self).attempts(),
                final(self).attempts(),
                *id,
                entries@,
                report.emitted as int,
                report.stopped,
            ),
            published_batch(
                old(self).published(),
                final(self).published(),
                *id,
                entries@,
                report.emitted as int,
            ),
            final(self).channel() == old(self).channel(),
            final(self).capacity() == old(self).capacity(),
            final(self).offset_of(*id) == report.position,
            final(self).positions() == old(self).positions().insert(
                id.key(),
                (SessionState {
                    project_name: id.group,
                    session_file,
                    last_position: report.position,
                    last_modified,
                }),
            ),
    {
        dispatch_entries(
            &mut self.tracker,
            &mut self.broadcaster,
            id,
            session_file,
            last_modified,
            entries,
        )
    }
}

} // verus!
