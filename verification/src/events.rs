//! The data that flows through the engine: parsed log entries, the events
//! broadcast to subscribers, and the tracked state of each tailed file.

use crate::json::Json;
use std::fmt::Write;
use std::path::PathBuf;
use std::time::SystemTime;
use vstd::prelude::*;

verus! {

/// `std::path::PathBuf`: the path of a file, carried as it is.
#[verifier::external_type_specification]
#[verifier::external_body]
pub struct ExPathBuf(PathBuf);

/// `std::time::SystemTime`: the time of a modification, carried as it is.
#[verifier::external_type_specification]
#[verifier::external_body]
pub struct ExSystemTime(SystemTime);

/// `PathBuf::clone`: the copy is the same path.
pub assume_specification[ <PathBuf as Clone>::clone ](path: &PathBuf) -> (copy: PathBuf)
    ensures
        copy == *path,
;

/// `SystemTime::clone`: the copy is the same instant.
pub assume_specification[ <SystemTime as Clone>::clone ](time: &SystemTime) -> (copy: SystemTime)
    ensures
        copy == *time,
;

/// An instant in UTC: whole seconds since the Unix epoch, and the
/// nanoseconds into that second.
#[derive(Debug, Clone, Copy, PartialEq, Eq, Structural)]
pub struct Timestamp {
    pub secs: i64,
    pub nanos: u32,
}

/// `chrono::Utc::now`: the instant of the call, by the clock of the machine.
/// Nothing is promised of it. The call panics where that clock stands
/// before the Unix epoch.
#[verifier::external_body]
pub(crate) fn now() -> (instant: Timestamp) {
    let instant = chrono::Utc::now();
    Timestamp { secs: instant.timestamp(), nanos: instant.timestamp_subsec_nanos() }
}

/// What `chrono` writes for the instant under a `strftime` pattern: `None`
/// for an instant that `chrono` cannot hold and for a pattern that it
/// cannot follow.
pub uninterp spec fn formatted_instant(secs: i64, nanos: u32, pattern: Seq<char>) -> Option<
    Seq<char>,
>;

/// `DateTime::from_timestamp` and `DateTime::format`: the instant written
/// under the pattern, a function of the instant and the pattern alone.
#[verifier::external_body]
pub(crate) fn format_instant(instant: &Timestamp, pattern: &str) -> (text: Option<String>)
    ensures
        text is Some <==> formatted_instant(instant.secs, instant.nanos, pattern@) is Some,
        text matches Some(t) ==> formatted_instant(instant.secs, instant.nanos, pattern@) == Some(
            t@,
        ),
{
    let moment = chrono::DateTime::from_timestamp(instant.secs, instant.nanos)?;
    let mut text = String::new();
    write!(text, "{}", moment.format(pattern)).ok()?;
    Some(text)
}

impl Timestamp {
    /// Whether `self` is strictly later than `other`.
    pub open spec fn later_than(self, other: Timestamp) -> bool {
        self.secs > other.secs || (self.secs == other.secs && self.nanos > other.nanos)
    }

    /// Whether `self` is strictly later than `other`.
    pub fn is_after(&self, other: &Timestamp) -> (r: bool)
        ensures
            r == self.later_than(*other),
    {
        self.secs > other.secs || (self.secs == other.secs && self.nanos > other.nanos)
    }
}

/// One parsed JSON object of a log line. Every field may be absent.
#[derive(Debug, Clone)]
pub struct LogEntry {
    pub entry_type: Option<String>,
    pub summary: Option<String>,
    pub parent_uuid: Option<String>,
    pub is_sidechain: Option<bool>,
    pub user_type: Option<String>,
    pub cwd: Option<String>,
    pub session_id: Option<String>,
    pub version: Option<String>,
    pub message: Option<Json>,
    pub uuid: Option<String>,
    pub timestamp: Option<Timestamp>,
    pub request_id: Option<String>,
    pub leaf_uuid: Option<String>,
    pub tool_use_result: Option<Json>,
}

/// A project directory with the number of its sessions.
#[derive(Debug, Clone)]
pub struct ProjectSummary {
    pub name: String,
    pub path: String,
    pub session_count: usize,
    pub latest_activity: Option<Timestamp>,
}

/// One session file of a project.
#[derive(Debug, Clone)]
pub struct SessionSummary {
    pub id: String,
    pub summary: String,
    pub timestamp: Timestamp,
    pub message_count: usize,
    pub project_name: String,
}

/// What is broadcast for one new log line.
#[derive(Debug, Clone)]
pub struct WatchEvent {
    pub event_type: String,
    pub project: String,
    pub session: Option<String>,
    pub entry: Option<LogEntry>,
    pub timestamp: Timestamp,
}

/// The identity of one tailed file: the name of its directory and the stem of
/// its file name.
#[derive(Debug, Clone)]
pub struct StreamIdentity {
    pub group: String,
    pub stream: String,
}

impl StreamIdentity {
    /// The identity as a pair of texts.
    pub open spec fn key(self) -> (Seq<char>, Seq<char>) {
        (self.group@, self.stream@)
    }
}

/// What is tracked of one tailed file.
#[derive(Debug, Clone)]
pub struct SessionState {
    pub project_name: String,
    pub session_file: PathBuf,
    /// The byte offset up to which the file has been handled.
    pub last_position: u64,
    pub last_modified: SystemTime,
}

} // verus!
