//! Listings of projects and sessions: what is shown of a session file, and
//! the order in which projects and sessions are listed.

use crate::events::{LogEntry, ProjectSummary, SessionSummary, Timestamp};
use crate::text::str_eq;
use vstd::prelude::*;

verus! {

/// The number of lines at the head of a session file that are read for its
/// summary and its time.
pub const SESSION_HEAD_LINES: usize = 10;

/// The number of lines at the head of a session file that are read for the
/// latest activity of its project.
pub const PROJECT_HEAD_LINES: usize = 5;

/// The summary shown for a session that has none.
pub open spec fn untitled() -> Seq<char> {
    "Untitled Session"@
}

/// The summary that an entry states: that of an entry of the kind
/// `summary` that has one.
pub open spec fn stated_summary(entry: LogEntry) -> Option<String> {
    match (entry.entry_type, entry.summary) {
        (Some(kind), Some(summary)) => if kind@ == "summary"@ {
            Some(summary)
        } else {
            None
        },
        _ => None,
    }
}

/// The number of entries that are read: up to and with the first one that
/// has a timestamp.
pub open spec fn entries_read(head: Seq<LogEntry>) -> int
    decreases head.len(),
{
    if head.len() == 0 {
        0
    } else if head[0].timestamp is Some {
        1
    } else {
        1 + entries_read(head.drop_first())
    }
}

/// The summary that the entries state: the last one stated.
pub open spec fn last_summary(entries: Seq<LogEntry>) -> Option<String>
    decreases entries.len(),
{
    if entries.len() == 0 {
        None
    } else {
        match stated_summary(entries.last()) {
            Some(summary) => Some(summary),
            None => last_summary(entries.drop_last()),
        }
    }
}

/// The timestamp of the first entry that has one.
pub open spec fn first_timestamp(head: Seq<LogEntry>) -> Option<Timestamp>
    decreases head.len(),
{
    if head.len() == 0 {
        None
    } else if head[0].timestamp is Some {
        head[0].timestamp
    } else {
        first_timestamp(head.drop_first())
    }
}

/// What the head of a session file shows: the entries are read in order up
/// to and with the first one that has a timestamp. The session's time is
/// that timestamp, or `fallback` where no entry has one; its summary is the
/// last one stated by an entry that was read, or "Untitled Session".
pub open spec fn session_summary(
    id: String,
    project_name: String,
    message_count: usize,
    head: Seq<LogEntry>,
    fallback: Timestamp,
    shown: SessionSummary,
) -> bool {
    &&& shown.id == id
    &&& shown.project_name == project_name
    &&& shown.message_count == message_count
    &&& shown.timestamp == match first_timestamp(head) {
        Some(at) => at,
        None => fallback,
    }
    &&& shown.summary@ == match last_summary(head.take(entries_read(head))) {
        Some(summary) => summary@,
        None => untitled(),
    }
}

/// When the first `n` entries have no timestamp and the next one has one,
/// `n + 1` entries are read; when no entry has one, all are.
proof fn lemma_entries_read_at(head: Seq<LogEntry>, n: int)
    requires
        0 <= n <= head.len(),
        forall|i: int| 0 <= i < n ==> head[i].timestamp is None,
        n < head.len() ==> head[n].timestamp is Some,
    ensures
        entries_read(head) == (if n < head.len() {
            n + 1
        } else {
            n
        }),
        first_timestamp(head) == (if n < head.len() {
            head[n].timestamp
        } else {
            None
        }),
    decreases n,
{
    if n > 0 {
        let rest = head.drop_first();
        assert forall|i: int| 0 <= i < n - 1 implies rest[i].timestamp is None by {
            assert(rest[i] == head[i + 1]);
        }
        lemma_entries_read_at(rest, n - 1);
    }
}

/// What is shown of a session file, from the entries at its head.
pub fn summarize_session(
    id: String,
    project_name: String,
    message_count: usize,
    head: &[LogEntry],
    fallback: Timestamp,
) -> (shown: SessionSummary)
    ensures
        session_summary(id, project_name, message_count, head@, fallback, shown),
{
    let mut summary: String = "Untitled Session".to_owned();
    let mut timestamp = fallback;
    let mut i: usize = 0;
    let mut found: bool = false;
    proof {
        assert(head@.take(0) =~= Seq::<LogEntry>::empty());
    }
    while i < head.len() && !found
        invariant
            i <= head.len(),
            !found ==> forall|j: int| 0 <= j < i ==> head@[j].timestamp is None,
            !found ==> timestamp == fallback,
            found ==> i > 0 && head@[i - 1].timestamp == Some(timestamp) && forall|j: int|
                0 <= j < i - 1 ==> head@[j].timestamp is None,
            summary@ == match last_summary(head@.take(i as int)) {
                Some(text) => text@,
                None => untitled(),
            },
        decreases head.len() - i,
    {
        let entry = &head[i];
        proof {
            assert(head@.take(i + 1).drop_last() =~= head@.take(i as int));
            assert(head@.take(i + 1).last() == *entry);
        }
        match (&entry.entry_type, &entry.summary) {
            (Some(kind), Some(text)) => {
                if str_eq(kind.as_str(), "summary") {
                    summary = text.clone();
                }
            },
            _ => {},
        }
        match entry.timestamp {
            Some(at) => {
                timestamp = at;
                found = true;
            },
            None => {},
        }
        i = i + 1;
    }
    proof {
        if found {
            lemma_entries_read_at(head@, i - 1);
        } else {
            lemma_entries_read_at(head@, i as int);
        }
    }
    SessionSummary { id, summary, timestamp, message_count, project_name }
}

/// Whether the first of two optional instants is later than the second: an
/// instant is later than none.
pub open spec fn later(a: Option<Timestamp>, b: Option<Timestamp>) -> bool {
    match (a, b) {
        (Some(x), Some(y)) => x.later_than(y),
        (Some(_), None) => true,
        _ => false,
    }
}

/// Whether the first of two optional instants is later than the second.
pub fn is_later(a: &Option<Timestamp>, b: &Option<Timestamp>) -> (r: bool)
    ensures
        r == later(*a, *b),
{
    match (a, b) {
        (Some(x), Some(y)) => x.is_after(y),
        (Some(_), None) => true,
        _ => false,
    }
}

/// The latest of `current` and the timestamps of the entries; of two equal
/// ones the earlier in the list.
pub open spec fn latest_of(current: Option<Timestamp>, entries: Seq<LogEntry>) -> Option<Timestamp>
    decreases entries.len(),
{
    if entries.len() == 0 {
        current
    } else {
        let before = latest_of(current, entries.drop_last());
        if later(entries.last().timestamp, before) {
            entries.last().timestamp
        } else {
            before
        }
    }
}

/// The latest activity of a project after the entries at the head of one
/// more of its session files.
pub fn latest_activity(current: Option<Timestamp>, entries: &[LogEntry]) -> (latest: Option<Timestamp>)
    ensures
        latest == latest_of(current, entries@),
{
    let mut latest = current;
    let mut i: usize = 0;
    proof {
        assert(entries@.take(0) =~= Seq::<LogEntry>::empty());
    }
    while i < entries.len()
        invariant
            i <= entries.len(),
            latest == latest_of(current, entries@.take(i as int)),
        decreases entries.len() - i,
    {
        proof {
            assert(entries@.take(i + 1).drop_last() =~= entries@.take(i as int));
            assert(entries@.take(i + 1).last() == entries@[i as int]);
        }
        if is_later(&entries[i].timestamp, &latest) {
            latest = entries[i].timestamp;
        }
        i = i + 1;
    }
    proof {
        assert(entries@.take(entries.len() as int) =~= entries@);
    }
    latest
}

/// Something that is listed by the time of its latest activity.
pub trait Dated {
    /// The time of the latest activity, if there was any.
    spec fn activity(&self) -> Option<Timestamp>;

    /// The time of the latest activity, if there was any.
    fn activity_of(&self) -> (at: Option<Timestamp>)
        ensures
            at == self.activity(),
    ;
}

impl Dated for SessionSummary {
    open spec fn activity(&self) -> Option<Timestamp> {
        Some(self.timestamp)
    }

    fn activity_of(&self) -> (at: Option<Timestamp>) {
        Some(self.timestamp)
    }
}

impl Dated for ProjectSummary {
    open spec fn activity(&self) -> Option<Timestamp> {
        self.latest_activity
    }

    fn activity_of(&self) -> (at: Option<Timestamp>) {
        self.latest_activity
    }
}

/// The place of a new item in a list that has the newest first: behind every
/// item that is not older than it.
pub open spec fn place_of<T: Dated>(listed: Seq<T>, item: T) -> int
    decreases listed.len(),
{
    if listed.len() == 0 {
        0
    } else if later(item.activity(), listed[0].activity()) {
        0
    } else {
        1 + place_of(listed.drop_first(), item)
    }
}

/// The items with the newest first; items of the same time in the order in
/// which they came.
pub open spec fn newest_first<T: Dated>(items: Seq<T>) -> Seq<T>
    decreases items.len(),
{
    if items.len() == 0 {
        Seq::empty()
    } else {
        let listed = newest_first(items.drop_last());
        listed.insert(place_of(listed, items.last()), items.last())
    }
}

/// Whether no item of the list is older than the one behind it.
pub open spec fn is_newest_first<T: Dated>(listed: Seq<T>) -> bool {
    forall|i: int, j: int|
        0 <= i < j < listed.len() ==> !later(
            #[trigger] listed[j].activity(),
            #[trigger] listed[i].activity(),
        )
}

/// The place of a new item lies within the list; no item before it is older
/// than the new one, and the item at it is.
pub proof fn lemma_place_of<T: Dated>(listed: Seq<T>, item: T)
    ensures
        0 <= place_of(listed, item) <= listed.len(),
        forall|i: int|
            0 <= i < place_of(listed, item) ==> !later(
                item.activity(),
                #[trigger] listed[i].activity(),
            ),
        place_of(listed, item) < listed.len() ==> later(
            item.activity(),
            listed[place_of(listed, item)].activity(),
        ),
    decreases listed.len(),
{
    if listed.len() > 0 && !later(item.activity(), listed[0].activity()) {
        let rest = listed.drop_first();
        lemma_place_of(rest, item);
        assert forall|i: int| 0 <= i < place_of(listed, item) implies !later(
            item.activity(),
            #[trigger] listed[i].activity(),
        ) by {
            if i > 0 {
                assert(listed[i] == rest[i - 1]);
            }
        }
        if place_of(listed, item) < listed.len() {
            assert(listed[place_of(listed, item)] == rest[place_of(rest, item)]);
        }
    }
}

/// Being later is transitive, and of two instants at most one is later.
pub proof fn lemma_later_order(a: Option<Timestamp>, b: Option<Timestamp>, c: Option<Timestamp>)
    ensures
        later(a, b) && later(b, c) ==> later(a, c),
        later(a, b) && !later(c, b) ==> later(a, c),
        !later(b, a) && later(b, c) ==> later(a, c),
        !(later(a, b) && later(b, a)),
{
}

/// Listing newest first keeps every item, each as often as it came, and
/// leaves no item in front of a newer one.
pub proof fn lemma_newest_first<T: Dated>(items: Seq<T>)
    ensures
        newest_first(items).len() == items.len(),
        newest_first(items).to_multiset() == items.to_multiset(),
        is_newest_first(newest_first(items)),
    decreases items.len(),
{
    broadcast use vstd::seq_lib::group_to_multiset_ensures;

    if items.len() == 0 {
    } else {
        let before = items.drop_last();
        let item = items.last();
        let listed = newest_first(before);
        let at = place_of(listed, item);
        lemma_newest_first(before);
        lemma_place_of(listed, item);
        let after = listed.insert(at, item);
        vstd::seq_lib::to_multiset_insert(listed, at, item);
        assert(before.push(item) =~= items);
        assert forall|i: int, j: int| 0 <= i < j < after.len() implies !later(
            #[trigger] after[j].activity(),
            #[trigger] after[i].activity(),
        ) by {
            if j < at {
                assert(after[i] == listed[i] && after[j] == listed[j]);
            } else if j == at {
                assert(after[i] == listed[i]);
            } else if i < at {
                assert(after[i] == listed[i] && after[j] == listed[j - 1]);
            } else if i == at {
                assert(after[j] == listed[j - 1]);
                if j - 1 > at {
                    assert(!later(listed[j - 1].activity(), listed[at].activity()));
                }
                lemma_later_order(item.activity(), listed[at].activity(), listed[j - 1].activity());
            } else {
                assert(after[i] == listed[i - 1] && after[j] == listed[j - 1]);
            }
        }
    }
}

/// The place of a new item in a list that has the newest first.
fn find_place<T: Dated>(listed: &Vec<T>, item: &T) -> (at: usize)
    ensures
        at == place_of(listed@, *item),
        at <= listed@.len(),
{
    let key = item.activity_of();
    let mut at: usize = 0;
    proof {
        assert(listed@.skip(0) =~= listed@);
    }
    while at < listed.len() && !is_later(&key, &listed[at].activity_of())
        invariant
            at <= listed@.len(),
            key == item.activity(),
            place_of(listed@, *item) == at + place_of(listed@.skip(at as int), *item),
        decreases listed@.len() - at,
    {
        proof {
            assert(listed@.skip(at as int).drop_first() =~= listed@.skip(at + 1));
            assert(listed@.skip(at as int)[0] == listed@[at as int]);
        }
        at = at + 1;
    }
    proof {
        if at < listed@.len() {
            assert(listed@.skip(at as int)[0] == listed@[at as int]);
        }
    }
    at
}

/// The items with the newest first; items of the same time stay in the
/// order in which they came.
pub fn sort_newest_first<T: Dated>(items: Vec<T>) -> (listed: Vec<T>)
    ensures
        listed@ == newest_first(items@),
        listed@.len() == items@.len(),
        listed@.to_multiset() == items@.to_multiset(),
        is_newest_first(listed@),
{
    let mut listed: Vec<T> = Vec::new();
    let ghost all = items@;
    proof {
        assert(all.take(0) =~= Seq::<T>::empty());
    }
    for item in it: items
        invariant
            it.seq() == all,
            listed@ == newest_first(all.take(it.index() as int)),
    {
        proof {
            assert(all.take(it.index() + 1).drop_last() =~= all.take(it.index() as int));
            assert(all.take(it.index() + 1).last() == item);
        }
        let at = find_place(&listed, &item);
        listed.insert(at, item);
    }
    proof {
        assert(all.take(all.len() as int) =~= all);
        lemma_newest_first(all);
    }
    listed
}

} // verus!
