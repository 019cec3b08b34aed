//! What holds of reading a growing log in steps: nothing is read twice,
//! nothing is lost, and what is appended is all that is new.

use crate::dispatch::{
    identity_of_parts, identity_of_path, path_extension, batch_size, describes, position_after, published_batch, BatchReport, MAX_ENTRIES_PER_EVENT,
};
use crate::broadcast::Subscription;
use crate::events::{LogEntry, StreamIdentity, WatchEvent};
use crate::reader::{
    accepted_by, new_entries, new_lines, object_like, paired, all_lines, is_selected, lemma_line_bounds, line_bytes, line_end, line_next, lines_from,
    selected_lines, selector, span_at, LineSpan, NEWLINE,
};
use vstd::prelude::*;

verus! {

/// Two predicates that agree on every item of a sequence filter it alike.
proof fn lemma_filter_agree<A>(s: Seq<A>, p: spec_fn(A) -> bool, q: spec_fn(A) -> bool)
    requires
        forall|i: int| 0 <= i < s.len() ==> p(#[trigger] s[i]) == q(s[i]),
    ensures
        s.filter(p) == s.filter(q),
    decreases s.len(),
{
    reveal(Seq::filter);
    if s.len() > 0 {
        lemma_filter_agree(s.drop_last(), p, q);
    }
}

/// A predicate that holds of no item of a sequence filters it to nothing.
proof fn lemma_filter_none<A>(s: Seq<A>, p: spec_fn(A) -> bool)
    requires
        forall|i: int| 0 <= i < s.len() ==> !p(#[trigger] s[i]),
    ensures
        s.filter(p) == Seq::<A>::empty(),
    decreases s.len(),
{
    reveal(Seq::filter);
    if s.len() > 0 {
        lemma_filter_none(s.drop_last(), p);
    }
}

/// A predicate that holds of every item of a sequence filters nothing out.
proof fn lemma_filter_all<A>(s: Seq<A>, p: spec_fn(A) -> bool)
    requires
        forall|i: int| 0 <= i < s.len() ==> p(#[trigger] s[i]),
    ensures
        s.filter(p) == s,
    decreases s.len(),
{
    reveal(Seq::filter);
    if s.len() > 0 {
        lemma_filter_all(s.drop_last(), p);
        assert(s.drop_last().push(s.last()) =~= s);
    }
}

/// The lines from a line start on lie inside the buffer, one after the
/// other without a gap, and reach the end of the buffer.
pub proof fn lemma_lines_in_order(content: Seq<u8>, start: int)
    requires
        0 <= start <= content.len() <= u64::MAX,
    ensures
        forall|i: int|
            0 <= i < lines_from(content, start).len() ==> {
                let span = #[trigger] lines_from(content, start)[i];
                &&& start <= span.start <= span.end <= span.next <= content.len()
                &&& span.start < span.next
                &&& span == span_at(content, span.start as int)
            },
        forall|i: int|
            0 <= i < lines_from(content, start).len() - 1 ==> (#[trigger] lines_from(
                content,
                start,
            )[i]).next == lines_from(content, start)[i + 1].start,
        lines_from(content, start).len() > 0 ==> lines_from(content, start)[0].start == start
            && lines_from(content, start).last().next == content.len(),
        start < content.len() ==> lines_from(content, start).len() > 0,
    decreases content.len() - start,
{
    if start < content.len() {
        lemma_line_bounds(content, start);
        let next = line_next(content, start);
        lemma_lines_in_order(content, next);
        let rest = lines_from(content, next);
        let lines = lines_from(content, start);
        assert(lines =~= seq![span_at(content, start)] + rest);
        assert forall|i: int| 0 <= i < lines.len() implies {
            let span = #[trigger] lines[i];
            &&& start <= span.start <= span.end <= span.next <= content.len()
            &&& span.start < span.next
            &&& span == span_at(content, span.start as int)
        } by {
            if i > 0 {
                assert(lines[i] == rest[i - 1]);
            }
        }
        assert forall|i: int| 0 <= i < lines.len() - 1 implies (#[trigger] lines[i]).next
            == lines[i + 1].start by {
            if i > 0 {
                assert(lines[i] == rest[i - 1]);
                assert(lines[i + 1] == rest[i]);
            } else {
                assert(lines[1] == rest[0]);
            }
        }
        if rest.len() > 0 {
            assert(lines.last() == rest.last());
        }
    }
}

/// Every line from a line start on starts at or after it, and a later line
/// starts at or after the end of an earlier one.
pub proof fn lemma_lines_ascend(content: Seq<u8>, start: int, i: int, j: int)
    requires
        0 <= start <= content.len() <= u64::MAX,
        0 <= i < j < lines_from(content, start).len(),
    ensures
        lines_from(content, start)[i].next <= lines_from(content, start)[j].start,
        lines_from(content, start)[i].start < lines_from(content, start)[j].start,
    decreases j - i,
{
    lemma_lines_in_order(content, start);
    let lines = lines_from(content, start);
    if j == i + 1 {
        assert(lines[i].next == lines[i + 1].start);
    } else {
        lemma_lines_ascend(content, start, i, j - 1);
        assert(lines[j - 1].next == lines[j - 1 + 1].start);
    }
}

/// The lines from `start` on that `keep` accepts and that start at or after
/// `from`.
pub open spec fn selected_from(
    content: Seq<u8>,
    start: int,
    from: u64,
    keep: spec_fn(Seq<u8>) -> bool,
) -> Seq<LineSpan> {
    lines_from(content, start).filter(selector(content, from, keep))
}

/// The selection from one line start on is the selection of that line
/// followed by the selection from the next line start on.
proof fn lemma_selected_unfold(content: Seq<u8>, start: int, from: u64, keep: spec_fn(Seq<u8>) -> bool)
    requires
        0 <= start < content.len() <= u64::MAX,
    ensures
        selected_from(content, start, from, keep) == (if is_selected(
            content,
            from,
            keep,
            span_at(content, start),
        ) {
            seq![span_at(content, start)]
        } else {
            Seq::<LineSpan>::empty()
        }) + selected_from(content, line_next(content, start), from, keep),
{
    let head = seq![span_at(content, start)];
    let rest = lines_from(content, line_next(content, start));
    let p = selector(content, from, keep);
    assert(lines_from(content, start) == head + rest);
    Seq::filter_distributes_over_add(head, rest, p);
    reveal(Seq::filter);
    assert(head.drop_last() =~= Seq::<LineSpan>::empty());
    assert(head.drop_last().filter(p) =~= Seq::<LineSpan>::empty());
    if p(head.last()) {
        assert(head.filter(p) =~= head);
    } else {
        assert(head.filter(p) =~= Seq::<LineSpan>::empty());
    }
}

/// Every selected line is a line from `start` on, is selected, and the
/// selected lines ascend.
proof fn lemma_selected_shape(content: Seq<u8>, start: int, from: u64, keep: spec_fn(Seq<u8>) -> bool)
    requires
        0 <= start <= content.len() <= u64::MAX,
    ensures
        forall|i: int|
            0 <= i < selected_from(content, start, from, keep).len() ==> {
                let span = #[trigger] selected_from(content, start, from, keep)[i];
                &&& start <= span.start < span.next <= content.len()
                &&& span.start <= span.end <= span.next
                &&& span.start >= from
                &&& keep(line_bytes(content, span))
                &&& span == span_at(content, span.start as int)
            },
        forall|i: int|
            0 <= i < selected_from(content, start, from, keep).len() - 1 ==> (
            #[trigger] selected_from(content, start, from, keep)[i]).next <= selected_from(
                content,
                start,
                from,
                keep,
            )[i + 1].start,
    decreases content.len() - start,
{
    if start < content.len() {
        lemma_line_bounds(content, start);
        let next = line_next(content, start);
        lemma_selected_unfold(content, start, from, keep);
        lemma_selected_shape(content, next, from, keep);
        let rest = selected_from(content, next, from, keep);
        let sel = selected_from(content, start, from, keep);
        let head = span_at(content, start);
        if is_selected(content, from, keep, head) {
            assert(sel =~= seq![head] + rest);
            assert forall|i: int| 0 <= i < sel.len() implies {
                let span = #[trigger] sel[i];
                &&& start <= span.start < span.next <= content.len()
                &&& span.start <= span.end <= span.next
                &&& span.start >= from
                &&& keep(line_bytes(content, span))
                &&& span == span_at(content, span.start as int)
            } by {
                if i > 0 {
                    assert(sel[i] == rest[i - 1]);
                }
            }
            assert forall|i: int| 0 <= i < sel.len() - 1 implies (#[trigger] sel[i]).next <= sel[i
                + 1].start by {
                if i > 0 {
                    assert(sel[i] == rest[i - 1]);
                    assert(sel[i + 1] == rest[i]);
                } else {
                    assert(sel[1] == rest[0]);
                }
            }
        } else {
            assert(sel =~= rest);
        }
    } else {
        reveal(Seq::filter);
    }
}

/// One selected line: it lies behind `start`, inside the buffer, starts at
/// or after `from`, and ends behind its start.
proof fn lemma_selected_item(
    content: Seq<u8>,
    start: int,
    from: u64,
    keep: spec_fn(Seq<u8>) -> bool,
    i: int,
)
    requires
        0 <= start <= content.len() <= u64::MAX,
        0 <= i < selected_from(content, start, from, keep).len(),
    ensures
        start <= selected_from(content, start, from, keep)[i].start,
        selected_from(content, start, from, keep)[i].start < selected_from(
            content,
            start,
            from,
            keep,
        )[i].next,
        selected_from(content, start, from, keep)[i].next <= content.len(),
        selected_from(content, start, from, keep)[i].start >= from,
{
    lemma_selected_shape(content, start, from, keep);
}

/// Behind the end of a line that is selected from `from` on, reading on
/// from that end selects what reading on from `from` selects.
proof fn lemma_resume_behind(
    content: Seq<u8>,
    next: int,
    from: u64,
    resume: u64,
    keep: spec_fn(Seq<u8>) -> bool,
)
    requires
        0 <= next <= content.len() <= u64::MAX,
        from <= resume <= next,
    ensures
        selected_from(content, next, resume, keep) == selected_from(content, next, from, keep),
{
    lemma_lines_in_order(content, next);
    let later = lines_from(content, next);
    assert forall|i: int| 0 <= i < later.len() implies selector(content, resume, keep)(
        #[trigger] later[i],
    ) == selector(content, from, keep)(later[i]) by {
        assert(later[i].start >= next);
    }
    lemma_filter_agree(later, selector(content, resume, keep), selector(content, from, keep));
}

/// Every selected line lies inside the buffer, starts at or after `from`,
/// and ends before the next line starts.
pub proof fn lemma_selected_bounds(content: Seq<u8>, from: u64, keep: spec_fn(Seq<u8>) -> bool)
    requires
        content.len() <= u64::MAX,
    ensures
        forall|i: int|
            0 <= i < selected_lines(content, from, keep).len() ==> from <= (
            #[trigger] selected_lines(content, from, keep)[i]).start <= selected_lines(
                content,
                from,
                keep,
            )[i].end <= selected_lines(content, from, keep)[i].next <= content.len(),
        forall|i: int|
            0 <= i < selected_lines(content, from, keep).len() - 1 ==> (
            #[trigger] selected_lines(content, from, keep)[i]).next <= selected_lines(
                content,
                from,
                keep,
            )[i + 1].start,
{
    lemma_selected_shape(content, 0, from, keep);
    assert(selected_lines(content, from, keep) == selected_from(content, 0, from, keep));
}

/// Reading on from the end of the `k`-th selected line gives the selected
/// lines after the `k`-th, for the lines from `start` on.
proof fn lemma_resume_from(
    content: Seq<u8>,
    start: int,
    from: u64,
    keep: spec_fn(Seq<u8>) -> bool,
    k: int,
)
    requires
        0 <= start <= content.len() <= u64::MAX,
        0 < k <= selected_from(content, start, from, keep).len(),
    ensures
        selected_from(content, start, selected_from(content, start, from, keep)[k - 1].next, keep)
            == selected_from(content, start, from, keep).skip(k),
    decreases content.len() - start,
{
    if start >= content.len() {
        reveal(Seq::filter);
        assert(lines_from(content, start) =~= Seq::<LineSpan>::empty());
        assert(selected_from(content, start, from, keep).len() == 0);
    } else {
        lemma_line_bounds(content, start);
        let next = line_next(content, start);
        let head = span_at(content, start);
        let sel = selected_from(content, start, from, keep);
        let rest = selected_from(content, next, from, keep);
        lemma_selected_unfold(content, start, from, keep);
        let resume = sel[k - 1].next;
        lemma_selected_unfold(content, start, resume, keep);
        let again = selected_from(content, start, resume, keep);
        let again_rest = selected_from(content, next, resume, keep);
        if is_selected(content, from, keep, head) {
            assert(sel == seq![head] + rest);
            if k == 1 {
                assert(sel[0] == head);
                assert(resume == next);
                assert(!is_selected(content, resume, keep, head));
                assert(again == Seq::<LineSpan>::empty() + again_rest);
                lemma_resume_behind(content, next, from, resume, keep);
                assert(again =~= rest);
                assert(sel.skip(1) =~= rest);
            } else {
                assert(sel[k - 1] == rest[k - 2]);
                lemma_selected_item(content, next, from, keep, k - 2);
                lemma_resume_from(content, next, from, keep, k - 1);
                assert(head.start < resume);
                assert(!is_selected(content, resume, keep, head));
                assert(again == Seq::<LineSpan>::empty() + again_rest);
                assert(again =~= rest.skip(k - 1));
                assert(sel.skip(k) =~= rest.skip(k - 1));
            }
        } else {
            assert(sel == Seq::<LineSpan>::empty() + rest);
            assert(sel =~= rest);
            lemma_selected_item(content, next, from, keep, k - 1);
            lemma_resume_from(content, next, from, keep, k);
            assert(head.start < resume);
            assert(!is_selected(content, resume, keep, head));
            assert(again == Seq::<LineSpan>::empty() + again_rest);
            assert(again =~= rest.skip(k));
        }
    }
}

/// Nothing is lost and nothing comes twice: when the first `k` of the
/// selected lines have been handled and the position has moved to the end of
/// the `k`-th, reading on from that position gives exactly the selected
/// lines after the `k`-th.
pub proof fn lemma_resume(content: Seq<u8>, from: u64, keep: spec_fn(Seq<u8>) -> bool, k: int)
    requires
        content.len() <= u64::MAX,
        0 < k <= selected_lines(content, from, keep).len(),
    ensures
        selected_lines(content, selected_lines(content, from, keep)[k - 1].next, keep)
            == selected_lines(content, from, keep).skip(k),
{
    lemma_resume_from(content, 0, from, keep, k);
}

/// Filtering the images of a sequence is filtering the sequence, where the
/// two predicates agree through the function.
proof fn lemma_filter_images<A, B>(
    s: Seq<A>,
    f: spec_fn(A) -> B,
    p: spec_fn(B) -> bool,
    q: spec_fn(A) -> bool,
)
    requires
        forall|i: int| 0 <= i < s.len() ==> q(#[trigger] s[i]) == p(f(s[i])),
    ensures
        s.map_values(f).filter(p) == s.filter(q).map_values(f),
    decreases s.len(),
{
    reveal(Seq::filter);
    if s.len() == 0 {
        assert(s.map_values(f) =~= Seq::<B>::empty());
        assert(s.filter(q).map_values(f) =~= Seq::<B>::empty());
    } else {
        lemma_filter_images(s.drop_last(), f, p, q);
        assert(s.map_values(f).drop_last() =~= s.drop_last().map_values(f));
        assert(s.map_values(f).last() == f(s.last()));
        if q(s.last()) {
            assert(s.drop_last().filter(q).push(s.last()).map_values(f) =~= s.drop_last().filter(
                q,
            ).map_values(f).push(f(s.last())));
        }
    }
}

/// A line moved `by` bytes towards the end of the buffer.
pub open spec fn shifted(span: LineSpan, by: int) -> LineSpan {
    LineSpan {
        start: (span.start + by) as u64,
        end: (span.end + by) as u64,
        next: (span.next + by) as u64,
    }
}

/// The lines, each moved `by` bytes towards the end of the buffer.
pub open spec fn shifted_lines(lines: Seq<LineSpan>, by: int) -> Seq<LineSpan> {
    lines.map_values(|span: LineSpan| shifted(span, by))
}

/// In a buffer that ends in a newline and is followed by more bytes, a line
/// ends where it ends without them.
proof fn lemma_line_end_before(first: Seq<u8>, second: Seq<u8>, i: int)
    requires
        0 <= i < first.len(),
        first.last() == NEWLINE,
    ensures
        line_end(first + second, i) == line_end(first, i),
        line_end(first, i) < first.len(),
    decreases first.len() - i,
{
    let both = first + second;
    assert(both[i] == first[i]);
    if first[i] != NEWLINE {
        lemma_line_end_before(first, second, i + 1);
    }
}

/// Behind a buffer of `first.len()` bytes, a line ends that many bytes
/// later than it ends in what follows alone.
proof fn lemma_line_end_behind(first: Seq<u8>, second: Seq<u8>, i: int)
    requires
        0 <= i <= second.len(),
    ensures
        line_end(first + second, first.len() + i) == first.len() + line_end(second, i),
    decreases second.len() - i,
{
    let both = first + second;
    if i < second.len() {
        assert(both[first.len() + i] == second[i]);
        if second[i] != NEWLINE {
            lemma_line_end_behind(first, second, i + 1);
        }
    }
}

/// Behind a buffer of `first.len()` bytes, the lines are those of what
/// follows alone, moved by that many bytes.
proof fn lemma_lines_behind(first: Seq<u8>, second: Seq<u8>, i: int)
    requires
        0 <= i <= second.len(),
        first.len() + second.len() <= u64::MAX,
    ensures
        lines_from(first + second, first.len() + i) == shifted_lines(
            lines_from(second, i),
            first.len() as int,
        ),
    decreases second.len() - i,
{
    let both = first + second;
    let by = first.len() as int;
    if i < second.len() {
        lemma_line_end_behind(first, second, i);
        lemma_line_bounds(second, i);
        lemma_line_bounds(both, by + i);
        let next = line_next(second, i);
        assert(line_next(both, by + i) == by + next);
        lemma_lines_behind(first, second, next);
        assert(span_at(both, by + i) == shifted(span_at(second, i), by));
        assert(lines_from(both, by + i) =~= shifted_lines(lines_from(second, i), by));
    } else {
        assert(lines_from(both, by + i) =~= shifted_lines(lines_from(second, i), by));
    }
}

/// The lines of a buffer that ends in a newline, followed by the lines of
/// what is appended to it, are the lines of the two together.
proof fn lemma_lines_append(first: Seq<u8>, second: Seq<u8>, i: int)
    requires
        0 <= i <= first.len(),
        first.len() == 0 || first.last() == NEWLINE,
        first.len() + second.len() <= u64::MAX,
    ensures
        lines_from(first + second, i) == lines_from(first, i) + shifted_lines(
            lines_from(second, 0),
            first.len() as int,
        ),
    decreases first.len() - i,
{
    let both = first + second;
    let by = first.len() as int;
    if i == first.len() {
        lemma_lines_behind(first, second, 0);
        assert(lines_from(first, i) =~= Seq::<LineSpan>::empty());
        assert(lines_from(both, i) =~= lines_from(first, i) + shifted_lines(
            lines_from(second, 0),
            by,
        ));
    } else {
        lemma_line_end_before(first, second, i);
        lemma_line_bounds(first, i);
        let next = line_next(first, i);
        assert(line_next(both, i) == next);
        lemma_lines_append(first, second, next);
        assert(span_at(both, i) == span_at(first, i));
        assert(lines_from(both, i) =~= lines_from(first, i) + shifted_lines(
            lines_from(second, 0),
            by,
        ));
    }
}

/// The position `from`, counted from the end of a buffer of `len` bytes: 0
/// when it lies inside that buffer.
pub open spec fn position_behind(from: u64, len: int) -> u64 {
    if from >= len {
        (from - len) as u64
    } else {
        0
    }
}

/// What is new in a log that has grown is what was new in it before,
/// followed by what is new in the bytes that were appended: for a log that,
/// before it grew, was empty or ended in a newline.
pub proof fn lemma_append(
    first: Seq<u8>,
    second: Seq<u8>,
    from: u64,
    keep: spec_fn(Seq<u8>) -> bool,
)
    requires
        first.len() == 0 || first.last() == NEWLINE,
        first.len() + second.len() <= u64::MAX,
    ensures
        selected_lines(first + second, from, keep) == selected_lines(first, from, keep)
            + shifted_lines(
            selected_lines(second, position_behind(from, first.len() as int), keep),
            first.len() as int,
        ),
{
    let both = first + second;
    let by = first.len() as int;
    let old_lines = all_lines(first);
    let new_lines = all_lines(second);
    let moved = shifted_lines(new_lines, by);
    let p_both = selector(both, from, keep);
    let p_first = selector(first, from, keep);
    let p_second = selector(second, position_behind(from, by), keep);
    lemma_lines_append(first, second, 0);
    lemma_lines_in_order(first, 0);
    lemma_lines_in_order(second, 0);
    Seq::filter_distributes_over_add(old_lines, moved, p_both);
    assert forall|i: int| 0 <= i < old_lines.len() implies p_both(#[trigger] old_lines[i])
        == p_first(old_lines[i]) by {
        let span = old_lines[i];
        assert(line_bytes(both, span) =~= line_bytes(first, span));
    }
    lemma_filter_agree(old_lines, p_both, p_first);
    let mv = |span: LineSpan| shifted(span, by);
    assert forall|i: int| 0 <= i < new_lines.len() implies p_second(#[trigger] new_lines[i])
        == p_both(mv(new_lines[i])) by {
        let span = new_lines[i];
        assert(line_bytes(both, shifted(span, by)) =~= line_bytes(second, span));
    }
    lemma_filter_images(new_lines, mv, p_both, p_second);
}

/// Only what is appended is new: when a log that is empty or ends in a
/// newline has been read up to a position behind which nothing is left to
/// select, and then grows, reading on from that position gives exactly the
/// selected lines of the appended bytes, and none of the lines read before.
pub proof fn lemma_only_appended_is_new(
    first: Seq<u8>,
    second: Seq<u8>,
    position: u64,
    keep: spec_fn(Seq<u8>) -> bool,
)
    requires
        first.len() == 0 || first.last() == NEWLINE,
        first.len() + second.len() <= u64::MAX,
        position <= first.len(),
        selected_lines(first, position, keep).len() == 0,
    ensures
        selected_lines(first + second, position, keep) == shifted_lines(
            selected_lines(second, 0, keep),
            first.len() as int,
        ),
        forall|i: int|
            0 <= i < selected_lines(first + second, position, keep).len() ==> (
            #[trigger] selected_lines(first + second, position, keep)[i]).start >= first.len(),
{
    lemma_append(first, second, position, keep);
    let moved = shifted_lines(selected_lines(second, 0, keep), first.len() as int);
    assert(selected_lines(first, position, keep) =~= Seq::<LineSpan>::empty());
    assert(selected_lines(first, position, keep) + moved =~= moved);
    lemma_selected_shape(second, 0, 0, keep);
    let appended = selected_lines(second, 0, keep);
    assert(appended == selected_from(second, 0, 0, keep));
    assert forall|i: int| 0 <= i < moved.len() implies (#[trigger] moved[i]).start
        >= first.len() by {
        assert(moved[i] == shifted(appended[i], first.len() as int));
        assert(appended[i].next <= second.len());
    }
}

/// With a newline behind it, a line of a buffer that does not end in a
/// newline ends where it ended.
proof fn lemma_line_end_closed(first: Seq<u8>, i: int)
    requires
        0 <= i < first.len(),
        first.last() != NEWLINE,
    ensures
        line_end(first.push(NEWLINE), i) == line_end(first, i),
    decreases first.len() - i,
{
    let closed = first.push(NEWLINE);
    assert(closed[i] == first[i]);
    if first[i] != NEWLINE {
        if i + 1 < first.len() {
            lemma_line_end_closed(first, i + 1);
        } else {
            assert(closed[i + 1] == NEWLINE);
            assert(line_end(closed, i + 1) == i + 1);
            assert(line_end(first, i + 1) == first.len());
        }
    }
}

/// With a newline behind it, a buffer that does not end in a newline has
/// the lines that it had: as many, and each with the start and the end
/// that it had.
proof fn lemma_lines_closed(first: Seq<u8>, i: int)
    requires
        0 <= i < first.len() < u64::MAX,
        first.last() != NEWLINE,
    ensures
        lines_from(first.push(NEWLINE), i).len() == lines_from(first, i).len(),
        forall|k: int|
            0 <= k < lines_from(first, i).len() ==> (#[trigger] lines_from(
                first.push(NEWLINE),
                i,
            )[k]).start == lines_from(first, i)[k].start && lines_from(first.push(NEWLINE), i)[k].end
                == lines_from(first, i)[k].end && lines_from(first, i)[k].end <= first.len(),
    decreases first.len() - i,
{
    let closed = first.push(NEWLINE);
    lemma_line_end_closed(first, i);
    lemma_line_bounds(first, i);
    lemma_line_bounds(closed, i);
    let end = line_end(first, i);
    let here = lines_from(first, i);
    let there = lines_from(closed, i);
    if end < first.len() {
        assert(first[end] == NEWLINE);
        assert(end + 1 < first.len());
        lemma_lines_closed(first, end + 1);
        let rest_here = lines_from(first, end + 1);
        let rest_there = lines_from(closed, end + 1);
        assert(here =~= seq![span_at(first, i)] + rest_here);
        assert(there =~= seq![span_at(closed, i)] + rest_there);
        assert forall|k: int| 0 <= k < here.len() implies (#[trigger] there[k]).start
            == here[k].start && there[k].end == here[k].end && here[k].end <= first.len() by {
            if k > 0 {
                assert(here[k] == rest_here[k - 1]);
                assert(there[k] == rest_there[k - 1]);
            }
        }
    } else {
        assert(lines_from(first, first.len() as int) =~= Seq::<LineSpan>::empty());
        assert(lines_from(closed, closed.len() as int) =~= Seq::<LineSpan>::empty());
        assert(here =~= seq![span_at(first, i)]);
        assert(there =~= seq![span_at(closed, i)]);
    }
}

/// Where nothing is selected of a buffer that does not end in a newline,
/// nothing is selected of it with a newline behind it.
proof fn lemma_nothing_selected_closed(
    first: Seq<u8>,
    position: u64,
    keep: spec_fn(Seq<u8>) -> bool,
)
    requires
        0 < first.len() < u64::MAX,
        first.last() != NEWLINE,
        selected_lines(first, position, keep).len() == 0,
    ensures
        selected_lines(first.push(NEWLINE), position, keep).len() == 0,
{
    let closed = first.push(NEWLINE);
    let here = all_lines(first);
    let there = all_lines(closed);
    let p_here = selector(first, position, keep);
    let p_there = selector(closed, position, keep);
    lemma_lines_closed(first, 0);
    lemma_lines_in_order(first, 0);
    assert forall|k: int| 0 <= k < there.len() implies !p_there(#[trigger] there[k]) by {
        assert(there[k].start == here[k].start && there[k].end == here[k].end);
        assert(here[k].start <= here[k].end <= first.len());
        assert(line_bytes(closed, there[k]) =~= line_bytes(first, here[k]));
        if p_here(here[k]) {
            here.lemma_filter_contains(p_here, k);
        }
    }
    lemma_filter_none(there, p_there);
}

/// Only what is appended is new, also behind an open line: when a log that
/// does not end in a newline has been read up to a position behind which
/// nothing is left to select, and then grows by a newline and more, reading
/// on from that position gives exactly the selected lines of what follows
/// that newline, and none of the lines read before.
pub proof fn lemma_only_appended_behind_open_line(
    first: Seq<u8>,
    second: Seq<u8>,
    position: u64,
    keep: spec_fn(Seq<u8>) -> bool,
)
    requires
        first.len() > 0,
        first.last() != NEWLINE,
        second.len() > 0,
        second[0] == NEWLINE,
        first.len() + second.len() <= u64::MAX,
        position <= first.len(),
        selected_lines(first, position, keep).len() == 0,
    ensures
        selected_lines(first + second, position, keep) == shifted_lines(
            selected_lines(second.skip(1), 0, keep),
            first.len() as int + 1,
        ),
        forall|i: int|
            0 <= i < selected_lines(first + second, position, keep).len() ==> (
            #[trigger] selected_lines(first + second, position, keep)[i]).start > first.len(),
{
    let closed = first.push(NEWLINE);
    let rest = second.skip(1);
    assert(first + second =~= closed + rest);
    lemma_nothing_selected_closed(first, position, keep);
    lemma_only_appended_is_new(closed, rest, position, keep);
}

/// A burst is read whole and in order: when every line of a buffer is
/// selected and there are no more of them than one batch takes, reading
/// from the start gives all lines of the buffer, each once and in the order
/// of the buffer, one batch takes them all, and behind the end of the last
/// one nothing is left.
pub proof fn lemma_single_burst(content: Seq<u8>, keep: spec_fn(Seq<u8>) -> bool)
    requires
        content.len() <= u64::MAX,
        all_lines(content).len() <= MAX_ENTRIES_PER_EVENT,
        forall|i: int|
            0 <= i < all_lines(content).len() ==> keep(
                line_bytes(content, #[trigger] all_lines(content)[i]),
            ),
    ensures
        selected_lines(content, 0, keep) == all_lines(content),
        batch_size(selected_lines(content, 0, keep).len() as int) == all_lines(content).len(),
        forall|i: int, j: int|
            0 <= i < j < all_lines(content).len() ==> all_lines(content)[i].start < all_lines(
                content,
            )[j].start,
        all_lines(content).len() > 0 ==> all_lines(content).last().next == content.len(),
        selected_lines(content, content.len() as u64, keep).len() == 0,
{
    let lines = all_lines(content);
    lemma_lines_in_order(content, 0);
    lemma_filter_all(lines, selector(content, 0, keep));
    assert forall|i: int, j: int| 0 <= i < j < lines.len() implies lines[i].start
        < lines[j].start by {
        lemma_lines_ascend(content, 0, i, j);
    }
    lemma_filter_none(lines, selector(content, content.len() as u64, keep));
}

/// Whether the entries are those of the lines: one for each line, in
/// order, each with the offset at which its line ends.
pub open spec fn entries_of(entries: Seq<(LogEntry, u64)>, lines: Seq<LineSpan>) -> bool {
    &&& entries.len() == lines.len()
    &&& forall|i: int| 0 <= i < entries.len() ==> (#[trigger] entries[i]).1 == lines[i].next
}

/// Filtering twice is filtering once by both predicates.
proof fn lemma_filter_twice<A>(s: Seq<A>, p: spec_fn(A) -> bool, q: spec_fn(A) -> bool)
    ensures
        s.filter(p).filter(q) == s.filter(|x: A| p(x) && q(x)),
    decreases s.len(),
{
    reveal(Seq::filter);
    if s.len() > 0 {
        lemma_filter_twice(s.drop_last(), p, q);
        if p(s.last()) {
            let kept = s.drop_last().filter(p);
            assert(kept.push(s.last()).drop_last() =~= kept);
        }
    }
}

/// Whether the outcomes are those of parsing the lines: one for each line,
/// an entry exactly for the lines whose bytes `parses` accepts.
pub open spec fn parsed_by(
    content: Seq<u8>,
    spans: Seq<LineSpan>,
    parsed: Seq<Option<LogEntry>>,
    parses: spec_fn(Seq<u8>) -> bool,
) -> bool {
    &&& parsed.len() == spans.len()
    &&& forall|i: int|
        0 <= i < spans.len() ==> (#[trigger] parsed[i] is Some) == parses(
            line_bytes(content, spans[i]),
        )
}

/// The entries paired from lines and their outcomes are those of the lines
/// that have an outcome.
proof fn lemma_paired_filter(
    content: Seq<u8>,
    spans: Seq<LineSpan>,
    parsed: Seq<Option<LogEntry>>,
    parses: spec_fn(Seq<u8>) -> bool,
)
    requires
        parsed.len() >= spans.len(),
        forall|i: int|
            0 <= i < spans.len() ==> (#[trigger] parsed[i] is Some) == parses(
                line_bytes(content, spans[i]),
            ),
    ensures
        entries_of(
            paired(spans, parsed),
            spans.filter(|span: LineSpan| parses(line_bytes(content, span))),
        ),
    decreases spans.len(),
{
    reveal(Seq::filter);
    let q = |span: LineSpan| parses(line_bytes(content, span));
    if spans.len() > 0 {
        let before = spans.drop_last();
        assert forall|i: int| 0 <= i < before.len() implies (#[trigger] parsed[i] is Some)
            == parses(line_bytes(content, before[i])) by {
            assert(before[i] == spans[i]);
        }
        lemma_paired_filter(content, before, parsed, parses);
        let entries = paired(spans, parsed);
        let lines = spans.filter(q);
        assert((parsed[spans.len() - 1] is Some) == q(spans.last()));
        if q(spans.last()) {
            let earlier = paired(before, parsed);
            assert forall|i: int| 0 <= i < entries.len() implies (#[trigger] entries[i]).1
                == lines[i].next by {
                if i < earlier.len() {
                    assert(entries[i] == earlier[i]);
                    assert(lines[i] == before.filter(q)[i]);
                }
            }
        }
    }
}

/// The reader returns what is new: when the outcomes are those of parsing
/// the lines that `new_line_spans` returns, the entries paired from them
/// are those of the lines that start at or after `from`, look like a JSON
/// object and parse, each with the offset at which its line ends.
pub proof fn lemma_entries_are_new_entries(
    content: Seq<u8>,
    from: u64,
    parses: spec_fn(Seq<u8>) -> bool,
    parsed: Seq<Option<LogEntry>>,
)
    requires
        parsed_by(content, new_lines(content, from), parsed, parses),
    ensures
        entries_of(paired(new_lines(content, from), parsed), new_entries(content, from, parses)),
{
    let lines = all_lines(content);
    let p = selector(content, from, object_like());
    let q = |span: LineSpan| parses(line_bytes(content, span));
    lemma_paired_filter(content, new_lines(content, from), parsed, parses);
    lemma_filter_twice(lines, p, q);
    lemma_filter_agree(
        lines,
        |span: LineSpan| p(span) && q(span),
        selector(content, from, accepted_by(parses)),
    );
}

/// A batch leaves the rest for later: when the entries of a file are its
/// selected lines and a batch has published the first `emitted` of them,
/// then the position tracked after the batch is one from which exactly the
/// entries not yet published are read; and a batch publishes no more than
/// `MAX_ENTRIES_PER_EVENT` of them.
pub proof fn lemma_batch_resumes(
    content: Seq<u8>,
    from: u64,
    keep: spec_fn(Seq<u8>) -> bool,
    entries: Seq<(LogEntry, u64)>,
    emitted: int,
)
    requires
        content.len() <= u64::MAX,
        entries_of(entries, selected_lines(content, from, keep)),
        0 <= emitted <= batch_size(entries.len() as int),
    ensures
        emitted <= MAX_ENTRIES_PER_EVENT,
        selected_lines(content, position_after(from, entries, emitted), keep) == selected_lines(
            content,
            from,
            keep,
        ).skip(emitted),
        selected_lines(content, position_after(from, entries, emitted), keep).len()
            == entries.len() - emitted,
{
    if emitted > 0 {
        lemma_resume(content, from, keep, emitted);
    } else {
        assert(selected_lines(content, from, keep).skip(0) =~= selected_lines(content, from, keep));
    }
}

/// A burst is published whole: when a new file holds no more lines than one
/// batch takes, every line of it becomes an entry, and no publish of the
/// batch finds the channel without subscribers, then the batch publishes
/// one event for each line of the file, in the order of the file, and leaves
/// a position behind which nothing is left to read.
pub proof fn lemma_burst_is_published(
    content: Seq<u8>,
    keep: spec_fn(Seq<u8>) -> bool,
    entries: Seq<(LogEntry, u64)>,
    id: StreamIdentity,
    before: Seq<WatchEvent>,
    after: Seq<WatchEvent>,
    report: BatchReport,
)
    requires
        content.len() <= u64::MAX,
        all_lines(content).len() <= MAX_ENTRIES_PER_EVENT,
        forall|i: int|
            0 <= i < all_lines(content).len() ==> keep(
                line_bytes(content, #[trigger] all_lines(content)[i]),
            ),
        entries_of(entries, selected_lines(content, 0, keep)),
        report.stopped <==> report.emitted < batch_size(entries.len() as int),
        report.emitted <= batch_size(entries.len() as int),
        report.position == position_after(0, entries, report.emitted as int),
        published_batch(before, after, id, entries, report.emitted as int),
        !report.stopped,
    ensures
        report.emitted == all_lines(content).len(),
        after.len() == before.len() + all_lines(content).len(),
        after.subrange(0, before.len() as int) == before,
        forall|i: int|
            0 <= i < all_lines(content).len() ==> describes(
                #[trigger] after[before.len() + i],
                id,
                entries[i].0,
            ) && entries[i].1 == all_lines(content)[i].next,
        selected_lines(content, report.position, keep).len() == 0,
{
    lemma_single_burst(content, keep);
    lemma_batch_resumes(content, 0, keep, entries, report.emitted as int);
}

/// Files that are no logs are ignored: a path whose extension is not
/// `jsonl` is the file of no stream, whatever its directory and its name.
pub proof fn lemma_other_files_are_ignored(path: Seq<char>)
    ensures
        path_extension(path) != Some("jsonl"@) ==> identity_of_path(path) is None,
        forall|extension: Option<Seq<char>>, group: Option<Seq<char>>, stem: Option<Seq<char>>|
            extension != Some("jsonl"@) ==> #[trigger] identity_of_parts(extension, group, stem)
                is None,
{
}

/// Fan-out, as far as the library decides it: two subscriptions that were
/// made at the same point of what a broadcaster publishes are for the same
/// events, which are the events published from that point on, in their
/// order; no event published before that point is among them. What a
/// subscriber receives of its events is decided by the channel.
pub proof fn lemma_subscriptions_agree(
    first: Subscription,
    second: Subscription,
    history: Seq<WatchEvent>,
)
    requires
        first.since() == second.since(),
        first.since() <= history.len(),
    ensures
        first.published_since(history) == second.published_since(history),
        first.published_since(history).len() == history.len() - first.since(),
        forall|i: int|
            0 <= i < history.len() - first.since() ==> #[trigger] first.published_since(history)[i]
                == history[first.since() + i],
{
}

} // verus!
