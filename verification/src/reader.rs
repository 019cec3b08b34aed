//! The incremental reader: cutting a log buffer into lines and picking the
//! lines that start at or after a given byte offset and look like a JSON
//! object.

use crate::events::LogEntry;
use vstd::prelude::*;
use vstd::slice::slice_subrange;
use vstd::utf8::{decode_utf8, valid_utf8};

verus! {

/// The byte that ends a line.
pub const NEWLINE: u8 = 10;

/// One line of a log buffer, by byte offsets into the buffer.
#[derive(Clone, Copy, Debug, PartialEq, Eq, Structural)]
pub struct LineSpan {
    /// Offset of the first byte of the line.
    pub start: u64,
    /// Offset just past the last byte of the line, the newline not counted.
    pub end: u64,
    /// Offset just past the line with its newline: where the next line starts.
    /// For a last line without a newline this is the end of the buffer.
    pub next: u64,
}

/// The offset of the first newline at or after `from`, or the length of the
/// buffer when there is none.
pub open spec fn line_end(content: Seq<u8>, from: int) -> int
    decreases content.len() - from,
{
    if from < 0 || from >= content.len() {
        content.len() as int
    } else if content[from] == NEWLINE {
        from
    } else {
        line_end(content, from + 1)
    }
}

/// The offset just past the line that starts at `start`, newline included.
pub open spec fn line_next(content: Seq<u8>, start: int) -> int {
    let end = line_end(content, start);
    if end < content.len() {
        end + 1
    } else {
        end
    }
}

/// The line that starts at `start`.
pub open spec fn span_at(content: Seq<u8>, start: int) -> LineSpan {
    LineSpan {
        start: start as u64,
        end: line_end(content, start) as u64,
        next: line_next(content, start) as u64,
    }
}

/// A line that starts inside the buffer ends inside it, and the next line
/// starts after it.
pub proof fn lemma_line_bounds(content: Seq<u8>, start: int)
    requires
        0 <= start < content.len(),
    ensures
        start <= line_end(content, start) <= content.len(),
        start < line_next(content, start) <= content.len(),
        line_end(content, start) < content.len() ==> content[line_end(content, start)] == NEWLINE,
        forall|i: int| start <= i < line_end(content, start) ==> content[i] != NEWLINE,
    decreases content.len() - start,
{
    if content[start] != NEWLINE {
        if start + 1 < content.len() {
            lemma_line_bounds(content, start + 1);
        } else {
            assert(line_end(content, start + 1) == content.len());
        }
    }
}

/// The lines of the buffer from the line that starts at `start` on. A buffer
/// that ends in a newline has no empty last line.
pub open spec fn lines_from(content: Seq<u8>, start: int) -> Seq<LineSpan>
    decreases content.len() - start,
{
    if start < 0 || start >= content.len() {
        Seq::empty()
    } else {
        proof {
            lemma_line_bounds(content, start);
        }
        seq![span_at(content, start)] + lines_from(content, line_next(content, start))
    }
}

/// All lines of the buffer, in order.
pub open spec fn all_lines(content: Seq<u8>) -> Seq<LineSpan> {
    lines_from(content, 0)
}

/// Whether a character is white space: the code points with the Unicode
/// property `White_Space`.
pub open spec fn is_whitespace(c: char) -> bool {
    let u = c as u32;
    ||| 0x09 <= u <= 0x0D
    ||| u == 0x20
    ||| u == 0x85
    ||| u == 0xA0
    ||| u == 0x1680
    ||| 0x2000 <= u <= 0x200A
    ||| u == 0x2028
    ||| u == 0x2029
    ||| u == 0x202F
    ||| u == 0x205F
    ||| u == 0x3000
}

/// The first character of the text that is not white space.
pub open spec fn first_visible(text: Seq<char>) -> Option<char>
    decreases text.len(),
{
    if text.len() == 0 {
        None
    } else if !is_whitespace(text[0]) {
        Some(text[0])
    } else {
        first_visible(text.drop_first())
    }
}

/// The last character of the text that is not white space.
pub open spec fn last_visible(text: Seq<char>) -> Option<char>
    decreases text.len(),
{
    if text.len() == 0 {
        None
    } else if !is_whitespace(text.last()) {
        Some(text.last())
    } else {
        last_visible(text.drop_last())
    }
}

/// Whether the text, white space at both ends set aside, begins with `{` and
/// ends with `}`.
pub open spec fn looks_like_object(text: Seq<char>) -> bool {
    first_visible(text) == Some('{') && last_visible(text) == Some('}')
}

/// The text without the white space at its start.
pub open spec fn trim_start(text: Seq<char>) -> Seq<char>
    decreases text.len(),
{
    if text.len() > 0 && is_whitespace(text[0]) {
        trim_start(text.drop_first())
    } else {
        text
    }
}

/// The text without the white space at its end.
pub open spec fn trim_end(text: Seq<char>) -> Seq<char>
    decreases text.len(),
{
    if text.len() > 0 && is_whitespace(text.last()) {
        trim_end(text.drop_last())
    } else {
        text
    }
}

/// The text without the white space at both ends.
pub open spec fn trimmed(text: Seq<char>) -> Seq<char> {
    trim_end(trim_start(text))
}

/// Without the white space at its start, a text begins with its first
/// visible character and keeps its last one.
proof fn lemma_trim_start(text: Seq<char>)
    ensures
        first_visible(text) == (if trim_start(text).len() > 0 {
            Some(trim_start(text)[0])
        } else {
            None
        }),
        trim_start(text).len() > 0 ==> !is_whitespace(trim_start(text)[0]),
        last_visible(trim_start(text)) == last_visible(text),
    decreases text.len(),
{
    if text.len() > 0 && is_whitespace(text[0]) {
        let rest = text.drop_first();
        lemma_trim_start(rest);
        lemma_last_visible_behind(text);
    }
}

/// A text that begins with white space has the last visible character of
/// what follows that white space.
proof fn lemma_last_visible_behind(text: Seq<char>)
    requires
        text.len() > 0,
        is_whitespace(text[0]),
    ensures
        last_visible(text) == last_visible(text.drop_first()),
    decreases text.len(),
{
    let rest = text.drop_first();
    if text.len() == 1 {
        assert(text.drop_last() =~= Seq::<char>::empty());
        assert(rest =~= Seq::<char>::empty());
    } else if is_whitespace(text.last()) {
        lemma_last_visible_behind(text.drop_last());
        assert(text.drop_last().drop_first() =~= rest.drop_last());
        assert(rest.last() == text.last());
    } else {
        assert(rest.last() == text.last());
    }
}

/// Without the white space at its end, a text ends with its last visible
/// character; a text that begins with a visible character keeps it.
proof fn lemma_trim_end(text: Seq<char>)
    ensures
        last_visible(text) == (if trim_end(text).len() > 0 {
            Some(trim_end(text).last())
        } else {
            None
        }),
        text.len() > 0 && !is_whitespace(text[0]) ==> trim_end(text).len() > 0 && trim_end(
            text,
        )[0] == text[0],
    decreases text.len(),
{
    if text.len() > 0 && is_whitespace(text.last()) {
        lemma_trim_end(text.drop_last());
        if !is_whitespace(text[0]) {
            assert(text.drop_last()[0] == text[0]);
        }
    }
}

/// A text looks like a JSON object exactly when, without the white space at
/// both ends, it is not empty, begins with `{` and ends with `}`.
pub proof fn lemma_looks_like_object(text: Seq<char>)
    ensures
        looks_like_object(text) <==> trimmed(text).len() > 0 && trimmed(text).first() == '{'
            && trimmed(text).last() == '}',
{
    let front = trim_start(text);
    lemma_trim_start(text);
    lemma_trim_end(front);
}

/// The text of a line: its bytes read as UTF-8, or nothing when they are not
/// UTF-8.
pub open spec fn line_text(bytes: Seq<u8>) -> Seq<char> {
    if valid_utf8(bytes) {
        decode_utf8(bytes)
    } else {
        Seq::empty()
    }
}

/// The bytes of a line, the newline not counted.
pub open spec fn line_bytes(content: Seq<u8>, span: LineSpan) -> Seq<u8> {
    content.subrange(span.start as int, span.end as int)
}

/// Whether a line starts at or after `from` and has bytes that `keep`
/// accepts.
pub open spec fn is_selected(
    content: Seq<u8>,
    from: u64,
    keep: spec_fn(Seq<u8>) -> bool,
    span: LineSpan,
) -> bool {
    span.start >= from && keep(line_bytes(content, span))
}

/// `is_selected` as a predicate on lines.
pub open spec fn selector(content: Seq<u8>, from: u64, keep: spec_fn(Seq<u8>) -> bool) -> spec_fn(
    LineSpan,
) -> bool {
    |span: LineSpan| is_selected(content, from, keep, span)
}

/// The lines that start at or after `from` and have bytes that `keep`
/// accepts, in the order of the buffer.
pub open spec fn selected_lines(content: Seq<u8>, from: u64, keep: spec_fn(Seq<u8>) -> bool) -> Seq<
    LineSpan,
> {
    all_lines(content).filter(selector(content, from, keep))
}

/// The bytes of a line whose text looks like a JSON object.
pub open spec fn object_like() -> spec_fn(Seq<u8>) -> bool {
    |bytes: Seq<u8>| looks_like_object(line_text(bytes))
}

/// The bytes of a line whose text looks like a JSON object and which
/// `parses` accepts.
pub open spec fn accepted_by(parses: spec_fn(Seq<u8>) -> bool) -> spec_fn(Seq<u8>) -> bool {
    |bytes: Seq<u8>| looks_like_object(line_text(bytes)) && parses(bytes)
}

/// The lines that start at or after `from` and look like a JSON object, in
/// the order of the buffer.
pub open spec fn new_lines(content: Seq<u8>, from: u64) -> Seq<LineSpan> {
    selected_lines(content, from, object_like())
}

/// The lines that start at or after `from`, look like a JSON object and are
/// accepted by `parses`: the lines that become entries.
pub open spec fn new_entries(content: Seq<u8>, from: u64, parses: spec_fn(Seq<u8>) -> bool) -> Seq<
    LineSpan,
> {
    selected_lines(content, from, accepted_by(parses))
}

/// `first_visible` of a text with one more character at its end.
proof fn lemma_first_visible_push(text: Seq<char>, c: char)
    ensures
        first_visible(text.push(c)) == match first_visible(text) {
            Some(x) => Some(x),
            None => if is_whitespace(c) {
                None
            } else {
                Some(c)
            },
        },
    decreases text.len(),
{
    if text.len() == 0 {
        assert(text.push(c).drop_first() =~= Seq::<char>::empty());
    } else {
        assert(text.push(c).drop_first() =~= text.drop_first().push(c));
        if is_whitespace(text[0]) {
            lemma_first_visible_push(text.drop_first(), c);
        }
    }
}

/// White space as `is_whitespace` defines it.
pub fn char_is_whitespace(c: char) -> (r: bool)
    ensures
        r == is_whitespace(c),
{
    let u: u32 = c as u32;
    (0x09 <= u && u <= 0x0D) || u == 0x20 || u == 0x85 || u == 0xA0 || u == 0x1680 || (0x2000 <= u
        && u <= 0x200A) || u == 0x2028 || u == 0x2029 || u == 0x202F || u == 0x205F || u == 0x3000
}

/// Whether a line, white space at both ends set aside, begins with `{` and
/// ends with `}`.
pub fn line_looks_like_object(line: &str) -> (r: bool)
    ensures
        r == looks_like_object(line@),
{
    let mut first: Option<char> = None;
    let mut last: Option<char> = None;
    for c in it: line.chars()
        invariant
            it.seq() == line@,
            first == first_visible(line@.take(it.index() as int)),
            last == last_visible(line@.take(it.index() as int)),
    {
        proof {
            let seen = line@.take(it.index() as int);
            assert(line@.take(it.index() + 1) =~= seen.push(c));
            assert(seen.push(c).drop_last() =~= seen);
            lemma_first_visible_push(seen, c);
        }
        if !char_is_whitespace(c) {
            if first.is_none() {
                first = Some(c);
            }
            last = Some(c);
        }
    }
    proof {
        assert(line@.take(line@.len() as int) =~= line@);
    }
    first == Some('{') && last == Some('}')
}

/// `core::str::from_utf8`: the bytes are accepted exactly when they are valid
/// UTF-8, and the text then holds the characters that they encode.
#[verifier::external_body]
fn utf8_text(bytes: &[u8]) -> (text: Option<&str>)
    ensures
        text is Some <==> valid_utf8(bytes@),
        text matches Some(s) ==> s@ == decode_utf8(bytes@),
{
    core::str::from_utf8(bytes).ok()
}

/// The offset of the first newline at or after `start`, or the length of the
/// buffer.
fn find_line_end(content: &[u8], start: usize) -> (end: usize)
    requires
        start < content@.len(),
    ensures
        end == line_end(content@, start as int),
        start <= end <= content@.len(),
{
    let mut end: usize = start;
    while end < content.len() && content[end] != NEWLINE
        invariant
            start <= end <= content@.len(),
            line_end(content@, start as int) == line_end(content@, end as int),
        decreases content@.len() - end,
    {
        end = end + 1;
    }
    end
}

/// Cuts the buffer into lines and returns those that start at or after
/// `from_position` and look like a JSON object, in the order of the buffer.
///
/// Each line comes with the offset at which the next one starts: the position
/// to track once the line has been handled.
pub fn new_line_spans(content: &[u8], from_position: u64) -> (spans: Vec<LineSpan>)
    ensures
        spans@ == new_lines(content@, from_position),
        forall|i: int|
            0 <= i < spans@.len() ==> from_position <= (#[trigger] spans@[i]).start <= spans@[i].end
                <= spans@[i].next <= content@.len(),
{
    let mut spans: Vec<LineSpan> = Vec::new();
    let mut line_start: usize = 0;
    let ghost mut seen: Seq<LineSpan> = Seq::empty();
    proof {
        reveal(Seq::filter);
        assert(seen + lines_from(content@, 0) =~= all_lines(content@));
    }
    while line_start < content.len()
        invariant
            line_start <= content@.len(),
            all_lines(content@) == seen + lines_from(content@, line_start as int),
            spans@ == seen.filter(selector(content@, from_position, object_like())),
        decreases content@.len() - line_start,
    {
        let end = find_line_end(content, line_start);
        let next: usize = if end < content.len() {
            end + 1
        } else {
            end
        };
        let span = LineSpan { start: line_start as u64, end: end as u64, next: next as u64 };
        proof {
            lemma_line_bounds(content@, line_start as int);
            assert(span == span_at(content@, line_start as int));
            assert(seen + lines_from(content@, line_start as int) =~= seen.push(span) + lines_from(
                content@,
                next as int,
            ));
            reveal(Seq::filter);
            assert(seen.push(span).drop_last() =~= seen);
        }
        if span.start >= from_position {
            let bytes = slice_subrange(content, line_start, end);
            let text: &str = match utf8_text(bytes) {
                Some(s) => s,
                None => "",
            };
            proof {
                reveal_strlit("");
                assert(text@ =~= line_text(line_bytes(content@, span)));
            }
            if line_looks_like_object(text) {
                spans.push(span);
            }
        }
        proof {
            seen = seen.push(span);
        }
        line_start = next;
    }
    proof {
        assert(seen + lines_from(content@, line_start as int) =~= seen);
    }
    let length = content.len();
    proof {
        assert(content@.len() == length);
        crate::laws::lemma_selected_bounds(content@, from_position, object_like());
        assert(spans@ == selected_lines(content@, from_position, object_like()));
    }
    spans
}

/// The entries of the lines that were parsed: for each line whose outcome
/// is an entry, in order, the entry with the offset at which the line ends.
/// Lines without an outcome have none.
pub open spec fn paired(spans: Seq<LineSpan>, parsed: Seq<Option<LogEntry>>) -> Seq<
    (LogEntry, u64),
>
    decreases spans.len(),
{
    if spans.len() == 0 {
        Seq::empty()
    } else {
        let before = paired(spans.drop_last(), parsed);
        if spans.len() <= parsed.len() {
            match parsed[spans.len() - 1] {
                Some(entry) => before.push((entry, spans.last().next)),
                None => before,
            }
        } else {
            before
        }
    }
}

/// Lines behind the last outcome have no entry.
proof fn lemma_paired_within(spans: Seq<LineSpan>, parsed: Seq<Option<LogEntry>>)
    requires
        parsed.len() <= spans.len(),
    ensures
        paired(spans, parsed) == paired(spans.take(parsed.len() as int), parsed),
    decreases spans.len(),
{
    if spans.len() > parsed.len() {
        lemma_paired_within(spans.drop_last(), parsed);
        assert(spans.drop_last().take(parsed.len() as int) =~= spans.take(parsed.len() as int));
    } else {
        assert(spans.take(parsed.len() as int) =~= spans);
    }
}

/// Pairs each entry that was parsed from a line with the offset at which
/// the line ends, and leaves out the lines from which none was parsed.
/// `parsed` holds the outcome for each line, in the order of the lines.
pub fn pair_entries(spans: &[LineSpan], parsed: Vec<Option<LogEntry>>) -> (entries: Vec<
    (LogEntry, u64),
>)
    ensures
        entries@ == paired(spans@, parsed@),
{
    let mut entries: Vec<(LogEntry, u64)> = Vec::new();
    let ghost outcomes = parsed@;
    let mut i: usize = 0;
    proof {
        assert(spans@.take(0) =~= Seq::<LineSpan>::empty());
    }
    for outcome in it: parsed
        invariant
            it.seq() == outcomes,
            i <= spans@.len(),
            i <= it.index(),
            i < spans@.len() ==> i == it.index(),
            entries@ == paired(spans@.take(i as int), outcomes),
    {
        if i < spans.len() {
            proof {
                assert(spans@.take(i + 1).drop_last() =~= spans@.take(i as int));
                assert(spans@.take(i + 1).last() == spans@[i as int]);
            }
            match outcome {
                Some(entry) => entries.push((entry, spans[i].next)),
                None => {},
            }
            i = i + 1;
        }
    }
    proof {
        if i < spans@.len() {
            lemma_paired_within(spans@, outcomes);
        } else {
            assert(spans@.take(i as int) =~= spans@);
        }
    }
    entries
}

} // verus!
