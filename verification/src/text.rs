//! Building and cutting text: the few operations on strings that the
//! renderers need, each with what it returns stated over characters.

use crate::reader::{char_is_whitespace, is_whitespace};
use vstd::prelude::*;
use vstd::string::StringExecFns;

verus! {

/// `str::eq`: two texts are equal when they hold the same characters.
#[verifier::external_body]
pub(crate) fn str_eq(a: &str, b: &str) -> (r: bool)
    ensures
        r == (a@ == b@),
{
    a == b
}

/// `String::push`: the text with the character behind it.
#[verifier::external_body]
pub(crate) fn push_char(text: &mut String, c: char)
    ensures
        final(text)@ == old(text)@.push(c),
{
    text.push(c);
}

/// `str::to_uppercase`, a function of the text alone.
pub uninterp spec fn uppercased(text: Seq<char>) -> Seq<char>;

/// `str::to_uppercase`: the text in upper case.
#[verifier::external_body]
pub(crate) fn to_uppercase(text: &str) -> (out: String)
    ensures
        out@ == uppercased(text@),
{
    text.to_uppercase()
}

/// Two texts, one behind the other.
pub fn join2(a: &str, b: &str) -> (out: String)
    ensures
        out@ == a@ + b@,
{
    let mut out = String::from_str(a);
    out.append(b);
    out
}

/// Three texts, one behind the other.
pub fn join3(a: &str, b: &str, c: &str) -> (out: String)
    ensures
        out@ == a@ + b@ + c@,
{
    let mut out = String::from_str(a);
    out.append(b);
    out.append(c);
    out
}

/// Five texts, one behind the other.
pub fn join5(a: &str, b: &str, c: &str, d: &str, e: &str) -> (out: String)
    ensures
        out@ == a@ + b@ + c@ + d@ + e@,
{
    let mut out = String::from_str(a);
    out.append(b);
    out.append(c);
    out.append(d);
    out.append(e);
    out
}

/// The character of a decimal digit.
pub open spec fn digit_char(digit: int) -> char {
    (48 + digit) as u8 as char
}

/// The decimal numeral of a number: no sign, no leading zero.
pub open spec fn decimal_text(n: nat) -> Seq<char>
    decreases n,
{
    if n < 10 {
        seq![digit_char(n as int)]
    } else {
        decimal_text(n / 10).push(digit_char((n % 10) as int))
    }
}

/// The decimal numeral of a number.
pub fn decimal(n: u64) -> (out: String)
    ensures
        out@ == decimal_text(n as nat),
    decreases n,
{
    let digit: u8 = 48 + (n % 10) as u8;
    if n < 10 {
        let mut out = String::new();
        push_char(&mut out, digit as char);
        out
    } else {
        let mut out = decimal(n / 10);
        push_char(&mut out, digit as char);
        out
    }
}

/// The views of the texts.
pub open spec fn texts(lines: Seq<String>) -> Seq<Seq<char>> {
    lines.map_values(|line: String| line@)
}

/// The text in which every `from` has been replaced by `to`.
pub open spec fn replaced(text: Seq<char>, from: char, to: Seq<char>) -> Seq<char>
    decreases text.len(),
{
    if text.len() == 0 {
        Seq::empty()
    } else {
        replaced(text.drop_last(), from, to) + (if text.last() == from {
            to
        } else {
            seq![text.last()]
        })
    }
}

/// The text in which every `from` has been replaced by `to`.
pub fn replace_char(text: &str, from: char, to: &str) -> (out: String)
    ensures
        out@ == replaced(text@, from, to@),
{
    let mut out = String::new();
    for c in it: text.chars()
        invariant
            it.seq() == text@,
            out@ == replaced(text@.take(it.index() as int), from, to@),
    {
        proof {
            assert(text@.take(it.index() + 1).drop_last() =~= text@.take(it.index() as int));
        }
        if c == from {
            out.append(to);
        } else {
            push_char(&mut out, c);
        }
    }
    proof {
        assert(text@.take(text@.len() as int) =~= text@);
    }
    out
}

/// Whether the text holds nothing but white space.
pub open spec fn blank(text: Seq<char>) -> bool {
    forall|i: int| 0 <= i < text.len() ==> is_whitespace(#[trigger] text[i])
}

/// Whether the text holds nothing but white space.
pub fn is_blank(text: &str) -> (r: bool)
    ensures
        r == blank(text@),
{
    let mut all: bool = true;
    for c in it: text.chars()
        invariant
            it.seq() == text@,
            all == blank(text@.take(it.index() as int)),
    {
        proof {
            let seen = text@.take(it.index() as int);
            let more = text@.take(it.index() + 1);
            assert(more =~= seen.push(c));
            if blank(seen) && is_whitespace(c) {
                assert forall|i: int| 0 <= i < more.len() implies is_whitespace(
                    #[trigger] more[i],
                ) by {
                    if i < seen.len() {
                        assert(more[i] == seen[i]);
                    }
                }
            } else if !blank(seen) {
                let i = choose|i: int| 0 <= i < seen.len() && !is_whitespace(#[trigger] seen[i]);
                assert(more[i] == seen[i]);
            } else {
                assert(more[seen.len() as int] == c);
            }
        }
        if !char_is_whitespace(c) {
            all = false;
        }
    }
    proof {
        assert(text@.take(text@.len() as int) =~= text@);
    }
    all
}

/// The offset of the first newline of the text, or its length.
pub open spec fn first_break(text: Seq<char>) -> int
    decreases text.len(),
{
    if text.len() == 0 || text[0] == '\n' {
        0
    } else {
        1 + first_break(text.drop_first())
    }
}

/// The first newline of a text lies inside it or at its end.
pub proof fn lemma_first_break(text: Seq<char>)
    ensures
        0 <= first_break(text) <= text.len(),
        first_break(text) < text.len() ==> text[first_break(text)] == '\n',
        forall|i: int| 0 <= i < first_break(text) ==> text[i] != '\n',
    decreases text.len(),
{
    if text.len() > 0 && text[0] != '\n' {
        lemma_first_break(text.drop_first());
        assert forall|i: int| 0 <= i < first_break(text) implies text[i] != '\n' by {
            if i > 0 {
                assert(text[i] == text.drop_first()[i - 1]);
            }
        }
    }
}

/// A line without the carriage return that stood before its newline.
pub open spec fn without_return(line: Seq<char>) -> Seq<char> {
    if line.len() > 0 && line.last() == '\r' {
        line.drop_last()
    } else {
        line
    }
}

/// The lines of the text. A line ends at a newline, or at a carriage return
/// that a newline follows; the last line may end with the text. Line ends
/// are not part of the lines.
pub open spec fn split_lines(text: Seq<char>) -> Seq<Seq<char>>
    decreases text.len(),
{
    if text.len() == 0 {
        Seq::empty()
    } else {
        let at = first_break(text);
        proof {
            lemma_first_break(text);
        }
        if at < text.len() {
            seq![without_return(text.take(at))] + split_lines(text.skip(at + 1))
        } else {
            seq![text]
        }
    }
}

/// A text whose first `at` characters hold no newline, and which ends
/// there or has a newline there, has its first newline at `at`.
proof fn lemma_first_break_at(text: Seq<char>, at: int)
    requires
        0 <= at <= text.len(),
        forall|i: int| 0 <= i < at ==> text[i] != '\n',
        at < text.len() ==> text[at] == '\n',
    ensures
        first_break(text) == at,
    decreases at,
{
    if at > 0 {
        let rest = text.drop_first();
        assert forall|i: int| 0 <= i < at - 1 implies rest[i] != '\n' by {
            assert(rest[i] == text[i + 1]);
        }
        lemma_first_break_at(rest, at - 1);
    }
}

/// The lines of the text, as `split_lines` defines them.
pub fn text_lines(text: &str) -> (lines: Vec<String>)
    ensures
        texts(lines@) == split_lines(text@),
{
    let mut lines: Vec<String> = Vec::new();
    let mut current = String::new();
    let mut pending_return: bool = false;
    let ghost mut line_start: int = 0;
    proof {
        assert(texts(lines@) =~= Seq::<Seq<char>>::empty());
        assert(text@.skip(0) =~= text@);
    }
    for c in it: text.chars()
        invariant
            it.seq() == text@,
            0 <= line_start <= it.index() <= text@.len(),
            split_lines(text@) == texts(lines@) + split_lines(text@.skip(line_start)),
            forall|i: int| line_start <= i < it.index() ==> text@[i] != '\n',
            pending_return == (line_start < it.index() && text@[it.index() - 1] == '\r'),
            current@ == without_return(text@.subrange(line_start, it.index() as int)),
            !pending_return ==> current@ == text@.subrange(line_start, it.index() as int),
    {
        let ghost at = it.index() as int;
        let ghost rest = text@.skip(line_start);
        if c == '\n' {
            proof {
                assert forall|i: int| 0 <= i < at - line_start implies rest[i] != '\n' by {
                    assert(rest[i] == text@[line_start + i]);
                }
                lemma_first_break_at(rest, at - line_start);
                assert(rest.take(at - line_start) =~= text@.subrange(line_start, at));
                assert(rest.skip(at - line_start + 1) =~= text@.skip(at + 1));
                assert(texts(lines@.push(current)) =~= texts(lines@).push(current@));
                assert(texts(lines@) + (seq![current@] + split_lines(text@.skip(at + 1)))
                    =~= texts(lines@).push(current@) + split_lines(text@.skip(at + 1)));
                line_start = at + 1;
            }
            lines.push(current);
            current = String::new();
            pending_return = false;
            proof {
                assert(text@.subrange(at + 1, at + 1) =~= Seq::<char>::empty());
            }
        } else {
            proof {
                assert(text@.subrange(line_start, at + 1) =~= text@.subrange(line_start, at).push(
                    c,
                ));
                assert(text@.subrange(line_start, at + 1).drop_last() =~= text@.subrange(
                    line_start,
                    at,
                ));
            }
            if pending_return {
                push_char(&mut current, '\r');
            }
            if c == '\r' {
                pending_return = true;
            } else {
                push_char(&mut current, c);
                pending_return = false;
            }
        }
    }
    let ghost end = text@.len() as int;
    let ghost rest = text@.skip(line_start);
    if pending_return {
        push_char(&mut current, '\r');
    }
    proof {
        assert(current@ =~= text@.subrange(line_start, end));
        assert(rest =~= text@.subrange(line_start, end));
    }
    if !current.as_str().is_empty() {
        proof {
            assert(rest.len() > 0);
            assert forall|i: int| 0 <= i < rest.len() implies rest[i] != '\n' by {
                assert(rest[i] == text@[line_start + i]);
            }
            lemma_first_break_at(rest, rest.len() as int);
            assert(texts(lines@.push(current)) =~= texts(lines@).push(current@));
            assert(texts(lines@) + seq![rest] =~= texts(lines@).push(current@));
        }
        lines.push(current);
    } else {
        proof {
            assert(rest.len() == 0);
            assert(texts(lines@) + split_lines(rest) =~= texts(lines@));
        }
    }
    lines
}

/// The text of an optional text.
pub open spec fn text_of(part: Option<&str>) -> Option<Seq<char>> {
    match part {
        Some(s) => Some(s@),
        None => None,
    }
}

/// A text between two others, or nothing where there is no text.
pub open spec fn optional_line(before: Seq<char>, value: Option<Seq<char>>, after: Seq<char>) -> Seq<
    char,
> {
    match value {
        Some(text) => before + text + after,
        None => Seq::empty(),
    }
}

/// Appends a text between two others, or nothing where there is no text.
pub(crate) fn push_optional_line(out: &mut String, before: &str, value: Option<&str>, after: &str)
    ensures
        final(out)@ == old(out)@ + optional_line(before@, text_of(value), after@),
{
    match value {
        Some(text) => {
            let piece = join3(before, text, after);
            out.append(piece.as_str());
        },
        None => {
            proof {
                assert(out@ + Seq::<char>::empty() =~= out@);
            }
        },
    }
}

/// The sum of two numbers of 64 bits, without what does not fit.
pub open spec fn wrapped_sum(a: u64, b: u64) -> u64 {
    if a + b > u64::MAX {
        (a + b - 0x1_0000_0000_0000_0000) as u64
    } else {
        (a + b) as u64
    }
}

/// The text of an optional text, or another text in its place.
pub open spec fn text_or(value: Option<Seq<char>>, fallback: Seq<char>) -> Seq<char> {
    match value {
        Some(text) => text,
        None => fallback,
    }
}

/// The text of an optional text, or another text in its place.
pub(crate) fn str_or<'a>(value: Option<&'a str>, fallback: &'a str) -> (text: &'a str)
    ensures
        text@ == text_or(text_of(value), fallback@),
{
    match value {
        Some(text) => text,
        None => fallback,
    }
}

/// A text behind the name of a product: the name, a space and the text;
/// the text alone where the name is empty.
pub open spec fn for_product(product: Seq<char>, text: Seq<char>) -> Seq<char> {
    if product.len() == 0 {
        text
    } else {
        product + " "@ + text
    }
}

/// A text behind the name of a product.
pub fn product_text(product: &str, text: &str) -> (out: String)
    ensures
        out@ == for_product(product@, text@),
{
    if product.is_empty() {
        text.to_owned()
    } else {
        join3(product, " ", text)
    }
}

} // verus!
