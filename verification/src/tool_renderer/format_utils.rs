//! Formatting patterns shared by the tool renderers: each for Markdown and
//! for HTML.

use crate::json::{pretty_text, to_pretty, Json};
use crate::text::{blank, is_blank, join3, text_of, replace_char, replaced, split_lines, text_lines, texts};
use crate::tool_renderer::OutputFormat;
use vstd::prelude::*;
use vstd::string::StringExecFns;

verus! {

/// The text with the five characters that HTML reserves replaced by their
/// entities: `&` first, then `<`, `>`, `"` and `'`.
pub open spec fn escaped(text: Seq<char>) -> Seq<char> {
    replaced(
        replaced(
            replaced(replaced(replaced(text, '&', "&amp;"@), '<', "&lt;"@), '>', "&gt;"@),
            '"',
            "&quot;"@,
        ),
        '\'',
        "&#x27;"@,
    )
}

/// The text as HTML: `escaped` for HTML, unchanged for Markdown.
pub open spec fn inline_text(text: Seq<char>, format: OutputFormat) -> Seq<char> {
    match format {
        OutputFormat::Markdown => text,
        OutputFormat::Html => escaped(text),
    }
}

/// The `class` attribute of a code block in the given language.
pub open spec fn language_class(language: Option<Seq<char>>) -> Seq<char> {
    match language {
        Some(name) => " class=\"language-"@ + name + "\""@,
        None => Seq::empty(),
    }
}

/// A block of code: fenced and tagged with the language in Markdown; in
/// HTML a `pre` with a `code` that carries the language as its class and
/// holds the content escaped.
pub open spec fn code_block_text(
    content: Seq<char>,
    language: Option<Seq<char>>,
    format: OutputFormat,
) -> Seq<char> {
    match format {
        OutputFormat::Markdown => "```"@ + (match language {
            Some(name) => name,
            None => Seq::empty(),
        }) + "\n"@ + content + "\n```\n\n"@,
        OutputFormat::Html => "<pre><code"@ + language_class(language) + ">"@ + escaped(content)
            + "</code></pre>"@,
    }
}

/// Each line between `before` and `after`, one behind the other.
pub open spec fn framed_lines(lines: Seq<Seq<char>>, before: Seq<char>, after: Seq<char>) -> Seq<
    char,
>
    decreases lines.len(),
{
    if lines.len() == 0 {
        Seq::empty()
    } else {
        framed_lines(lines.drop_last(), before, after) + (before + lines.last() + after)
    }
}

/// The lines of the text as the format shows them inside a diff.
pub open spec fn diff_lines(text: Seq<char>, format: OutputFormat) -> Seq<Seq<char>> {
    split_lines(text).map_values(|line: Seq<char>| inline_text(line, format))
}

/// A diff: the lines of the old text, each marked as removed, then the
/// lines of the new text, each marked as added.
pub open spec fn diff_block_text(old_content: Seq<char>, new_content: Seq<char>, format: OutputFormat) -> Seq<
    char,
> {
    match format {
        OutputFormat::Markdown => "```diff\n"@ + framed_lines(
            diff_lines(old_content, format),
            "- "@,
            "\n"@,
        ) + framed_lines(diff_lines(new_content, format), "+ "@, "\n"@) + "```\n\n"@,
        OutputFormat::Html => "<div class=\"diff\">"@ + framed_lines(
            diff_lines(old_content, format),
            "<div class=\"diff-removed\">- "@,
            "</div>"@,
        ) + framed_lines(
            diff_lines(new_content, format),
            "<div class=\"diff-added\">+ "@,
            "</div>"@,
        ) + "</div>"@,
    }
}

/// A quotation: in Markdown every line behind `> `; in HTML a `blockquote`
/// that holds the content escaped.
pub open spec fn blockquote_text(content: Seq<char>, format: OutputFormat) -> Seq<char> {
    match format {
        OutputFormat::Markdown => "> "@ + replaced(content, '\n', "\n> "@) + "\n\n"@,
        OutputFormat::Html => "<blockquote>"@ + escaped(content) + "</blockquote>"@,
    }
}

/// The text between `open` and `close`, escaped for HTML.
pub open spec fn wrapped(open: Seq<char>, text: Seq<char>, close: Seq<char>, format: OutputFormat) -> Seq<
    char,
> {
    open + inline_text(text, format) + close
}

/// Bold text.
pub open spec fn bold_text(text: Seq<char>, format: OutputFormat) -> Seq<char> {
    match format {
        OutputFormat::Markdown => wrapped("**"@, text, "**"@, format),
        OutputFormat::Html => wrapped("<strong>"@, text, "</strong>"@, format),
    }
}

/// Italic text.
pub open spec fn italic_text(text: Seq<char>, format: OutputFormat) -> Seq<char> {
    match format {
        OutputFormat::Markdown => wrapped("*"@, text, "*"@, format),
        OutputFormat::Html => wrapped("<em>"@, text, "</em>"@, format),
    }
}

/// Code inside a line of text.
pub open spec fn inline_code_text(text: Seq<char>, format: OutputFormat) -> Seq<char> {
    match format {
        OutputFormat::Markdown => wrapped("`"@, text, "`"@, format),
        OutputFormat::Html => wrapped("<code>"@, text, "</code>"@, format),
    }
}

/// The text with the five characters that HTML reserves replaced by their
/// entities.
pub fn html_escape(text: &str) -> (out: String)
    ensures
        out@ == escaped(text@),
{
    let ampersands = replace_char(text, '&', "&amp;");
    let less = replace_char(ampersands.as_str(), '<', "&lt;");
    let greater = replace_char(less.as_str(), '>', "&gt;");
    let quotes = replace_char(greater.as_str(), '"', "&quot;");
    replace_char(quotes.as_str(), '\'', "&#x27;")
}

/// The text between `open` and `close`, escaped for HTML.
fn wrap(open: &str, text: &str, close: &str, format: OutputFormat) -> (out: String)
    ensures
        out@ == wrapped(open@, text@, close@, format),
{
    let mut out = String::from_str(open);
    match format {
        OutputFormat::Markdown => out.append(text),
        OutputFormat::Html => {
            let safe = html_escape(text);
            out.append(safe.as_str());
        },
    }
    out.append(close);
    out
}

/// A block of code in the given language.
pub fn code_block(content: &str, language: Option<&str>, format: OutputFormat) -> (out: String)
    ensures
        out@ == code_block_text(content@, text_of(language), format),
{
    match format {
        OutputFormat::Markdown => {
            let mut out = String::from_str("```");
            match language {
                Some(name) => out.append(name),
                None => {
                    proof {
                        assert(out@ + Seq::<char>::empty() =~= out@);
                    }
                },
            }
            out.append("\n");
            out.append(content);
            out.append("\n```\n\n");
            out
        },
        OutputFormat::Html => {
            let class = match language {
                Some(name) => {
                    let mut class = String::from_str(" class=\"language-");
                    class.append(name);
                    class.append("\"");
                    class
                },
                None => String::new(),
            };
            let safe = html_escape(content);
            let mut out = String::from_str("<pre><code");
            out.append(class.as_str());
            out.append(">");
            out.append(safe.as_str());
            out.append("</code></pre>");
            out
        },
    }
}

/// Appends each line of the text, between `before` and `after`.
fn append_framed(out: &mut String, text: &str, before: &str, after: &str, format: OutputFormat)
    ensures
        final(out)@ == old(out)@ + framed_lines(diff_lines(text@, format), before@, after@),
{
    let lines = text_lines(text);
    let ghost shown = diff_lines(text@, format);
    let ghost start = out@;
    let mut i: usize = 0;
    proof {
        assert(shown.take(0) =~= Seq::<Seq<char>>::empty());
        assert(start + framed_lines(shown.take(0), before@, after@) =~= start);
    }
    while i < lines.len()
        invariant
            i <= lines.len(),
            texts(lines@) == split_lines(text@),
            shown == diff_lines(text@, format),
            shown.len() == lines.len(),
            out@ == start + framed_lines(shown.take(i as int), before@, after@),
        decreases lines.len() - i,
    {
        let mut piece = String::from_str(before);
        proof {
            assert(texts(lines@)[i as int] == lines@[i as int]@);
            assert(shown[i as int] == inline_text(lines@[i as int]@, format));
        }
        match format {
            OutputFormat::Markdown => piece.append(lines[i].as_str()),
            OutputFormat::Html => {
                let safe = html_escape(lines[i].as_str());
                piece.append(safe.as_str());
            },
        }
        piece.append(after);
        proof {
            assert(shown.take(i + 1).drop_last() =~= shown.take(i as int));
            assert(shown.take(i + 1).last() == shown[i as int]);
            assert((start + framed_lines(shown.take(i as int), before@, after@)) + piece@ =~= start
                + framed_lines(shown.take(i + 1), before@, after@));
        }
        out.append(piece.as_str());
        i = i + 1;
    }
    proof {
        assert(shown.take(lines.len() as int) =~= shown);
    }
}

/// A diff of two texts, line by line: first the old lines, then the new ones.
pub fn diff_block(old_content: &str, new_content: &str, format: OutputFormat) -> (out: String)
    ensures
        out@ == diff_block_text(old_content@, new_content@, format),
{
    match format {
        OutputFormat::Markdown => {
            let mut out = String::from_str("```diff\n");
            append_framed(&mut out, old_content, "- ", "\n", format);
            append_framed(&mut out, new_content, "+ ", "\n", format);
            out.append("```\n\n");
            out
        },
        OutputFormat::Html => {
            let mut out = String::from_str("<div class=\"diff\">");
            append_framed(&mut out, old_content, "<div class=\"diff-removed\">- ", "</div>", format);
            append_framed(&mut out, new_content, "<div class=\"diff-added\">+ ", "</div>", format);
            out.append("</div>");
            out
        },
    }
}

/// A quotation.
pub fn blockquote(content: &str, format: OutputFormat) -> (out: String)
    ensures
        out@ == blockquote_text(content@, format),
{
    match format {
        OutputFormat::Markdown => {
            let quoted = replace_char(content, '\n', "\n> ");
            let mut out = String::from_str("> ");
            out.append(quoted.as_str());
            out.append("\n\n");
            out
        },
        OutputFormat::Html => {
            let safe = html_escape(content);
            let mut out = String::from_str("<blockquote>");
            out.append(safe.as_str());
            out.append("</blockquote>");
            out
        },
    }
}

/// Bold text.
pub fn bold(text: &str, format: OutputFormat) -> (out: String)
    ensures
        out@ == bold_text(text@, format),
{
    match format {
        OutputFormat::Markdown => wrap("**", text, "**", format),
        OutputFormat::Html => wrap("<strong>", text, "</strong>", format),
    }
}

/// Italic text.
pub fn italic(text: &str, format: OutputFormat) -> (out: String)
    ensures
        out@ == italic_text(text@, format),
{
    match format {
        OutputFormat::Markdown => wrap("*", text, "*", format),
        OutputFormat::Html => wrap("<em>", text, "</em>", format),
    }
}

/// Code inside a line of text.
pub fn inline_code(text: &str, format: OutputFormat) -> (out: String)
    ensures
        out@ == inline_code_text(text@, format),
{
    match format {
        OutputFormat::Markdown => wrap("`", text, "`", format),
        OutputFormat::Html => wrap("<code>", text, "</code>", format),
    }
}

/// The heading of a part of a rendering.
pub open spec fn heading_text(label: Seq<char>, format: OutputFormat) -> Seq<char> {
    match format {
        OutputFormat::Markdown => "**"@ + label + ":**\n"@,
        OutputFormat::Html => "<h4>"@ + label + ":</h4>"@,
    }
}

/// The heading of a part of a rendering.
pub fn heading(label: &str, format: OutputFormat) -> (out: String)
    ensures
        out@ == heading_text(label@, format),
{
    match format {
        OutputFormat::Markdown => join3("**", label, ":**\n"),
        OutputFormat::Html => join3("<h4>", label, ":</h4>"),
    }
}

/// How the content of an output is shown.
#[derive(Debug, Clone, Copy, PartialEq, Eq, Structural)]
pub enum Body {
    /// As a block of code without a language.
    Code,
    /// As a block of JSON.
    JsonCode,
    /// As a quotation.
    Quote,
}

/// What is shown for a content that is blank.
#[derive(Debug, Clone, Copy)]
pub enum WhenBlank {
    /// The content, like any other.
    Shown,
    /// Nothing at all, not even the heading.
    Nothing,
    /// The heading and a note in italics.
    Note(&'static str),
}

/// The content of an output in the given form.
pub open spec fn body_text(content: Seq<char>, body: Body, format: OutputFormat) -> Seq<char> {
    match body {
        Body::Code => code_block_text(content, None, format),
        Body::JsonCode => code_block_text(content, Some("json"@), format),
        Body::Quote => blockquote_text(content, format),
    }
}

/// The output of a tool under a heading. The content is the text under
/// `content` of the output. Where the output has none, the whole output is
/// shown as indented JSON if `raw_when_missing`, else nothing is.
pub open spec fn output_text(
    output: Json,
    label: Seq<char>,
    body: Body,
    when_blank: WhenBlank,
    raw_when_missing: bool,
    format: OutputFormat,
) -> Seq<char> {
    match output.text_at("content"@) {
        Some(content) => if blank(content) && !(when_blank is Shown) {
            match when_blank {
                WhenBlank::Note(note) => heading_text(label, format) + italic_text(note@, format)
                    + "\n\n"@,
                _ => Seq::empty(),
            }
        } else {
            heading_text(label, format) + body_text(content, body, format)
        },
        None => if raw_when_missing {
            heading_text(label, format) + code_block_text(
                pretty_text(output),
                Some("json"@),
                format,
            )
        } else {
            Seq::empty()
        },
    }
}

/// The content of an output in the given form.
fn render_body(content: &str, body: Body, format: OutputFormat) -> (out: String)
    ensures
        out@ == body_text(content@, body, format),
{
    match body {
        Body::Code => code_block(content, None, format),
        Body::JsonCode => code_block(content, Some("json"), format),
        Body::Quote => blockquote(content, format),
    }
}

/// The output of a tool under a heading.
pub fn render_output_as(
    output: &Json,
    label: &str,
    body: Body,
    when_blank: WhenBlank,
    raw_when_missing: bool,
    format: OutputFormat,
) -> (out: String)
    ensures
        out@ == output_text(*output, label@, body, when_blank, raw_when_missing, format),
{
    match output.get_str("content") {
        Some(content) => {
            let shown = match when_blank {
                WhenBlank::Shown => true,
                _ => !is_blank(content),
            };
            if shown {
                let mut out = heading(label, format);
                out.append(render_body(content, body, format).as_str());
                out
            } else {
                match when_blank {
                    WhenBlank::Note(note) => {
                        let mut out = heading(label, format);
                        out.append(italic(note, format).as_str());
                        out.append("\n\n");
                        out
                    },
                    _ => String::new(),
                }
            }
        },
        None => {
            if raw_when_missing {
                let pretty = to_pretty(output);
                let mut out = heading(label, format);
                out.append(code_block(pretty.as_str(), Some("json"), format).as_str());
                out
            } else {
                String::new()
            }
        },
    }
}

/// The output of a tool whose output is data: the content as a block of
/// code, a note for a blank content, and the whole output as JSON where it
/// has no content.
pub fn render_data_tool_output(output: &Json, header_text: &str, format: OutputFormat) -> (out:
    String)
    ensures
        out@ == output_text(
            *output,
            header_text@,
            Body::Code,
            WhenBlank::Note("(empty output)"),
            true,
            format,
        ),
{
    render_output_as(output, header_text, Body::Code, WhenBlank::Note("(empty output)"), true, format)
}

} // verus!
