//! The renderers of the tools that are known by name, and the renderer of
//! every other tool.

use crate::json::{pretty_text, to_pretty, Json};
use crate::text::{
    blank, decimal, decimal_text, is_blank, join2, join3, optional_line, push_optional_line,
    replace_char, replaced, str_or, text_of, text_or, to_uppercase, uppercased, wrapped_sum,
};
use crate::tool_renderer::format_utils::{
    blockquote, blockquote_text, bold, bold_text, code_block, code_block_text, diff_block,
    diff_block_text, escaped, heading, heading_text, html_escape, inline_code, inline_code_text,
    italic, italic_text, output_text, render_output_as, Body, WhenBlank,
};
use crate::tool_renderer::{OutputFormat, RenderContext, ToolHandler};
use vstd::prelude::*;
use vstd::string::StringExecFns;

verus! {

/// The text under `key` as inline code, where there is one.
pub open spec fn code_at(input: Json, key: Seq<char>, format: OutputFormat) -> Option<Seq<char>> {
    match input.text_at(key) {
        Some(text) => Some(inline_code_text(text, format)),
        None => None,
    }
}

/// The text under `key` as inline code, where there is one.
fn get_code(input: &Json, key: &str, format: OutputFormat) -> (code: Option<String>)
    ensures
        crate::export::string_text(code) == code_at(*input, key@, format),
{
    match input.get_str(key) {
        Some(text) => Some(inline_code(text, format)),
        None => None,
    }
}

/// The text of an optional string.
fn as_str_of(value: &Option<String>) -> (text: Option<&str>)
    ensures
        text_of(text) == crate::export::string_text(*value),
{
    match value {
        Some(s) => Some(s.as_str()),
        None => None,
    }
}

/// A shell command: the command behind a prompt, with its description as a
/// comment, in a block of shell code.
pub open spec fn bash_input(input: Json, format: OutputFormat) -> Seq<char> {
    code_block_text(
        "$ "@ + text_or(input.text_at("command"@), ""@) + optional_line(
            "\n# "@,
            input.text_at("description"@),
            ""@,
        ),
        Some("bash"@),
        format,
    )
}

fn render_bash(input: &Json, format: OutputFormat) -> (out: String)
    ensures
        out@ == bash_input(*input, format),
{
    let mut content = join2("$ ", str_or(input.get_str("command"), ""));
    push_optional_line(&mut content, "\n# ", input.get_str("description"), "");
    code_block(content.as_str(), Some("bash"), format)
}

/// The lines asked of a read, where it has an offset and a limit.
pub open spec fn read_lines(input: Json, format: OutputFormat) -> Seq<char> {
    match (input.number_at("offset"@), input.number_at("limit"@)) {
        (Some(offset), Some(limit)) => {
            let info = "Lines: "@ + decimal_text(wrapped_sum(offset, 1) as nat) + "-"@
                + decimal_text(wrapped_sum(offset, limit) as nat);
            match format {
                OutputFormat::Markdown => "\n"@ + italic_text(info, format) + "\n\n"@,
                OutputFormat::Html => "<br><small>"@ + italic_text(info, format) + "</small>"@,
            }
        },
        _ => match format {
            OutputFormat::Markdown => "\n\n"@,
            OutputFormat::Html => ""@,
        },
    }
}

/// The file that is read, with the lines asked for.
pub open spec fn read_input(input: Json, format: OutputFormat) -> Seq<char> {
    "\u{1F4C4} "@ + bold_text(text_or(input.text_at("file_path"@), ""@), format) + read_lines(
        input,
        format,
    )
}

fn render_read(input: &Json, format: OutputFormat) -> (out: String)
    ensures
        out@ == read_input(*input, format),
{
    let path = bold(str_or(input.get_str("file_path"), ""), format);
    let mut out = join2("\u{1F4C4} ", path.as_str());
    let lines = match (input.get_u64("offset"), input.get_u64("limit")) {
        (Some(offset), Some(limit)) => {
            let first = decimal(offset.wrapping_add(1));
            let last = decimal(offset.wrapping_add(limit));
            let mut info = join3("Lines: ", first.as_str(), "-");
            info.append(last.as_str());
            let shown = italic(info.as_str(), format);
            match format {
                OutputFormat::Markdown => join3("\n", shown.as_str(), "\n\n"),
                OutputFormat::Html => join3("<br><small>", shown.as_str(), "</small>"),
            }
        },
        _ => match format {
            OutputFormat::Markdown => "\n\n".to_owned(),
            OutputFormat::Html => "".to_owned(),
        },
    };
    out.append(lines.as_str());
    out
}

/// The change of an edit as a diff, where the edit has both texts.
pub open spec fn change(edit: Json, format: OutputFormat) -> Seq<char> {
    match (edit.text_at("old_string"@), edit.text_at("new_string"@)) {
        (Some(old_string), Some(new_string)) => diff_block_text(old_string, new_string, format),
        _ => ""@,
    }
}

fn render_change(edit: &Json, format: OutputFormat) -> (out: String)
    ensures
        out@ == change(*edit, format),
{
    match (edit.get_str("old_string"), edit.get_str("new_string")) {
        (Some(old_string), Some(new_string)) => diff_block(old_string, new_string, format),
        _ => "".to_owned(),
    }
}

/// A line that names a file behind an icon, in bold.
pub open spec fn file_line(
    icon: Seq<char>,
    input: Json,
    key: Seq<char>,
    end: Seq<char>,
    format: OutputFormat,
) -> Seq<char> {
    icon + bold_text(text_or(input.text_at(key), ""@), format) + end
}

fn render_file_line(icon: &str, input: &Json, key: &str, end: &str, format: OutputFormat) -> (out:
    String)
    ensures
        out@ == file_line(icon@, *input, key@, end@, format),
{
    let path = bold(str_or(input.get_str(key), ""), format);
    join3(icon, path.as_str(), end)
}

/// The file that is edited, with the change as a diff.
pub open spec fn edit_input(input: Json, format: OutputFormat) -> Seq<char> {
    file_line("\u{270F}\u{FE0F} "@, input, "file_path"@, "\n\n"@, format) + change(input, format)
}

fn render_edit(input: &Json, format: OutputFormat) -> (out: String)
    ensures
        out@ == edit_input(*input, format),
{
    let mut out = render_file_line("\u{270F}\u{FE0F} ", input, "file_path", "\n\n", format);
    out.append(render_change(input, format).as_str());
    out
}

/// The elements under `key`, or none where there is no array.
pub open spec fn items_or_none(input: Json, key: Seq<char>) -> Seq<Json> {
    match input.items_at(key) {
        Some(items) => items,
        None => Seq::empty(),
    }
}

/// One edit of several: its number in bold, whether it replaces every
/// occurrence, and its change as a diff.
pub open spec fn numbered_edit(edit: Json, number: nat, format: OutputFormat) -> Seq<char> {
    bold_text("Edit "@ + decimal_text(number), format) + (if edit.flag_at("replace_all"@) == Some(
        true,
    ) {
        " (replace all)\n"@
    } else {
        "\n"@
    }) + change(edit, format)
}

/// The edits, numbered from one.
pub open spec fn numbered_edits(edits: Seq<Json>, format: OutputFormat) -> Seq<char>
    decreases edits.len(),
{
    if edits.len() == 0 {
        Seq::empty()
    } else {
        numbered_edits(edits.drop_last(), format) + numbered_edit(
            edits.last(),
            edits.len(),
            format,
        )
    }
}

/// The file that is edited several times, with each edit.
pub open spec fn multiedit_input(input: Json, format: OutputFormat) -> Seq<char> {
    let edits = items_or_none(input, "edits"@);
    ("\u{1F504} Multiple Edits to "@ + bold_text(text_or(input.text_at("file_path"@), ""@), format)
        + " ("@ + decimal_text(edits.len()) + " changes)\n\n"@) + numbered_edits(edits, format)
}

fn render_numbered_edit(edit: &Json, number: u64, format: OutputFormat) -> (out: String)
    ensures
        out@ == numbered_edit(*edit, number as nat, format),
{
    let title = join2("Edit ", decimal(number).as_str());
    let mut out = bold(title.as_str(), format);
    match edit.get_bool("replace_all") {
        Some(true) => out.append(" (replace all)\n"),
        _ => out.append("\n"),
    }
    out.append(render_change(edit, format).as_str());
    out
}

fn render_multiedit(input: &Json, format: OutputFormat) -> (out: String)
    ensures
        out@ == multiedit_input(*input, format),
{
    let path = bold(str_or(input.get_str("file_path"), ""), format);
    let edits = input.get_array("edits");
    let count: usize = match edits {
        Some(items) => items.len(),
        None => 0,
    };
    let mut out = join3("\u{1F504} Multiple Edits to ", path.as_str(), " (");
    out.append(decimal(count as u64).as_str());
    out.append(" changes)\n\n");
    let ghost head = out@;
    let ghost all = items_or_none(*input, "edits"@);
    proof {
        assert(all.take(0) =~= Seq::<Json>::empty());
        assert(head + numbered_edits(all.take(0), format) =~= head);
    }
    match edits {
        Some(items) => {
            let mut i: usize = 0;
            while i < items.len()
                invariant
                    i <= items.len(),
                    all == items@,
                    out@ == head + numbered_edits(all.take(i as int), format),
                decreases items.len() - i,
            {
                let one = render_numbered_edit(&items[i], i as u64 + 1, format);
                proof {
                    assert(all.take(i + 1).drop_last() =~= all.take(i as int));
                    assert(all.take(i + 1).last() == all[i as int]);
                    assert((head + numbered_edits(all.take(i as int), format)) + one@ =~= head
                        + numbered_edits(all.take(i + 1), format));
                }
                out.append(one.as_str());
                i = i + 1;
            }
            proof {
                assert(all.take(items.len() as int) =~= all);
            }
        },
        None => {
            proof {
                assert(all.take(0) =~= all);
            }
        },
    }
    out
}

/// The icon of a todo's status.
pub open spec fn status_icon(status: Seq<char>) -> Seq<char> {
    if status == "completed"@ {
        "\u{2705}"@
    } else if status == "in_progress"@ {
        "\u{1F504}"@
    } else {
        "\u{2B55}"@
    }
}

/// The content of a todo as its status shows it: struck through when
/// completed, bold when in progress.
pub open spec fn status_content(status: Seq<char>, content: Seq<char>, format: OutputFormat) -> Seq<
    char,
> {
    if status == "completed"@ {
        match format {
            OutputFormat::Markdown => "~~"@ + content + "~~"@,
            OutputFormat::Html => "<del>"@ + escaped(content) + "</del>"@,
        }
    } else if status == "in_progress"@ {
        bold_text(content, format)
    } else {
        content
    }
}

/// The icon of a todo's priority.
pub open spec fn priority_icon(priority: Seq<char>) -> Seq<char> {
    if priority == "high"@ {
        "\u{1F7E2}"@
    } else if priority == "medium"@ {
        "\u{1F7E0}"@
    } else if priority == "low"@ {
        "\u{1F534}"@
    } else {
        "\u{26AA}"@
    }
}

/// One todo: a line with its status and content, and a line with its
/// priority and identifier.
pub open spec fn todo(item: Json, format: OutputFormat) -> Seq<char> {
    let status = text_or(item.text_at("status"@), "pending"@);
    let content = text_or(item.text_at("content"@), ""@);
    let priority = text_or(item.text_at("priority"@), "medium"@);
    let id = text_or(item.text_at("id"@), ""@);
    (status_icon(status) + " "@ + status_content(status, content, format) + "\n"@) + (
    priority_icon(priority) + " "@ + priority + " priority \u{2022} ID: "@ + id + "\n\n"@)
}

/// The todos, in order.
pub open spec fn todos(items: Seq<Json>, format: OutputFormat) -> Seq<char>
    decreases items.len(),
{
    if items.len() == 0 {
        Seq::empty()
    } else {
        todos(items.drop_last(), format) + todo(items.last(), format)
    }
}

/// A list of todos with its length.
pub open spec fn todowrite_input(input: Json, format: OutputFormat) -> Seq<char> {
    let items = items_or_none(input, "todos"@);
    ("\u{1F4DD} Todo List ("@ + bold_text(decimal_text(items.len()), format) + " items)\n\n"@)
        + todos(items, format)
}

fn render_todo(item: &Json, format: OutputFormat) -> (out: String)
    ensures
        out@ == todo(*item, format),
{
    let status = str_or(item.get_str("status"), "pending");
    let content = str_or(item.get_str("content"), "");
    let priority = str_or(item.get_str("priority"), "medium");
    let id = str_or(item.get_str("id"), "");
    let (icon, shown) = if crate::text::str_eq(status, "completed") {
        (
            "\u{2705}",
            match format {
                OutputFormat::Markdown => join3("~~", content, "~~"),
                OutputFormat::Html => join3("<del>", html_escape(content).as_str(), "</del>"),
            },
        )
    } else if crate::text::str_eq(status, "in_progress") {
        ("\u{1F504}", bold(content, format))
    } else {
        ("\u{2B55}", String::from_str(content))
    };
    let mark = if crate::text::str_eq(priority, "high") {
        "\u{1F7E2}"
    } else if crate::text::str_eq(priority, "medium") {
        "\u{1F7E0}"
    } else if crate::text::str_eq(priority, "low") {
        "\u{1F534}"
    } else {
        "\u{26AA}"
    };
    let mut first = String::from_str(icon);
    first.append(" ");
    first.append(shown.as_str());
    first.append("\n");
    let mut second = String::from_str(mark);
    second.append(" ");
    second.append(priority);
    second.append(" priority \u{2022} ID: ");
    second.append(id);
    second.append("\n\n");
    first.append(second.as_str());
    first
}

fn render_todowrite(input: &Json, format: OutputFormat) -> (out: String)
    ensures
        out@ == todowrite_input(*input, format),
{
    let items = input.get_array("todos");
    let count: usize = match items {
        Some(list) => list.len(),
        None => 0,
    };
    let shown = bold(decimal(count as u64).as_str(), format);
    let mut out = join3("\u{1F4DD} Todo List (", shown.as_str(), " items)\n\n");
    let ghost head = out@;
    let ghost all = items_or_none(*input, "todos"@);
    proof {
        assert(all.take(0) =~= Seq::<Json>::empty());
        assert(head + todos(all.take(0), format) =~= head);
    }
    match items {
        Some(list) => {
            let mut i: usize = 0;
            while i < list.len()
                invariant
                    i <= list.len(),
                    all == list@,
                    out@ == head + todos(all.take(i as int), format),
                decreases list.len() - i,
            {
                let one = render_todo(&list[i], format);
                proof {
                    assert(all.take(i + 1).drop_last() =~= all.take(i as int));
                    assert(all.take(i + 1).last() == all[i as int]);
                    assert((head + todos(all.take(i as int), format)) + one@ =~= head + todos(
                        all.take(i + 1),
                        format,
                    ));
                }
                out.append(one.as_str());
                i = i + 1;
            }
            proof {
                assert(all.take(list.len() as int) =~= all);
            }
        },
        None => {
            proof {
                assert(all.take(0) =~= all);
            }
        },
    }
    out
}

/// A text under a heading in the given form, where there is a text.
pub open spec fn section(
    label: Seq<char>,
    value: Option<Seq<char>>,
    quoted: bool,
    format: OutputFormat,
) -> Seq<char> {
    match value {
        Some(text) => heading_text(label, format) + (if quoted {
            blockquote_text(text, format)
        } else {
            code_block_text(text, None, format)
        }),
        None => ""@,
    }
}

fn render_section(label: &str, value: Option<&str>, quoted: bool, format: OutputFormat) -> (out:
    String)
    ensures
        out@ == section(label@, text_of(value), quoted, format),
{
    match value {
        Some(text) => {
            let mut out = heading(label, format);
            if quoted {
                out.append(blockquote(text, format).as_str());
            } else {
                out.append(code_block(text, None, format).as_str());
            }
            out
        },
        None => "".to_owned(),
    }
}

/// The file that is written, with its content.
pub open spec fn write_input(input: Json, format: OutputFormat) -> Seq<char> {
    file_line("\u{1F4DD} "@, input, "file_path"@, "\n\n"@, format) + section(
        "Content"@,
        input.text_at("content"@),
        false,
        format,
    )
}

fn render_write(input: &Json, format: OutputFormat) -> (out: String)
    ensures
        out@ == write_input(*input, format),
{
    let mut out = render_file_line("\u{1F4DD} ", input, "file_path", "\n\n", format);
    out.append(render_section("Content", input.get_str("content"), false, format).as_str());
    out
}

/// The pattern of a search as inline code, with the path and the glob that
/// it is limited to.
pub open spec fn grep_input(input: Json, format: OutputFormat) -> Seq<char> {
    optional_line("**Pattern:** "@, code_at(input, "pattern"@, format), "\n"@) + optional_line(
        "**Path:** "@,
        input.text_at("path"@),
        "\n"@,
    ) + optional_line("**Glob:** "@, input.text_at("glob"@), "\n"@) + "\n"@
}

fn render_grep(input: &Json, format: OutputFormat) -> (out: String)
    ensures
        out@ == grep_input(*input, format),
{
    let pattern = get_code(input, "pattern", format);
    let mut out = String::new();
    push_optional_line(&mut out, "**Pattern:** ", as_str_of(&pattern), "\n");
    proof {
        assert(out@ =~= optional_line("**Pattern:** "@, code_at(*input, "pattern"@, format), "\n"@));
    }
    push_optional_line(&mut out, "**Path:** ", input.get_str("path"), "\n");
    push_optional_line(&mut out, "**Glob:** ", input.get_str("glob"), "\n");
    out.append("\n");
    out
}

/// The pattern of a file search as inline code, with the path that it is
/// limited to.
pub open spec fn glob_input(input: Json, format: OutputFormat) -> Seq<char> {
    optional_line("**Pattern:** "@, code_at(input, "pattern"@, format), "\n"@) + optional_line(
        "**Path:** "@,
        input.text_at("path"@),
        "\n"@,
    ) + "\n"@
}

fn render_glob(input: &Json, format: OutputFormat) -> (out: String)
    ensures
        out@ == glob_input(*input, format),
{
    let pattern = get_code(input, "pattern", format);
    let mut out = String::new();
    push_optional_line(&mut out, "**Pattern:** ", as_str_of(&pattern), "\n");
    proof {
        assert(out@ =~= optional_line("**Pattern:** "@, code_at(*input, "pattern"@, format), "\n"@));
    }
    push_optional_line(&mut out, "**Path:** ", input.get_str("path"), "\n");
    out.append("\n");
    out
}

/// Two optional lines and an empty line.
pub open spec fn two_lines(
    first: Seq<char>,
    first_value: Option<Seq<char>>,
    second: Seq<char>,
    second_value: Option<Seq<char>>,
) -> Seq<char> {
    optional_line(first, first_value, "\n"@) + optional_line(second, second_value, "\n"@) + "\n"@
}

fn render_two_lines(first: &str, first_value: Option<&str>, second: &str, second_value: Option<&str>) -> (out:
    String)
    ensures
        out@ == two_lines(first@, text_of(first_value), second@, text_of(second_value)),
{
    let mut out = String::new();
    push_optional_line(&mut out, first, first_value, "\n");
    proof {
        assert(out@ =~= optional_line(first@, text_of(first_value), "\n"@));
    }
    push_optional_line(&mut out, second, second_value, "\n");
    out.append("\n");
    out
}

/// The address that is fetched, with the question asked of it.
pub open spec fn webfetch_input(input: Json) -> Seq<char> {
    two_lines(
        "\u{1F310} **URL:** "@,
        input.text_at("url"@),
        "**Query:** "@,
        input.text_at("prompt"@),
    )
}

/// The texts among the values.
pub open spec fn strings_of(items: Seq<Json>) -> Seq<Seq<char>>
    decreases items.len(),
{
    if items.len() == 0 {
        Seq::empty()
    } else {
        match items.last().text() {
            Some(text) => strings_of(items.drop_last()).push(text),
            None => strings_of(items.drop_last()),
        }
    }
}

/// The texts, with a comma and a space between one and the next.
pub open spec fn comma_separated(texts: Seq<Seq<char>>) -> Seq<char>
    decreases texts.len(),
{
    if texts.len() == 0 {
        Seq::empty()
    } else if texts.len() == 1 {
        texts[0]
    } else {
        comma_separated(texts.drop_last()) + ", "@ + texts.last()
    }
}

/// The domains that a search is limited to, where it names any.
pub open spec fn allowed_domains(input: Json) -> Seq<char> {
    match input.items_at("allowed_domains"@) {
        Some(items) => if strings_of(items).len() > 0 {
            "**Allowed domains:** "@ + comma_separated(strings_of(items)) + "\n"@
        } else {
            ""@
        },
        None => ""@,
    }
}

/// The query of a search as inline code, with the domains that it is
/// limited to.
pub open spec fn websearch_input(input: Json, format: OutputFormat) -> Seq<char> {
    optional_line("\u{1F50D} **Query:** "@, code_at(input, "query"@, format), "\n"@)
        + allowed_domains(input) + "\n"@
}

fn render_allowed_domains(input: &Json) -> (out: String)
    ensures
        out@ == allowed_domains(*input),
{
    match input.get_array("allowed_domains") {
        Some(items) => {
            let mut joined = String::new();
            let mut count: usize = 0;
            let mut i: usize = 0;
            proof {
                assert(items@.take(0) =~= Seq::<Json>::empty());
            }
            while i < items.len()
                invariant
                    i <= items.len(),
                    count == strings_of(items@.take(i as int)).len(),
                    count <= i,
                    joined@ == comma_separated(strings_of(items@.take(i as int))),
                decreases items.len() - i,
            {
                proof {
                    assert(items@.take(i + 1).drop_last() =~= items@.take(i as int));
                    assert(items@.take(i + 1).last() == items@[i as int]);
                }
                match items[i].as_str() {
                    Some(text) => {
                        let ghost before = strings_of(items@.take(i as int));
                        proof {
                            assert(before.push(text@).drop_last() =~= before);
                        }
                        if count > 0 {
                            joined.append(", ");
                        } else {
                            proof {
                                assert(joined@ + text@ =~= text@);
                            }
                        }
                        joined.append(text);
                        count = count + 1;
                    },
                    None => {},
                }
                i = i + 1;
            }
            proof {
                assert(items@.take(items.len() as int) =~= items@);
            }
            if count > 0 {
                join3("**Allowed domains:** ", joined.as_str(), "\n")
            } else {
                "".to_owned()
            }
        },
        None => "".to_owned(),
    }
}

fn render_websearch(input: &Json, format: OutputFormat) -> (out: String)
    ensures
        out@ == websearch_input(*input, format),
{
    let query = get_code(input, "query", format);
    let mut out = String::new();
    push_optional_line(&mut out, "\u{1F50D} **Query:** ", as_str_of(&query), "\n");
    proof {
        assert(out@ =~= optional_line(
            "\u{1F50D} **Query:** "@,
            code_at(*input, "query"@, format),
            "\n"@,
        ));
    }
    out.append(render_allowed_domains(input).as_str());
    out.append("\n");
    out
}

/// A task with its instructions.
pub open spec fn task_input(input: Json, format: OutputFormat) -> Seq<char> {
    optional_line("**Task:** "@, input.text_at("description"@), "\n"@) + section(
        "Instructions"@,
        input.text_at("prompt"@),
        true,
        format,
    )
}

fn render_task(input: &Json, format: OutputFormat) -> (out: String)
    ensures
        out@ == task_input(*input, format),
{
    let mut out = String::new();
    push_optional_line(&mut out, "**Task:** ", input.get_str("description"), "\n");
    proof {
        assert(out@ =~= optional_line("**Task:** "@, input.text_at("description"@), "\n"@));
    }
    out.append(render_section("Instructions", input.get_str("prompt"), true, format).as_str());
    out
}

/// The notebook that is read, with the cell asked for.
pub open spec fn notebookread_input(input: Json, format: OutputFormat) -> Seq<char> {
    file_line("\u{1F4D3} "@, input, "notebook_path"@, "\n"@, format) + optional_line(
        "**Cell ID:** "@,
        input.text_at("cell_id"@),
        "\n"@,
    ) + "\n"@
}

fn render_notebookread(input: &Json, format: OutputFormat) -> (out: String)
    ensures
        out@ == notebookread_input(*input, format),
{
    let mut out = render_file_line("\u{1F4D3} ", input, "notebook_path", "\n", format);
    push_optional_line(&mut out, "**Cell ID:** ", input.get_str("cell_id"), "\n");
    out.append("\n");
    out
}

/// The notebook that is edited, with the kind of the cell and its new
/// content.
pub open spec fn notebookedit_input(input: Json, format: OutputFormat) -> Seq<char> {
    file_line("\u{1F4DD} "@, input, "notebook_path"@, "\n"@, format) + optional_line(
        "**Cell type:** "@,
        input.text_at("cell_type"@),
        "\n"@,
    ) + section("New content"@, input.text_at("new_source"@), false, format)
}

fn render_notebookedit(input: &Json, format: OutputFormat) -> (out: String)
    ensures
        out@ == notebookedit_input(*input, format),
{
    let mut out = render_file_line("\u{1F4DD} ", input, "notebook_path", "\n", format);
    push_optional_line(&mut out, "**Cell type:** ", input.get_str("cell_type"), "\n");
    out.append(render_section("New content", input.get_str("new_source"), false, format).as_str());
    out
}

/// The plan that is left with, or a note that there is none.
pub open spec fn exitplanmode_input(input: Json, format: OutputFormat) -> Seq<char> {
    match input.text_at("plan"@) {
        Some(plan) => section("Plan"@, Some(plan), true, format),
        None => "**Exiting plan mode**\n\n"@,
    }
}

fn render_exitplanmode(input: &Json, format: OutputFormat) -> (out: String)
    ensures
        out@ == exitplanmode_input(*input, format),
{
    match input.get_str("plan") {
        Some(plan) => render_section("Plan", Some(plan), true, format),
        None => "**Exiting plan mode**\n\n".to_owned(),
    }
}

/// One section of a journal entry: nothing unless the value is a text that
/// is not blank; else the name of the member in upper case, with spaces
/// for its underscores, and the text as a quotation.
pub open spec fn journal_section(member: (String, Json), format: OutputFormat) -> Seq<char> {
    match member.1.text() {
        Some(content) => if blank(content) {
            ""@
        } else {
            ("**"@ + uppercased(replaced(member.0@, '_', " "@)) + ":**\n"@) + blockquote_text(
                content,
                format,
            )
        },
        None => ""@,
    }
}

/// The sections of a journal entry, in the order of its members.
pub open spec fn journal_sections(members: Seq<(String, Json)>, format: OutputFormat) -> Seq<char>
    decreases members.len(),
{
    if members.len() == 0 {
        Seq::empty()
    } else {
        journal_sections(members.drop_last(), format) + journal_section(members.last(), format)
    }
}

/// A journal entry with its sections.
pub open spec fn privatejournal_input(input: Json, format: OutputFormat) -> Seq<char> {
    "\u{1F4D4} **Private Journal Entry**\n\n"@ + (match input.members() {
        Some(members) => journal_sections(members, format),
        None => Seq::empty(),
    })
}

fn render_journal_section(member: &(String, Json), format: OutputFormat) -> (out: String)
    ensures
        out@ == journal_section(*member, format),
{
    match member.1.as_str() {
        Some(content) => {
            if is_blank(content) {
                "".to_owned()
            } else {
                let spaced = replace_char(member.0.as_str(), '_', " ");
                let name = to_uppercase(spaced.as_str());
                let mut out = join3("**", name.as_str(), ":**\n");
                out.append(blockquote(content, format).as_str());
                out
            }
        },
        None => "".to_owned(),
    }
}

fn render_privatejournal(input: &Json, format: OutputFormat) -> (out: String)
    ensures
        out@ == privatejournal_input(*input, format),
{
    let mut out = String::from_str("\u{1F4D4} **Private Journal Entry**\n\n");
    let ghost head = out@;
    match input.as_object() {
        Some(members) => {
            let mut i: usize = 0;
            proof {
                assert(members@.take(0) =~= Seq::<(String, Json)>::empty());
                assert(head + journal_sections(members@.take(0), format) =~= head);
            }
            while i < members.len()
                invariant
                    i <= members.len(),
                    out@ == head + journal_sections(members@.take(i as int), format),
                decreases members.len() - i,
            {
                let one = render_journal_section(&members[i], format);
                proof {
                    assert(members@.take(i + 1).drop_last() =~= members@.take(i as int));
                    assert(members@.take(i + 1).last() == members@[i as int]);
                    assert((head + journal_sections(members@.take(i as int), format)) + one@
                        =~= head + journal_sections(members@.take(i + 1), format));
                }
                out.append(one.as_str());
                i = i + 1;
            }
            proof {
                assert(members@.take(members.len() as int) =~= members@);
            }
        },
        None => {
            proof {
                assert(head + Seq::<char>::empty() =~= head);
            }
        },
    }
    out
}

/// A login, with the platform logged in to.
pub open spec fn socialmedialogin_input(input: Json) -> Seq<char> {
    "\u{1F510} **Social Media Login**\n"@ + optional_line(
        "**Platform:** "@,
        input.text_at("platform"@),
        "\n"@,
    ) + "\n"@
}

fn render_socialmedialogin(input: &Json) -> (out: String)
    ensures
        out@ == socialmedialogin_input(*input),
{
    let mut out = String::from_str("\u{1F510} **Social Media Login**\n");
    push_optional_line(&mut out, "**Platform:** ", input.get_str("platform"), "\n");
    out.append("\n");
    out
}

/// A post, with its content and the platform posted to.
pub open spec fn socialmediacreatepost_input(input: Json, format: OutputFormat) -> Seq<char> {
    "\u{1F4F1} **Creating Social Media Post**\n"@ + section(
        "Content"@,
        input.text_at("content"@),
        true,
        format,
    ) + optional_line("**Platform:** "@, input.text_at("platform"@), "\n\n"@)
}

fn render_socialmediacreatepost(input: &Json, format: OutputFormat) -> (out: String)
    ensures
        out@ == socialmediacreatepost_input(*input, format),
{
    let mut out = String::from_str("\u{1F4F1} **Creating Social Media Post**\n");
    out.append(render_section("Content", input.get_str("content"), true, format).as_str());
    push_optional_line(&mut out, "**Platform:** ", input.get_str("platform"), "\n\n");
    out
}

/// A title, then up to three lines, the one named by `code_key` as inline
/// code, then an empty line.
pub open spec fn titled_lines(
    title: Seq<char>,
    first: (Seq<char>, Option<Seq<char>>),
    second: (Seq<char>, Option<Seq<char>>),
    third: (Seq<char>, Option<Seq<char>>),
) -> Seq<char> {
    title + optional_line(first.0, first.1, "\n"@) + optional_line(second.0, second.1, "\n"@)
        + optional_line(third.0, third.1, "\n"@) + "\n"@
}

fn render_titled_lines(
    title: &str,
    first: (&str, Option<&str>),
    second: (&str, Option<&str>),
    third: (&str, Option<&str>),
) -> (out: String)
    ensures
        out@ == titled_lines(
            title@,
            (first.0@, text_of(first.1)),
            (second.0@, text_of(second.1)),
            (third.0@, text_of(third.1)),
        ),
{
    let mut out = String::from_str(title);
    push_optional_line(&mut out, first.0, first.1, "\n");
    push_optional_line(&mut out, second.0, second.1, "\n");
    push_optional_line(&mut out, third.0, third.1, "\n");
    out.append("\n");
    out
}

/// A text that is spoken, with the voice and the emotion.
pub open spec fn vocalize_input(input: Json, format: OutputFormat) -> Seq<char> {
    titled_lines(
        "\u{1F50A} **Text-to-Speech**\n"@,
        ("**Text:** "@, code_at(input, "text"@, format)),
        ("**Voice:** "@, input.text_at("voice"@)),
        ("**Emotion:** "@, input.text_at("emotion"@)),
    )
}

fn render_vocalize(input: &Json, format: OutputFormat) -> (out: String)
    ensures
        out@ == vocalize_input(*input, format),
{
    let text = get_code(input, "text", format);
    render_titled_lines(
        "\u{1F50A} **Text-to-Speech**\n",
        ("**Text:** ", as_str_of(&text)),
        ("**Voice:** ", input.get_str("voice")),
        ("**Emotion:** ", input.get_str("emotion")),
    )
}

/// A step of browser automation: the address, the selector and the action.
pub open spec fn playwright_input(input: Json, format: OutputFormat) -> Seq<char> {
    titled_lines(
        "\u{1F3AD} **Playwright Automation**\n"@,
        ("**URL:** "@, input.text_at("url"@)),
        ("**Selector:** "@, code_at(input, "selector"@, format)),
        ("**Action:** "@, input.text_at("action"@)),
    )
}

fn render_playwright(input: &Json, format: OutputFormat) -> (out: String)
    ensures
        out@ == playwright_input(*input, format),
{
    let selector = get_code(input, "selector", format);
    render_titled_lines(
        "\u{1F3AD} **Playwright Automation**\n",
        ("**URL:** ", input.get_str("url")),
        ("**Selector:** ", as_str_of(&selector)),
        ("**Action:** ", input.get_str("action")),
    )
}

/// The input of a tool that is not known by name: as a block of indented
/// JSON.
pub open spec fn default_input(input: Json, format: OutputFormat) -> Seq<char> {
    code_block_text(pretty_text(input), Some("json"@), format)
}

fn render_default(input: &Json, format: OutputFormat) -> (out: String)
    ensures
        out@ == default_input(*input, format),
{
    code_block(to_pretty(input).as_str(), Some("json"), format)
}

/// The renderers that come with the library: one for each tool known by
/// name, and `Default` for every other tool.
#[derive(Debug, Clone, Copy, PartialEq, Eq, Structural)]
pub enum BuiltinHandler {
    Bash,
    Read,
    Edit,
    MultiEdit,
    Write,
    TodoWrite,
    LS,
    Grep,
    Glob,
    WebFetch,
    WebSearch,
    Task,
    NotebookRead,
    NotebookEdit,
    ExitPlanMode,
    PrivateJournal,
    SocialMediaLogin,
    SocialMediaCreatePost,
    Vocalize,
    Playwright,
    Default,
}

/// The output of a tool whose output is data, under a heading.
pub open spec fn data_output(output: Json, label: Seq<char>, format: OutputFormat) -> Seq<char> {
    output_text(output, label, Body::Code, WhenBlank::Note("(empty output)"), true, format)
}

/// The output of a tool that reports in prose, under a heading and with a
/// note for a blank report.
pub open spec fn report_output(
    output: Json,
    label: Seq<char>,
    note: &'static str,
    format: OutputFormat,
) -> Seq<char> {
    output_text(output, label, Body::Quote, WhenBlank::Note(note), true, format)
}

impl ToolHandler for BuiltinHandler {
    open spec fn icon(&self) -> Seq<char> {
        match self {
            BuiltinHandler::Bash => "\u{1F4BB}"@,
            BuiltinHandler::Read => "\u{1F4D6}"@,
            BuiltinHandler::Edit => "\u{270F}\u{FE0F}"@,
            BuiltinHandler::MultiEdit => "\u{1F504}"@,
            BuiltinHandler::Write => "\u{1F4DD}"@,
            BuiltinHandler::TodoWrite => "\u{1F4DD}"@,
            BuiltinHandler::LS => "\u{1F4C2}"@,
            BuiltinHandler::Grep => "\u{1F50D}"@,
            BuiltinHandler::Glob => "\u{1F310}"@,
            BuiltinHandler::WebFetch => "\u{1F310}"@,
            BuiltinHandler::WebSearch => "\u{1F50D}"@,
            BuiltinHandler::Task => "\u{1F3AF}"@,
            BuiltinHandler::NotebookRead => "\u{1F4D3}"@,
            BuiltinHandler::NotebookEdit => "\u{1F4DD}"@,
            BuiltinHandler::ExitPlanMode => "\u{1F3AF}"@,
            BuiltinHandler::PrivateJournal => "\u{1F4D4}"@,
            BuiltinHandler::SocialMediaLogin => "\u{1F510}"@,
            BuiltinHandler::SocialMediaCreatePost => "\u{1F4F1}"@,
            BuiltinHandler::Vocalize => "\u{1F50A}"@,
            BuiltinHandler::Playwright => "\u{1F3AD}"@,
            BuiltinHandler::Default => "\u{1F527}"@,
        }
    }

    open spec fn input_text(&self, input: Json, format: OutputFormat, context: RenderContext) -> Seq<
        char,
    > {
        match self {
            BuiltinHandler::Bash => bash_input(input, format),
            BuiltinHandler::Read => read_input(input, format),
            BuiltinHandler::Edit => edit_input(input, format),
            BuiltinHandler::MultiEdit => multiedit_input(input, format),
            BuiltinHandler::Write => write_input(input, format),
            BuiltinHandler::TodoWrite => todowrite_input(input, format),
            BuiltinHandler::LS => file_line("\u{1F4C2} "@, input, "path"@, "\n\n"@, format),
            BuiltinHandler::Grep => grep_input(input, format),
            BuiltinHandler::Glob => glob_input(input, format),
            BuiltinHandler::WebFetch => webfetch_input(input),
            BuiltinHandler::WebSearch => websearch_input(input, format),
            BuiltinHandler::Task => task_input(input, format),
            BuiltinHandler::NotebookRead => notebookread_input(input, format),
            BuiltinHandler::NotebookEdit => notebookedit_input(input, format),
            BuiltinHandler::ExitPlanMode => exitplanmode_input(input, format),
            BuiltinHandler::PrivateJournal => privatejournal_input(input, format),
            BuiltinHandler::SocialMediaLogin => socialmedialogin_input(input),
            BuiltinHandler::SocialMediaCreatePost => socialmediacreatepost_input(input, format),
            BuiltinHandler::Vocalize => vocalize_input(input, format),
            BuiltinHandler::Playwright => playwright_input(input, format),
            BuiltinHandler::Default => default_input(input, format),
        }
    }

    open spec fn output_text(
        &self,
        output: Json,
        input: Json,
        format: OutputFormat,
        context: RenderContext,
    ) -> Seq<char> {
        match self {
            BuiltinHandler::Bash => data_output(output, "Output"@, format),
            BuiltinHandler::Read => data_output(output, "Content"@, format),
            BuiltinHandler::Edit => output_text(
                output,
                "Result"@,
                Body::Code,
                WhenBlank::Nothing,
                false,
                format,
            ),
            BuiltinHandler::MultiEdit => output_text(
                output,
                "Result"@,
                Body::Code,
                WhenBlank::Nothing,
                false,
                format,
            ),
            BuiltinHandler::Write => output_text(
                output,
                "Result"@,
                Body::Code,
                WhenBlank::Nothing,
                false,
                format,
            ),
            BuiltinHandler::TodoWrite => output_text(
                output,
                "Todo updated"@,
                Body::Quote,
                WhenBlank::Shown,
                false,
                format,
            ),
            BuiltinHandler::LS => data_output(output, "Directory listing"@, format),
            BuiltinHandler::Grep => data_output(output, "Matches"@, format),
            BuiltinHandler::Glob => data_output(output, "Found files"@, format),
            BuiltinHandler::WebFetch => report_output(
                output,
                "Fetched content"@,
                "(empty content)",
                format,
            ),
            BuiltinHandler::WebSearch => report_output(
                output,
                "Search results"@,
                "(empty results)",
                format,
            ),
            BuiltinHandler::Task => report_output(
                output,
                "Task completion"@,
                "(task completed with no output)",
                format,
            ),
            BuiltinHandler::NotebookRead => output_text(
                output,
                "Notebook content"@,
                Body::JsonCode,
                WhenBlank::Note("(empty notebook content)"),
                true,
                format,
            ),
            BuiltinHandler::NotebookEdit => output_text(
                output,
                "Result"@,
                Body::Code,
                WhenBlank::Shown,
                false,
                format,
            ),
            BuiltinHandler::ExitPlanMode => output_text(
                output,
                "Result"@,
                Body::Quote,
                WhenBlank::Shown,
                false,
                format,
            ),
            BuiltinHandler::PrivateJournal => output_text(
                output,
                "Journal saved"@,
                Body::Quote,
                WhenBlank::Shown,
                false,
                format,
            ),
            BuiltinHandler::SocialMediaLogin => output_text(
                output,
                "Login result"@,
                Body::Code,
                WhenBlank::Shown,
                false,
                format,
            ),
            BuiltinHandler::SocialMediaCreatePost => output_text(
                output,
                "Post result"@,
                Body::Code,
                WhenBlank::Shown,
                false,
                format,
            ),
            BuiltinHandler::Vocalize => output_text(
                output,
                "Speech result"@,
                Body::Quote,
                WhenBlank::Shown,
                false,
                format,
            ),
            BuiltinHandler::Playwright => output_text(
                output,
                "Playwright result"@,
                Body::Code,
                WhenBlank::Shown,
                false,
                format,
            ),
            BuiltinHandler::Default => data_output(output, "Output"@, format),
        }
    }

    open spec fn metadata(&self, input: Json, output: Option<Json>) -> Seq<
        (Seq<char>, Seq<char>),
    > {
        match self {
            BuiltinHandler::Default => seq![("type"@, "unknown"@)],
            _ => Seq::empty(),
        }
    }

    fn get_icon(&self) -> (icon: &'static str) {
        match self {
            BuiltinHandler::Bash => "\u{1F4BB}",
            BuiltinHandler::Read => "\u{1F4D6}",
            BuiltinHandler::Edit => "\u{270F}\u{FE0F}",
            BuiltinHandler::MultiEdit => "\u{1F504}",
            BuiltinHandler::Write => "\u{1F4DD}",
            BuiltinHandler::TodoWrite => "\u{1F4DD}",
            BuiltinHandler::LS => "\u{1F4C2}",
            BuiltinHandler::Grep => "\u{1F50D}",
            BuiltinHandler::Glob => "\u{1F310}",
            BuiltinHandler::WebFetch => "\u{1F310}",
            BuiltinHandler::WebSearch => "\u{1F50D}",
            BuiltinHandler::Task => "\u{1F3AF}",
            BuiltinHandler::NotebookRead => "\u{1F4D3}",
            BuiltinHandler::NotebookEdit => "\u{1F4DD}",
            BuiltinHandler::ExitPlanMode => "\u{1F3AF}",
            BuiltinHandler::PrivateJournal => "\u{1F4D4}",
            BuiltinHandler::SocialMediaLogin => "\u{1F510}",
            BuiltinHandler::SocialMediaCreatePost => "\u{1F4F1}",
            BuiltinHandler::Vocalize => "\u{1F50A}",
            BuiltinHandler::Playwright => "\u{1F3AD}",
            BuiltinHandler::Default => "\u{1F527}",
        }
    }

    fn render_input(&self, input: &Json, format: OutputFormat, context: &RenderContext) -> (out:
        String) {
        match self {
            BuiltinHandler::Bash => render_bash(input, format),
            BuiltinHandler::Read => render_read(input, format),
            BuiltinHandler::Edit => render_edit(input, format),
            BuiltinHandler::MultiEdit => render_multiedit(input, format),
            BuiltinHandler::Write => render_write(input, format),
            BuiltinHandler::TodoWrite => render_todowrite(input, format),
            BuiltinHandler::LS => render_file_line("\u{1F4C2} ", input, "path", "\n\n", format),
            BuiltinHandler::Grep => render_grep(input, format),
            BuiltinHandler::Glob => render_glob(input, format),
            BuiltinHandler::WebFetch => render_two_lines(
                "\u{1F310} **URL:** ",
                input.get_str("url"),
                "**Query:** ",
                input.get_str("prompt"),
            ),
            BuiltinHandler::WebSearch => render_websearch(input, format),
            BuiltinHandler::Task => render_task(input, format),
            BuiltinHandler::NotebookRead => render_notebookread(input, format),
            BuiltinHandler::NotebookEdit => render_notebookedit(input, format),
            BuiltinHandler::ExitPlanMode => render_exitplanmode(input, format),
            BuiltinHandler::PrivateJournal => render_privatejournal(input, format),
            BuiltinHandler::SocialMediaLogin => render_socialmedialogin(input),
            BuiltinHandler::SocialMediaCreatePost => render_socialmediacreatepost(input, format),
            BuiltinHandler::Vocalize => render_vocalize(input, format),
            BuiltinHandler::Playwright => render_playwright(input, format),
            BuiltinHandler::Default => render_default(input, format),
        }
    }

    fn render_output(
        &self,
        output: &Json,
        input: &Json,
        format: OutputFormat,
        context: &RenderContext,
    ) -> (out: String) {
        let note = WhenBlank::Note("(empty output)");
        match self {
            BuiltinHandler::Bash => render_output_as(output, "Output", Body::Code, note, true, format),
            BuiltinHandler::Read => render_output_as(
                output,
                "Content",
                Body::Code,
                note,
                true,
                format,
            ),
            BuiltinHandler::Edit => render_output_as(
                output,
                "Result",
                Body::Code,
                WhenBlank::Nothing,
                false,
                format,
            ),
            BuiltinHandler::MultiEdit => render_output_as(
                output,
                "Result",
                Body::Code,
                WhenBlank::Nothing,
                false,
                format,
            ),
            BuiltinHandler::Write => render_output_as(
                output,
                "Result",
                Body::Code,
                WhenBlank::Nothing,
                false,
                format,
            ),
            BuiltinHandler::TodoWrite => render_output_as(
                output,
                "Todo updated",
                Body::Quote,
                WhenBlank::Shown,
                false,
                format,
            ),
            BuiltinHandler::LS => render_output_as(
                output,
                "Directory listing",
                Body::Code,
                note,
                true,
                format,
            ),
            BuiltinHandler::Grep => render_output_as(
                output,
                "Matches",
                Body::Code,
                note,
                true,
                format,
            ),
            BuiltinHandler::Glob => render_output_as(
                output,
                "Found files",
                Body::Code,
                note,
                true,
                format,
            ),
            BuiltinHandler::WebFetch => render_output_as(
                output,
                "Fetched content",
                Body::Quote,
                WhenBlank::Note("(empty content)"),
                true,
                format,
            ),
            BuiltinHandler::WebSearch => render_output_as(
                output,
                "Search results",
                Body::Quote,
                WhenBlank::Note("(empty results)"),
                true,
                format,
            ),
            BuiltinHandler::Task => render_output_as(
                output,
                "Task completion",
                Body::Quote,
                WhenBlank::Note("(task completed with no output)"),
                true,
                format,
            ),
            BuiltinHandler::NotebookRead => render_output_as(
                output,
                "Notebook content",
                Body::JsonCode,
                WhenBlank::Note("(empty notebook content)"),
                true,
                format,
            ),
            BuiltinHandler::NotebookEdit => render_output_as(
                output,
                "Result",
                Body::Code,
                WhenBlank::Shown,
                false,
                format,
            ),
            BuiltinHandler::ExitPlanMode => render_output_as(
                output,
                "Result",
                Body::Quote,
                WhenBlank::Shown,
                false,
                format,
            ),
            BuiltinHandler::PrivateJournal => render_output_as(
                output,
                "Journal saved",
                Body::Quote,
                WhenBlank::Shown,
                false,
                format,
            ),
            BuiltinHandler::SocialMediaLogin => render_output_as(
                output,
                "Login result",
                Body::Code,
                WhenBlank::Shown,
                false,
                format,
            ),
            BuiltinHandler::SocialMediaCreatePost => render_output_as(
                output,
                "Post result",
                Body::Code,
                WhenBlank::Shown,
                false,
                format,
            ),
            BuiltinHandler::Vocalize => render_output_as(
                output,
                "Speech result",
                Body::Quote,
                WhenBlank::Shown,
                false,
                format,
            ),
            BuiltinHandler::Playwright => render_output_as(
                output,
                "Playwright result",
                Body::Code,
                WhenBlank::Shown,
                false,
                format,
            ),
            BuiltinHandler::Default => render_output_as(
                output,
                "Output",
                Body::Code,
                note,
                true,
                format,
            ),
        }
    }

    fn get_metadata(&self, input: &Json, output: Option<&Json>) -> (pairs: Vec<(String, String)>) {
        let mut pairs: Vec<(String, String)> = Vec::new();
        match self {
            BuiltinHandler::Default => {
                pairs.push(("type".to_owned(), "unknown".to_owned()));
            },
            _ => {},
        }
        proof {
            assert(crate::tool_renderer::pair_texts(pairs@) =~= self.metadata(
                *input,
                crate::tool_renderer::copied(output),
            ));
        }
        pairs
    }
}

} // verus!
