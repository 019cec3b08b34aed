//! A session as a Markdown document: its entries in order, tool calls with
//! their inputs and results.

use crate::events::{format_instant, formatted_instant, LogEntry, Timestamp};
use crate::json::{pretty_text, to_pretty, Json};
use crate::text::str_eq;
use crate::text::{
    for_product, product_text,
    optional_line, push_optional_line, str_or, text_of, text_or, wrapped_sum,
    blank, decimal, decimal_text, is_blank, join3, join5, split_lines, text_lines, texts,
};
use crate::tool_renderer::format_utils::{diff_block, diff_block_text};
use crate::tool_renderer::OutputFormat;
use vstd::prelude::*;
use vstd::string::StringExecFns;

verus! {

/// The icon shown for a tool.
pub open spec fn tool_icon(tool_name: Seq<char>) -> Seq<char> {
    if tool_name == "Bash"@ {
        "\u{1F4BB}"@
    } else if tool_name == "Read"@ {
        "\u{1F4D6}"@
    } else if tool_name == "Edit"@ {
        "\u{270F}\u{FE0F}"@
    } else if tool_name == "MultiEdit"@ {
        "\u{1F504}"@
    } else if tool_name == "Write"@ {
        "\u{1F4DD}"@
    } else if tool_name == "TodoWrite"@ {
        "\u{1F4DD}"@
    } else if tool_name == "LS"@ {
        "\u{1F4C2}"@
    } else if tool_name == "Grep"@ {
        "\u{1F50D}"@
    } else if tool_name == "Glob"@ {
        "\u{1F310}"@
    } else if tool_name == "WebFetch"@ {
        "\u{1F310}"@
    } else if tool_name == "Task"@ {
        "\u{1F3AF}"@
    } else {
        "\u{1F527}"@
    }
}

/// The icon shown for a tool; a wrench for a tool without one of its own.
pub fn get_tool_icon(tool_name: &str) -> (icon: &'static str)
    ensures
        icon@ == tool_icon(tool_name@),
{
    if str_eq(tool_name, "Bash") {
        "\u{1F4BB}"
    } else if str_eq(tool_name, "Read") {
        "\u{1F4D6}"
    } else if str_eq(tool_name, "Edit") {
        "\u{270F}\u{FE0F}"
    } else if str_eq(tool_name, "MultiEdit") {
        "\u{1F504}"
    } else if str_eq(tool_name, "Write") {
        "\u{1F4DD}"
    } else if str_eq(tool_name, "TodoWrite") {
        "\u{1F4DD}"
    } else if str_eq(tool_name, "LS") {
        "\u{1F4C2}"
    } else if str_eq(tool_name, "Grep") {
        "\u{1F50D}"
    } else if str_eq(tool_name, "Glob") {
        "\u{1F310}"
    } else if str_eq(tool_name, "WebFetch") {
        "\u{1F310}"
    } else if str_eq(tool_name, "Task") {
        "\u{1F3AF}"
    } else {
        "\u{1F527}"
    }
}

/// A result under a heading, inside a code fence.
pub open spec fn fenced_result(heading: Seq<char>, content: Seq<char>) -> Seq<char> {
    heading + content + "\n```\n\n"@
}

/// Appends a result under a heading, inside a code fence.
fn push_fenced(markdown: &mut String, heading: &str, content: &str)
    ensures
        final(markdown)@ == old(markdown)@ + fenced_result(heading@, content@),
{
    let piece = join3(heading, content, "\n```\n\n");
    markdown.append(piece.as_str());
}

/// Appends the output of a shell command.
pub fn render_bash_result(markdown: &mut String, content: &str)
    ensures
        final(markdown)@ == old(markdown)@ + fenced_result("**Output:**\n```\n"@, content@),
{
    push_fenced(markdown, "**Output:**\n```\n", content);
}

/// Appends the content of a file that was read.
pub fn render_read_result(markdown: &mut String, _input: &Json, content: &str)
    ensures
        final(markdown)@ == old(markdown)@ + fenced_result("**Content:**\n```\n"@, content@),
{
    push_fenced(markdown, "**Content:**\n```\n", content);
}

/// What an edit reported: nothing where the report is blank.
pub open spec fn edit_result_text(content: Seq<char>) -> Seq<char> {
    if blank(content) {
        Seq::empty()
    } else {
        fenced_result("**Result:**\n```\n"@, content)
    }
}

/// Appends what an edit reported, unless the report is blank.
pub fn render_edit_result(markdown: &mut String, content: &str)
    ensures
        final(markdown)@ == old(markdown)@ + edit_result_text(content@),
{
    if !is_blank(content) {
        push_fenced(markdown, "**Result:**\n```\n", content);
    } else {
        proof {
            assert(markdown@ + Seq::<char>::empty() =~= markdown@);
        }
    }
}

/// Appends a directory listing.
pub fn render_ls_result(markdown: &mut String, content: &str)
    ensures
        final(markdown)@ == old(markdown)@ + fenced_result(
            "**Directory listing:**\n```\n"@,
            content@,
        ),
{
    push_fenced(markdown, "**Directory listing:**\n```\n", content);
}

/// Appends the matches of a search.
pub fn render_grep_result(markdown: &mut String, content: &str)
    ensures
        final(markdown)@ == old(markdown)@ + fenced_result("**Matches:**\n```\n"@, content@),
{
    push_fenced(markdown, "**Matches:**\n```\n", content);
}

/// Appends the result of a tool that has no rendering of its own.
pub fn render_generic_result(markdown: &mut String, content: &str)
    ensures
        final(markdown)@ == old(markdown)@ + fenced_result("**Result:**\n```\n"@, content@),
{
    push_fenced(markdown, "**Result:**\n```\n", content);
}

/// The result of a tool: rendered by the tool's name where the result has a
/// text under `content`, nothing otherwise.
pub open spec fn tool_result_text(tool_name: Seq<char>, result: Json) -> Seq<char> {
    match result.text_at("content"@) {
        Some(content) => if tool_name == "Bash"@ {
            fenced_result("**Output:**\n```\n"@, content)
        } else if tool_name == "Read"@ {
            fenced_result("**Content:**\n```\n"@, content)
        } else if tool_name == "Edit"@ {
            edit_result_text(content)
        } else if tool_name == "LS"@ {
            fenced_result("**Directory listing:**\n```\n"@, content)
        } else if tool_name == "Grep"@ {
            fenced_result("**Matches:**\n```\n"@, content)
        } else {
            fenced_result("**Result:**\n```\n"@, content)
        },
        None => Seq::empty(),
    }
}

/// Appends the result of a tool, rendered by the tool's name.
pub fn render_tool_result(markdown: &mut String, tool_name: &str, input: &Json, result: &Json)
    ensures
        final(markdown)@ == old(markdown)@ + tool_result_text(tool_name@, *result),
{
    match result.get_str("content") {
        Some(content) => {
            if str_eq(tool_name, "Bash") {
                render_bash_result(markdown, content);
            } else if str_eq(tool_name, "Read") {
                render_read_result(markdown, input, content);
            } else if str_eq(tool_name, "Edit") {
                render_edit_result(markdown, content);
            } else if str_eq(tool_name, "LS") {
                render_ls_result(markdown, content);
            } else if str_eq(tool_name, "Grep") {
                render_grep_result(markdown, content);
            } else {
                render_generic_result(markdown, content);
            }
        },
        None => {
            proof {
                assert(markdown@ + Seq::<char>::empty() =~= markdown@);
            }
        },
    }
}

/// A shell command with its description.
pub open spec fn bash_input_text(input: Json) -> Seq<char> {
    match input.text_at("command"@) {
        Some(command) => "```bash\n"@ + ("$ "@ + command + "\n"@) + optional_line(
            "# "@,
            input.text_at("description"@),
            "\n"@,
        ) + "```\n\n"@,
        None => Seq::empty(),
    }
}

/// Appends a shell command with its description.
pub fn render_bash_input(markdown: &mut String, input: &Json)
    ensures
        final(markdown)@ == old(markdown)@ + bash_input_text(*input),
{
    match input.get_str("command") {
        Some(command) => {
            let mut piece = String::from_str("```bash\n");
            piece.append(join3("$ ", command, "\n").as_str());
            push_optional_line(&mut piece, "# ", input.get_str("description"), "\n");
            piece.append("```\n\n");
            markdown.append(piece.as_str());
        },
        None => {
            proof {
                assert(markdown@ + Seq::<char>::empty() =~= markdown@);
            }
        },
    }
}

/// The first and the last line of a read that has an offset and a limit.
pub open spec fn read_range_text(input: Json) -> Seq<char> {
    match (input.number_at("offset"@), input.number_at("limit"@)) {
        (Some(offset), Some(limit)) => "*Lines: "@ + decimal_text(wrapped_sum(offset, 1) as nat)
            + "-"@ + decimal_text(wrapped_sum(offset, limit) as nat) + "*\n"@,
        _ => Seq::empty(),
    }
}

/// The file that was read, with the lines asked for.
pub open spec fn read_input_text(input: Json) -> Seq<char> {
    match input.text_at("file_path"@) {
        Some(file_path) => ("**\u{1F4C4} "@ + file_path + "**\n"@) + read_range_text(input) + "\n"@,
        None => Seq::empty(),
    }
}

/// Appends the file that was read, with the lines asked for.
pub fn render_read_input(markdown: &mut String, input: &Json)
    ensures
        final(markdown)@ == old(markdown)@ + read_input_text(*input),
{
    match input.get_str("file_path") {
        Some(file_path) => {
            let mut piece = join3("**\u{1F4C4} ", file_path, "**\n");
            match (input.get_u64("offset"), input.get_u64("limit")) {
                (Some(offset), Some(limit)) => {
                    let first = decimal(offset.wrapping_add(1));
                    let last = decimal(offset.wrapping_add(limit));
                    let range = join5("*Lines: ", first.as_str(), "-", last.as_str(), "*\n");
                    piece.append(range.as_str());
                },
                _ => {
                    proof {
                        assert(piece@ + Seq::<char>::empty() =~= piece@);
                    }
                },
            }
            piece.append("\n");
            markdown.append(piece.as_str());
        },
        None => {
            proof {
                assert(markdown@ + Seq::<char>::empty() =~= markdown@);
            }
        },
    }
}

/// The change of an edit as a diff, where the edit has both texts.
pub open spec fn change_text(edit: Json) -> Seq<char> {
    match (edit.text_at("old_string"@), edit.text_at("new_string"@)) {
        (Some(old_string), Some(new_string)) => diff_block_text(
            old_string,
            new_string,
            OutputFormat::Markdown,
        ),
        _ => Seq::empty(),
    }
}

/// Appends the change of an edit as a diff, where the edit has both texts.
fn push_change(out: &mut String, edit: &Json)
    ensures
        final(out)@ == old(out)@ + change_text(*edit),
{
    match (edit.get_str("old_string"), edit.get_str("new_string")) {
        (Some(old_string), Some(new_string)) => {
            let diff = diff_block(old_string, new_string, OutputFormat::Markdown);
            out.append(diff.as_str());
        },
        _ => {
            proof {
                assert(out@ + Seq::<char>::empty() =~= out@);
            }
        },
    }
}

/// The file that was edited, with the change as a diff.
pub open spec fn edit_input_text(input: Json) -> Seq<char> {
    match input.text_at("file_path"@) {
        Some(file_path) => ("**\u{270F}\u{FE0F} "@ + file_path + "**\n\n"@) + change_text(input),
        None => Seq::empty(),
    }
}

/// Appends the file that was edited, with the change as a diff.
pub fn render_edit_input(markdown: &mut String, input: &Json)
    ensures
        final(markdown)@ == old(markdown)@ + edit_input_text(*input),
{
    match input.get_str("file_path") {
        Some(file_path) => {
            let mut piece = join3("**\u{270F}\u{FE0F} ", file_path, "**\n\n");
            push_change(&mut piece, input);
            markdown.append(piece.as_str());
        },
        None => {
            proof {
                assert(markdown@ + Seq::<char>::empty() =~= markdown@);
            }
        },
    }
}

/// One edit of several: its number, whether it replaces every occurrence,
/// and its change as a diff.
pub open spec fn numbered_edit_text(edit: Json, number: nat) -> Seq<char> {
    ("**Edit "@ + decimal_text(number) + "**"@) + (if edit.flag_at("replace_all"@) == Some(true) {
        " (replace all)"@
    } else {
        Seq::empty()
    }) + "\n"@ + change_text(edit)
}

/// The edits, numbered from one.
pub open spec fn numbered_edits_text(edits: Seq<Json>) -> Seq<char>
    decreases edits.len(),
{
    if edits.len() == 0 {
        Seq::empty()
    } else {
        numbered_edits_text(edits.drop_last()) + numbered_edit_text(edits.last(), edits.len())
    }
}

/// The file that was edited several times, with each edit.
pub open spec fn multiedit_input_text(input: Json) -> Seq<char> {
    match (input.text_at("file_path"@), input.items_at("edits"@)) {
        (Some(file_path), Some(edits)) => ("**\u{1F504} Multiple Edits to "@ + file_path + " ("@
            + decimal_text(edits.len()) + " changes)**\n\n"@) + numbered_edits_text(edits),
        _ => Seq::empty(),
    }
}

/// Appends the file that was edited several times, with each edit.
pub fn render_multiedit_input(markdown: &mut String, input: &Json)
    ensures
        final(markdown)@ == old(markdown)@ + multiedit_input_text(*input),
{
    match (input.get_str("file_path"), input.get_array("edits")) {
        (Some(file_path), Some(edits)) => {
            let count = decimal(edits.len() as u64);
            let mut piece = join5(
                "**\u{1F504} Multiple Edits to ",
                file_path,
                " (",
                count.as_str(),
                " changes)**\n\n",
            );
            let ghost heading = piece@;
            let mut i: usize = 0;
            proof {
                assert(edits@.take(0) =~= Seq::<Json>::empty());
                assert(heading + numbered_edits_text(edits@.take(0)) =~= heading);
            }
            while i < edits.len()
                invariant
                    i <= edits.len(),
                    piece@ == heading + numbered_edits_text(edits@.take(i as int)),
                decreases edits.len() - i,
            {
                let edit = &edits[i];
                let number = decimal(i as u64 + 1);
                let mut one = join3("**Edit ", number.as_str(), "**");
                match edit.get_bool("replace_all") {
                    Some(true) => one.append(" (replace all)"),
                    _ => {
                        proof {
                            assert(one@ + Seq::<char>::empty() =~= one@);
                        }
                    },
                }
                one.append("\n");
                push_change(&mut one, edit);
                proof {
                    assert(edits@.take(i + 1).drop_last() =~= edits@.take(i as int));
                    assert(edits@.take(i + 1).last() == edits@[i as int]);
                    assert(one@ == numbered_edit_text(*edit, (i + 1) as nat));
                    assert((heading + numbered_edits_text(edits@.take(i as int))) + one@ =~= heading
                        + numbered_edits_text(edits@.take(i + 1)));
                }
                piece.append(one.as_str());
                i = i + 1;
            }
            proof {
                assert(edits@.take(edits.len() as int) =~= edits@);
            }
            markdown.append(piece.as_str());
        },
        _ => {
            proof {
                assert(markdown@ + Seq::<char>::empty() =~= markdown@);
            }
        },
    }
}

/// The file that was written, with its content.
pub open spec fn write_input_text(input: Json) -> Seq<char> {
    match input.text_at("file_path"@) {
        Some(file_path) => ("**\u{1F4DD} "@ + file_path + "**\n\n"@) + optional_line(
            "**Content:**\n```\n"@,
            input.text_at("content"@),
            "\n```\n\n"@,
        ),
        None => Seq::empty(),
    }
}

/// Appends the file that was written, with its content.
pub fn render_write_input(markdown: &mut String, input: &Json)
    ensures
        final(markdown)@ == old(markdown)@ + write_input_text(*input),
{
    match input.get_str("file_path") {
        Some(file_path) => {
            let mut piece = join3("**\u{1F4DD} ", file_path, "**\n\n");
            push_optional_line(
                &mut piece,
                "**Content:**\n```\n",
                input.get_str("content"),
                "\n```\n\n",
            );
            markdown.append(piece.as_str());
        },
        None => {
            proof {
                assert(markdown@ + Seq::<char>::empty() =~= markdown@);
            }
        },
    }
}

/// The icon of a todo's status.
pub open spec fn status_icon(status: Seq<char>) -> Seq<char> {
    if status == "completed"@ {
        "\u{2705}"@
    } else if status == "in_progress"@ {
        "\u{1F504}"@
    } else {
        "\u{2B55}"@
    }
}

/// The content of a todo as its status shows it: struck through when
/// completed, bold when in progress.
pub open spec fn status_content(status: Seq<char>, content: Seq<char>) -> Seq<char> {
    if status == "completed"@ {
        "~~"@ + content + "~~"@
    } else if status == "in_progress"@ {
        "**"@ + content + "**"@
    } else {
        content
    }
}

/// The icon of a todo's priority.
pub open spec fn priority_icon(priority: Seq<char>) -> Seq<char> {
    if priority == "high"@ {
        "\u{1F7E2}"@
    } else if priority == "medium"@ {
        "\u{1F7E0}"@
    } else if priority == "low"@ {
        "\u{1F534}"@
    } else {
        "\u{26AA}"@
    }
}

/// One todo: a line with its status and content, and a line with its
/// priority and identifier. A todo without a status is pending, one without
/// a priority is of medium priority.
pub open spec fn todo_text(todo: Json) -> Seq<char> {
    let status = text_or(todo.text_at("status"@), "pending"@);
    let content = text_or(todo.text_at("content"@), Seq::empty());
    let priority = text_or(todo.text_at("priority"@), "medium"@);
    let id = text_or(todo.text_at("id"@), Seq::empty());
    (status_icon(status) + " "@ + status_content(status, content) + "\n"@) + (priority_icon(
        priority,
    ) + " "@ + priority + " priority \u{2022} ID: "@ + id + "\n\n"@)
}

/// The todos, in order.
pub open spec fn todos_text(todos: Seq<Json>) -> Seq<char>
    decreases todos.len(),
{
    if todos.len() == 0 {
        Seq::empty()
    } else {
        todos_text(todos.drop_last()) + todo_text(todos.last())
    }
}

/// A list of todos with its length.
pub open spec fn todowrite_input_text(input: Json) -> Seq<char> {
    match input.items_at("todos"@) {
        Some(todos) => ("**\u{1F4DD} Todo List ("@ + decimal_text(todos.len()) + " items)**\n\n"@)
            + todos_text(todos),
        None => Seq::empty(),
    }
}

/// One todo as two lines.
fn render_todo(todo: &Json) -> (out: String)
    ensures
        out@ == todo_text(*todo),
{
    proof {
        reveal_strlit("");
        assert(""@ =~= Seq::<char>::empty());
    }
    let status = str_or(todo.get_str("status"), "pending");
    let content = str_or(todo.get_str("content"), "");
    let priority = str_or(todo.get_str("priority"), "medium");
    let id = str_or(todo.get_str("id"), "");
    let (icon, shown) = if str_eq(status, "completed") {
        ("\u{2705}", join3("~~", content, "~~"))
    } else if str_eq(status, "in_progress") {
        ("\u{1F504}", join3("**", content, "**"))
    } else {
        ("\u{2B55}", String::from_str(content))
    };
    let mark = if str_eq(priority, "high") {
        "\u{1F7E2}"
    } else if str_eq(priority, "medium") {
        "\u{1F7E0}"
    } else if str_eq(priority, "low") {
        "\u{1F534}"
    } else {
        "\u{26AA}"
    };
    let mut first = String::from_str(icon);
    first.append(" ");
    first.append(shown.as_str());
    first.append("\n");
    let mut second = String::from_str(mark);
    second.append(" ");
    second.append(priority);
    second.append(" priority \u{2022} ID: ");
    second.append(id);
    second.append("\n\n");
    first.append(second.as_str());
    first
}

/// Appends a list of todos with its length.
pub fn render_todowrite_input(markdown: &mut String, input: &Json)
    ensures
        final(markdown)@ == old(markdown)@ + todowrite_input_text(*input),
{
    match input.get_array("todos") {
        Some(todos) => {
            let count = decimal(todos.len() as u64);
            let mut piece = join3("**\u{1F4DD} Todo List (", count.as_str(), " items)**\n\n");
            let ghost heading = piece@;
            let mut i: usize = 0;
            proof {
                assert(todos@.take(0) =~= Seq::<Json>::empty());
                assert(heading + todos_text(todos@.take(0)) =~= heading);
            }
            while i < todos.len()
                invariant
                    i <= todos.len(),
                    piece@ == heading + todos_text(todos@.take(i as int)),
                decreases todos.len() - i,
            {
                let one = render_todo(&todos[i]);
                proof {
                    assert(todos@.take(i + 1).drop_last() =~= todos@.take(i as int));
                    assert(todos@.take(i + 1).last() == todos@[i as int]);
                    assert((heading + todos_text(todos@.take(i as int))) + one@ =~= heading
                        + todos_text(todos@.take(i + 1)));
                }
                piece.append(one.as_str());
                i = i + 1;
            }
            proof {
                assert(todos@.take(todos.len() as int) =~= todos@);
            }
            markdown.append(piece.as_str());
        },
        None => {
            proof {
                assert(markdown@ + Seq::<char>::empty() =~= markdown@);
            }
        },
    }
}

/// Appends the directory that was listed.
pub fn render_ls_input(markdown: &mut String, input: &Json)
    ensures
        final(markdown)@ == old(markdown)@ + optional_line(
            "**\u{1F4C2} "@,
            input.text_at("path"@),
            "**\n\n"@,
        ),
{
    push_optional_line(markdown, "**\u{1F4C2} ", input.get_str("path"), "**\n\n");
}

/// The pattern of a search, with the path and the glob it was limited to.
pub open spec fn grep_input_text(input: Json) -> Seq<char> {
    match input.text_at("pattern"@) {
        Some(pattern) => ("**Pattern:** `"@ + pattern + "`\n"@) + optional_line(
            "**Path:** "@,
            input.text_at("path"@),
            "\n"@,
        ) + optional_line("**Glob:** "@, input.text_at("glob"@), "\n"@) + "\n"@,
        None => Seq::empty(),
    }
}

/// Appends the pattern of a search, with its path and glob.
pub fn render_grep_input(markdown: &mut String, input: &Json)
    ensures
        final(markdown)@ == old(markdown)@ + grep_input_text(*input),
{
    match input.get_str("pattern") {
        Some(pattern) => {
            let mut piece = join3("**Pattern:** `", pattern, "`\n");
            push_optional_line(&mut piece, "**Path:** ", input.get_str("path"), "\n");
            push_optional_line(&mut piece, "**Glob:** ", input.get_str("glob"), "\n");
            piece.append("\n");
            markdown.append(piece.as_str());
        },
        None => {
            proof {
                assert(markdown@ + Seq::<char>::empty() =~= markdown@);
            }
        },
    }
}

/// The input of a tool that has no rendering of its own: as indented JSON.
pub open spec fn generic_input_text(input: Json) -> Seq<char> {
    "**Input:**\n```json\n"@ + pretty_text(input) + "\n```\n\n"@
}

/// Appends the input of a tool as indented JSON.
pub fn render_generic_input(markdown: &mut String, input: &Json)
    ensures
        final(markdown)@ == old(markdown)@ + generic_input_text(*input),
{
    let pretty = to_pretty(input);
    let piece = join3("**Input:**\n```json\n", pretty.as_str(), "\n```\n\n");
    markdown.append(piece.as_str());
}

/// The input of a tool, rendered by the tool's name.
pub open spec fn tool_input_text(tool_name: Seq<char>, input: Json) -> Seq<char> {
    if tool_name == "Bash"@ {
        bash_input_text(input)
    } else if tool_name == "Read"@ {
        read_input_text(input)
    } else if tool_name == "Edit"@ {
        edit_input_text(input)
    } else if tool_name == "MultiEdit"@ {
        multiedit_input_text(input)
    } else if tool_name == "Write"@ {
        write_input_text(input)
    } else if tool_name == "TodoWrite"@ {
        todowrite_input_text(input)
    } else if tool_name == "LS"@ {
        optional_line("**\u{1F4C2} "@, input.text_at("path"@), "**\n\n"@)
    } else if tool_name == "Grep"@ {
        grep_input_text(input)
    } else {
        generic_input_text(input)
    }
}

/// Appends the input of a tool, rendered by the tool's name.
pub fn render_tool_input(markdown: &mut String, tool_name: &str, input: &Json)
    ensures
        final(markdown)@ == old(markdown)@ + tool_input_text(tool_name@, *input),
{
    if str_eq(tool_name, "Bash") {
        render_bash_input(markdown, input);
    } else if str_eq(tool_name, "Read") {
        render_read_input(markdown, input);
    } else if str_eq(tool_name, "Edit") {
        render_edit_input(markdown, input);
    } else if str_eq(tool_name, "MultiEdit") {
        render_multiedit_input(markdown, input);
    } else if str_eq(tool_name, "Write") {
        render_write_input(markdown, input);
    } else if str_eq(tool_name, "TodoWrite") {
        render_todowrite_input(markdown, input);
    } else if str_eq(tool_name, "LS") {
        render_ls_input(markdown, input);
    } else if str_eq(tool_name, "Grep") {
        render_grep_input(markdown, input);
    } else {
        render_generic_input(markdown, input);
    }
}

/// The text of an optional string.
pub open spec fn string_text(value: Option<String>) -> Option<Seq<char>> {
    match value {
        Some(text) => Some(text@),
        None => None,
    }
}

/// The instant written under the pattern, where there is an instant.
pub open spec fn instant_text(instant: Option<Timestamp>, pattern: Seq<char>) -> Option<Seq<char>> {
    match instant {
        Some(at) => formatted_instant(at.secs, at.nanos, pattern),
        None => None,
    }
}

/// The text under `content` of the message of an entry.
pub open spec fn message_content(entry: LogEntry) -> Option<Seq<char>> {
    match entry.message {
        Some(message) => message.text_at("content"@),
        None => None,
    }
}

/// The head of the document: the title with the session, the project, and
/// the day and time of the first entry where it has one.
pub open spec fn export_header(
    entries: Seq<LogEntry>,
    session_id: Seq<char>,
    project_name: Seq<char>,
    title: Seq<char>,
) -> Seq<char> {
    ("# "@ + title + ": "@ + session_id + "\n\n"@) + ("**Project:** "@ + project_name + "\n"@)
        + optional_line(
        "**Date:** "@,
        if entries.len() > 0 {
            instant_text(entries[0].timestamp, "%Y-%m-%d %H:%M:%S UTC"@)
        } else {
            None
        },
        "\n"@,
    ) + "\n---\n\n"@
}

/// A tool call: a heading with the tool's icon and name, then its input.
pub open spec fn tool_use_text(entry: LogEntry) -> Seq<char> {
    match entry.message {
        Some(message) => match message.text_at("name"@) {
            Some(name) => ("### "@ + tool_icon(name) + " "@ + name + "\n\n"@) + (
            match message.member_at("input"@) {
                Some(input) => tool_input_text(name, input),
                None => Seq::empty(),
            }),
            None => Seq::empty(),
        },
        None => Seq::empty(),
    }
}

/// The result of the tool call that is pending, where the call has a name
/// and an input and the entry has a result.
pub open spec fn pending_result_text(entry: LogEntry, pending: Option<LogEntry>) -> Seq<char> {
    match (pending, entry.tool_use_result) {
        (Some(tool_use), Some(result)) => match tool_use.message {
            Some(message) => match (message.text_at("name"@), message.member_at("input"@)) {
                (Some(name), Some(_)) => tool_result_text(name, result),
                _ => Seq::empty(),
            },
            None => Seq::empty(),
        },
        _ => Seq::empty(),
    }
}

/// What an entry adds to the document by its kind, given the tool call that
/// is pending.
pub open spec fn entry_body(entry: LogEntry, pending: Option<LogEntry>) -> Seq<char> {
    match entry.entry_type {
        Some(kind) => if kind@ == "summary"@ {
            optional_line(
                "## \u{1F4CB} Session Summary\n\n"@,
                string_text(entry.summary),
                "\n\n"@,
            )
        } else if kind@ == "user"@ {
            optional_line("## \u{1F464} User\n\n"@, message_content(entry), "\n\n"@)
        } else if kind@ == "assistant"@ {
            optional_line("## \u{1F916} Assistant\n\n"@, message_content(entry), "\n\n"@)
        } else if kind@ == "toolUse"@ {
            tool_use_text(entry)
        } else if kind@ == "toolResult"@ {
            pending_result_text(entry, pending)
        } else {
            Seq::empty()
        },
        None => Seq::empty(),
    }
}

/// The tool call that is pending after an entry: a tool call becomes the
/// pending one, a tool result leaves none pending, any other entry changes
/// nothing.
pub open spec fn pending_after(entry: LogEntry, pending: Option<LogEntry>) -> Option<LogEntry> {
    match entry.entry_type {
        Some(kind) => if kind@ == "summary"@ || kind@ == "user"@ || kind@ == "assistant"@ {
            pending
        } else if kind@ == "toolUse"@ {
            Some(entry)
        } else if kind@ == "toolResult"@ {
            None
        } else {
            pending
        },
        None => pending,
    }
}

/// What an entry adds to the document: what its kind asks for, then its time
/// of day where it has one.
pub open spec fn entry_text(entry: LogEntry, pending: Option<LogEntry>) -> Seq<char> {
    entry_body(entry, pending) + optional_line(
        "*Time: "@,
        instant_text(entry.timestamp, "%H:%M:%S"@),
        "*\n\n"@,
    )
}

/// The tool call that is pending after the entries.
pub open spec fn pending_after_all(entries: Seq<LogEntry>) -> Option<LogEntry>
    decreases entries.len(),
{
    if entries.len() == 0 {
        None
    } else {
        pending_after(entries.last(), pending_after_all(entries.drop_last()))
    }
}

/// What the entries add to the document, in order.
pub open spec fn entries_text(entries: Seq<LogEntry>) -> Seq<char>
    decreases entries.len(),
{
    if entries.len() == 0 {
        Seq::empty()
    } else {
        entries_text(entries.drop_last()) + entry_text(
            entries.last(),
            pending_after_all(entries.drop_last()),
        )
    }
}

/// The session as a Markdown document.
pub open spec fn markdown_export(
    entries: Seq<LogEntry>,
    session_id: Seq<char>,
    project_name: Seq<char>,
    title: Seq<char>,
) -> Seq<char> {
    export_header(entries, session_id, project_name, title) + entries_text(entries)
}

/// The instant written under the pattern, where there is an instant.
fn format_optional(instant: &Option<Timestamp>, pattern: &str) -> (text: Option<String>)
    ensures
        string_text(text) == instant_text(*instant, pattern@),
{
    match instant {
        Some(at) => format_instant(at, pattern),
        None => None,
    }
}

/// The text of an optional string.
fn as_text(value: &Option<String>) -> (text: Option<&str>)
    ensures
        text_of(text) == string_text(*value),
{
    match value {
        Some(s) => Some(s.as_str()),
        None => None,
    }
}

/// The text under `content` of the message of an entry.
fn content_of(entry: &LogEntry) -> (text: Option<&str>)
    ensures
        text_of(text) == message_content(*entry),
{
    match &entry.message {
        Some(message) => message.get_str("content"),
        None => None,
    }
}

/// Appends a tool call: its heading and its input.
fn push_tool_use(markdown: &mut String, entry: &LogEntry)
    ensures
        final(markdown)@ == old(markdown)@ + tool_use_text(*entry),
{
    proof {
        assert(markdown@ + Seq::<char>::empty() =~= markdown@);
    }
    if let Some(message) = &entry.message {
        if let Some(tool_name) = message.get_str("name") {
            let mut piece = join5("### ", get_tool_icon(tool_name), " ", tool_name, "\n\n");
            match message.get("input") {
                Some(input) => render_tool_input(&mut piece, tool_name, input),
                None => {
                    proof {
                        assert(piece@ + Seq::<char>::empty() =~= piece@);
                    }
                },
            }
            markdown.append(piece.as_str());
        }
    }
}

/// Appends the result of the pending tool call.
fn push_pending_result(markdown: &mut String, entry: &LogEntry, pending: Option<&LogEntry>)
    ensures
        final(markdown)@ == old(markdown)@ + pending_result_text(
            *entry,
            match pending {
                Some(tool_use) => Some(*tool_use),
                None => None,
            },
        ),
{
    proof {
        assert(markdown@ + Seq::<char>::empty() =~= markdown@);
    }
    if let Some(tool_use) = pending {
        if let Some(result) = &entry.tool_use_result {
            if let Some(message) = &tool_use.message {
                if let Some(tool_name) = message.get_str("name") {
                    if let Some(input) = message.get("input") {
                        render_tool_result(markdown, tool_name, input, result);
                    }
                }
            }
        }
    }
}

/// The session as a Markdown document: a head with the title, the session,
/// the project and the date, then every entry in order. A tool result is
/// rendered by the tool call that precedes it.
///
/// The title is what the heading of the document says before the session:
/// the name of the product whose sessions are shown, and the word
/// `Session`.
pub fn generate_markdown_export(
    entries: &[LogEntry],
    session_id: &str,
    project_name: &str,
    title: &str,
) -> (markdown: String)
    ensures
        markdown@ == markdown_export(entries@, session_id@, project_name@, title@),
{
    let mut markdown = join5("# ", title, ": ", session_id, "\n\n");
    markdown.append(join3("**Project:** ", project_name, "\n").as_str());
    let date = if entries.len() > 0 {
        format_optional(&entries[0].timestamp, "%Y-%m-%d %H:%M:%S UTC")
    } else {
        None
    };
    push_optional_line(&mut markdown, "**Date:** ", as_text(&date), "\n");
    markdown.append("\n---\n\n");
    let ghost header = markdown@;
    let mut pending: Option<usize> = None;
    let mut i: usize = 0;
    proof {
        assert(entries@.take(0) =~= Seq::<LogEntry>::empty());
        assert(header + entries_text(entries@.take(0)) =~= header);
    }
    while i < entries.len()
        invariant
            i <= entries.len(),
            header == export_header(entries@, session_id@, project_name@, title@),
            markdown@ == header + entries_text(entries@.take(i as int)),
            match pending {
                Some(at) => at < i && pending_after_all(entries@.take(i as int)) == Some(
                    entries@[at as int],
                ),
                None => pending_after_all(entries@.take(i as int)) is None,
            },
        decreases entries.len() - i,
    {
        let entry = &entries[i];
        let ghost before = entries@.take(i as int);
        let ghost was_pending = pending_after_all(before);
        proof {
            assert(entries@.take(i + 1).drop_last() =~= before);
            assert(entries@.take(i + 1).last() == *entry);
        }
        let mut piece = String::new();
        let tool_use: Option<&LogEntry> = match pending {
            Some(at) => Some(&entries[at]),
            None => None,
        };
        let mut next = pending;
        match &entry.entry_type {
            Some(kind) => {
                if str_eq(kind.as_str(), "summary") {
                    push_optional_line(
                        &mut piece,
                        "## \u{1F4CB} Session Summary\n\n",
                        as_text(&entry.summary),
                        "\n\n",
                    );
                } else if str_eq(kind.as_str(), "user") {
                    push_optional_line(
                        &mut piece,
                        "## \u{1F464} User\n\n",
                        content_of(entry),
                        "\n\n",
                    );
                } else if str_eq(kind.as_str(), "assistant") {
                    push_optional_line(
                        &mut piece,
                        "## \u{1F916} Assistant\n\n",
                        content_of(entry),
                        "\n\n",
                    );
                } else if str_eq(kind.as_str(), "toolUse") {
                    next = Some(i);
                    push_tool_use(&mut piece, entry);
                } else if str_eq(kind.as_str(), "toolResult") {
                    push_pending_result(&mut piece, entry, tool_use);
                    next = None;
                }
            },
            None => {},
        }
        proof {
            assert(piece@ =~= entry_body(*entry, was_pending));
        }
        let time = format_optional(&entry.timestamp, "%H:%M:%S");
        push_optional_line(&mut piece, "*Time: ", as_text(&time), "*\n\n");
        proof {
            assert(piece@ == entry_text(*entry, was_pending));
            assert((header + entries_text(before)) + piece@ =~= header + entries_text(
                entries@.take(i + 1),
            ));
        }
        markdown.append(piece.as_str());
        pending = next;
        i = i + 1;
    }
    proof {
        assert(entries@.take(entries.len() as int) =~= entries@);
    }
    markdown
}

/// The title under which the sessions of a product are exported: the name
/// of the product and the word `Session`.
pub open spec fn session_title(product: Seq<char>) -> Seq<char> {
    for_product(product, "Session"@)
}

/// The session of a product as a Markdown document: as
/// `generate_markdown_export` writes it, under the title of the product's
/// sessions.
pub fn generate_session_export(
    entries: &[LogEntry],
    session_id: &str,
    project_name: &str,
    product: &str,
) -> (markdown: String)
    ensures
        markdown@ == markdown_export(
            entries@,
            session_id@,
            project_name@,
            session_title(product@),
        ),
{
    let title = product_text(product, "Session");
    generate_markdown_export(entries, session_id, project_name, title.as_str())
}

} // verus!
