use cc_log_viewer::export::{
    generate_markdown_export, generate_session_export, get_tool_icon, render_bash_input, render_bash_result,
    render_edit_input, render_edit_result, render_generic_input, render_generic_result,
    render_grep_input, render_grep_result, render_ls_input, render_ls_result,
    render_multiedit_input, render_read_input, render_read_result, render_todowrite_input,
    render_tool_input, render_tool_result, render_write_input,
};
use cc_log_viewer::{Json, JsonNumber, LogEntry, Timestamp};

fn text(value: &str) -> Json {
    Json::Text(value.to_string())
}

fn number(value: u64) -> Json {
    Json::Number(JsonNumber::PosInt(value))
}

fn object(members: Vec<(&str, Json)>) -> Json {
    Json::Object(members.into_iter().map(|(k, v)| (k.to_string(), v)).collect())
}

fn entry(kind: &str) -> LogEntry {
    LogEntry {
        entry_type: Some(kind.to_string()),
        summary: None,
        parent_uuid: None,
        is_sidechain: None,
        user_type: None,
        cwd: None,
        session_id: None,
        version: None,
        message: None,
        uuid: None,
        timestamp: None,
        request_id: None,
        leaf_uuid: None,
        tool_use_result: None,
    }
}

fn rendered(render: impl Fn(&mut String)) -> String {
    let mut markdown = String::from("before|");
    render(&mut markdown);
    assert!(markdown.starts_with("before|"));
    markdown["before|".len()..].to_string()
}

#[test]
fn tool_icons() {
    assert_eq!(get_tool_icon("Bash"), "\u{1F4BB}");
    assert_eq!(get_tool_icon("Read"), "\u{1F4D6}");
    assert_eq!(get_tool_icon("Edit"), "\u{270F}\u{FE0F}");
    assert_eq!(get_tool_icon("MultiEdit"), "\u{1F504}");
    assert_eq!(get_tool_icon("Write"), "\u{1F4DD}");
    assert_eq!(get_tool_icon("TodoWrite"), "\u{1F4DD}");
    assert_eq!(get_tool_icon("LS"), "\u{1F4C2}");
    assert_eq!(get_tool_icon("Grep"), "\u{1F50D}");
    assert_eq!(get_tool_icon("Glob"), "\u{1F310}");
    assert_eq!(get_tool_icon("WebFetch"), "\u{1F310}");
    assert_eq!(get_tool_icon("Task"), "\u{1F3AF}");
    assert_eq!(get_tool_icon("bash"), "\u{1F527}");
    assert_eq!(get_tool_icon(""), "\u{1F527}");
}

#[test]
fn results_are_fenced_under_their_heading() {
    assert_eq!(rendered(|m| render_bash_result(m, "ok")), "**Output:**\n```\nok\n```\n\n");
    assert_eq!(
        rendered(|m| render_read_result(m, &Json::Null, "ok")),
        "**Content:**\n```\nok\n```\n\n"
    );
    assert_eq!(
        rendered(|m| render_ls_result(m, "a\nb")),
        "**Directory listing:**\n```\na\nb\n```\n\n"
    );
    assert_eq!(rendered(|m| render_grep_result(m, "x")), "**Matches:**\n```\nx\n```\n\n");
    assert_eq!(rendered(|m| render_generic_result(m, "")), "**Result:**\n```\n\n```\n\n");
}

#[test]
fn a_blank_edit_result_is_left_out() {
    assert_eq!(rendered(|m| render_edit_result(m, "done")), "**Result:**\n```\ndone\n```\n\n");
    assert_eq!(rendered(|m| render_edit_result(m, "")), "");
    assert_eq!(rendered(|m| render_edit_result(m, " \n\t ")), "");
}

#[test]
fn tool_results_follow_the_tool_name() {
    let result = object(vec![("content", text("out"))]);
    assert_eq!(
        rendered(|m| render_tool_result(m, "Bash", &Json::Null, &result)),
        "**Output:**\n```\nout\n```\n\n"
    );
    assert_eq!(
        rendered(|m| render_tool_result(m, "Unknown", &Json::Null, &result)),
        "**Result:**\n```\nout\n```\n\n"
    );
    let without = object(vec![("other", text("out"))]);
    assert_eq!(rendered(|m| render_tool_result(m, "Bash", &Json::Null, &without)), "");
    let not_text = object(vec![("content", number(3))]);
    assert_eq!(rendered(|m| render_tool_result(m, "Bash", &Json::Null, &not_text)), "");
}

#[test]
fn bash_input_shows_command_and_description() {
    let input = object(vec![
        ("command", text("cargo test --verbose")),
        ("description", text("Run tests with verbose output")),
    ]);
    assert_eq!(
        rendered(|m| render_bash_input(m, &input)),
        "```bash\n$ cargo test --verbose\n# Run tests with verbose output\n```\n\n"
    );
    let bare = object(vec![("command", text("ls"))]);
    assert_eq!(rendered(|m| render_bash_input(m, &bare)), "```bash\n$ ls\n```\n\n");
    assert_eq!(rendered(|m| render_bash_input(m, &object(vec![]))), "");
}

#[test]
fn read_input_shows_the_lines_asked_for() {
    let input = object(vec![
        ("file_path", text("main.rs")),
        ("offset", number(100)),
        ("limit", number(50)),
    ]);
    assert_eq!(
        rendered(|m| render_read_input(m, &input)),
        "**\u{1F4C4} main.rs**\n*Lines: 101-150*\n\n"
    );
    let whole = object(vec![("file_path", text("main.rs")), ("offset", number(1))]);
    assert_eq!(rendered(|m| render_read_input(m, &whole)), "**\u{1F4C4} main.rs**\n\n");
    let wrapping = object(vec![
        ("file_path", text("f")),
        ("offset", number(u64::MAX)),
        ("limit", number(2)),
    ]);
    assert_eq!(rendered(|m| render_read_input(m, &wrapping)), "**\u{1F4C4} f**\n*Lines: 0-1*\n\n");
    let negative = object(vec![
        ("file_path", text("f")),
        ("offset", Json::Number(JsonNumber::NegInt(-1))),
        ("limit", number(2)),
    ]);
    assert_eq!(rendered(|m| render_read_input(m, &negative)), "**\u{1F4C4} f**\n\n");
}

#[test]
fn edit_input_shows_a_diff() {
    let input = object(vec![
        ("file_path", text("/path")),
        ("old_string", text("old\nline")),
        ("new_string", text("new")),
    ]);
    assert_eq!(
        rendered(|m| render_edit_input(m, &input)),
        "**\u{270F}\u{FE0F} /path**\n\n```diff\n- old\n- line\n+ new\n```\n\n"
    );
    let half = object(vec![("file_path", text("/path")), ("old_string", text("old"))]);
    assert_eq!(rendered(|m| render_edit_input(m, &half)), "**\u{270F}\u{FE0F} /path**\n\n");
}

#[test]
fn multiedit_input_numbers_the_edits() {
    let input = object(vec![
        ("file_path", text("f.rs")),
        (
            "edits",
            Json::Array(vec![
                object(vec![
                    ("old_string", text("a")),
                    ("new_string", text("b")),
                    ("replace_all", Json::Bool(true)),
                ]),
                object(vec![("old_string", text("c")), ("replace_all", Json::Bool(false))]),
            ]),
        ),
    ]);
    assert_eq!(
        rendered(|m| render_multiedit_input(m, &input)),
        "**\u{1F504} Multiple Edits to f.rs (2 changes)**\n\n**Edit 1** (replace all)\n```diff\n- a\n+ b\n```\n\n**Edit 2**\n"
    );
    let no_edits = object(vec![("file_path", text("f.rs"))]);
    assert_eq!(rendered(|m| render_multiedit_input(m, &no_edits)), "");
}

#[test]
fn write_input_shows_the_content() {
    let input = object(vec![("file_path", text("a.txt")), ("content", text("hello"))]);
    assert_eq!(
        rendered(|m| render_write_input(m, &input)),
        "**\u{1F4DD} a.txt**\n\n**Content:**\n```\nhello\n```\n\n"
    );
}

#[test]
fn todowrite_input_lists_the_todos() {
    let input = object(vec![(
        "todos",
        Json::Array(vec![
            object(vec![
                ("status", text("completed")),
                ("content", text("one")),
                ("priority", text("high")),
                ("id", text("1")),
            ]),
            object(vec![("status", text("in_progress")), ("content", text("two"))]),
            object(vec![("priority", text("urgent"))]),
        ]),
    )]);
    assert_eq!(
        rendered(|m| render_todowrite_input(m, &input)),
        "**\u{1F4DD} Todo List (3 items)**\n\n\u{2705} ~~one~~\n\u{1F7E2} high priority \u{2022} ID: 1\n\n\u{1F504} **two**\n\u{1F7E0} medium priority \u{2022} ID: \n\n\u{2B55} \n\u{26AA} urgent priority \u{2022} ID: \n\n"
    );
}

#[test]
fn ls_and_grep_inputs() {
    let ls = object(vec![("path", text("/src"))]);
    assert_eq!(rendered(|m| render_ls_input(m, &ls)), "**\u{1F4C2} /src**\n\n");
    let grep = object(vec![
        ("pattern", text("search")),
        ("path", text("/src")),
        ("glob", text("*.rs")),
    ]);
    assert_eq!(
        rendered(|m| render_grep_input(m, &grep)),
        "**Pattern:** `search`\n**Path:** /src\n**Glob:** *.rs\n\n"
    );
    let only_path = object(vec![("path", text("/src"))]);
    assert_eq!(rendered(|m| render_grep_input(m, &only_path)), "");
}

#[test]
fn generic_input_is_indented_json() {
    let input = object(vec![
        ("b", number(1)),
        ("a", Json::Array(vec![Json::Null, Json::Bool(true), text("x\"y")])),
        ("c", Json::Number(JsonNumber::Float("1.5".to_string()))),
        ("d", Json::Number(JsonNumber::NegInt(-7))),
    ]);
    let expected = "**Input:**\n```json\n{\n  \"a\": [\n    null,\n    true,\n    \"x\\\"y\"\n  ],\n  \"b\": 1,\n  \"c\": 1.5,\n  \"d\": -7\n}\n```\n\n";
    assert_eq!(rendered(|m| render_generic_input(m, &input)), expected);
}

#[test]
fn tool_input_follows_the_tool_name() {
    let input = object(vec![("command", text("ls")), ("path", text("/p"))]);
    assert_eq!(
        rendered(|m| render_tool_input(m, "Bash", &input)),
        "```bash\n$ ls\n```\n\n"
    );
    assert_eq!(rendered(|m| render_tool_input(m, "LS", &input)), "**\u{1F4C2} /p**\n\n");
    assert!(rendered(|m| render_tool_input(m, "Glob", &input)).starts_with("**Input:**\n```json\n"));
}

#[test]
fn export_of_an_empty_session_is_its_head() {
    assert_eq!(
        generate_markdown_export(&[], "abc", "proj", "Recorded Session"),
        "# Recorded Session: abc\n\n**Project:** proj\n\n---\n\n"
    );
}

#[test]
fn export_renders_entries_in_order() {
    let mut summary = entry("summary");
    summary.summary = Some("Test session".to_string());
    summary.timestamp = Some(Timestamp { secs: 1_705_312_800, nanos: 0 });

    let mut user = entry("user");
    user.message = Some(object(vec![("role", text("user")), ("content", text("Hello"))]));
    user.timestamp = Some(Timestamp { secs: 1_705_312_860, nanos: 999 });

    let mut assistant = entry("assistant");
    assistant.message = Some(object(vec![("content", text("Hi there"))]));

    let mut structured = entry("assistant");
    structured.message = Some(object(vec![("content", Json::Array(vec![text("x")]))]));

    let mut tool_use = entry("toolUse");
    tool_use.message = Some(object(vec![
        ("name", text("Bash")),
        ("input", object(vec![("command", text("ls -la"))])),
    ]));

    let mut tool_result = entry("toolResult");
    tool_result.tool_use_result = Some(object(vec![("content", text("total 48"))]));

    let mut orphan = entry("toolResult");
    orphan.tool_use_result = Some(object(vec![("content", text("lost"))]));

    let other = entry("system");

    let entries =
        vec![summary, user, assistant, structured, tool_use, tool_result, orphan, other];
    let expected = "# Recorded Session: s1\n\n**Project:** groupA\n**Date:** 2024-01-15 10:00:00 UTC\n\n---\n\n\
## \u{1F4CB} Session Summary\n\nTest session\n\n*Time: 10:00:00*\n\n\
## \u{1F464} User\n\nHello\n\n*Time: 10:01:00*\n\n\
## \u{1F916} Assistant\n\nHi there\n\n\
### \u{1F4BB} Bash\n\n```bash\n$ ls -la\n```\n\n\
**Output:**\n```\ntotal 48\n```\n\n";
    assert_eq!(generate_markdown_export(&entries, "s1", "groupA", "Recorded Session"), expected);
}

#[test]
fn export_skips_the_date_of_an_instant_out_of_range() {
    let mut first = entry("user");
    first.timestamp = Some(Timestamp { secs: i64::MAX, nanos: 0 });
    assert_eq!(
        generate_markdown_export(&[first], "s", "p", "Recorded Session"),
        "# Recorded Session: s\n\n**Project:** p\n\n---\n\n"
    );
}

#[test]
fn a_tool_result_needs_a_tool_call_with_name_and_input() {
    let mut nameless = entry("toolUse");
    nameless.message = Some(object(vec![("input", object(vec![]))]));
    let mut result = entry("toolResult");
    result.tool_use_result = Some(object(vec![("content", text("x"))]));
    assert_eq!(
        generate_markdown_export(&[nameless, result.clone()], "s", "p", "Recorded Session"),
        "# Recorded Session: s\n\n**Project:** p\n\n---\n\n"
    );

    let mut inputless = entry("toolUse");
    inputless.message = Some(object(vec![("name", text("Edit"))]));
    assert_eq!(
        generate_markdown_export(&[inputless, result], "s", "p", "Recorded Session"),
        "# Recorded Session: s\n\n**Project:** p\n\n---\n\n### \u{270F}\u{FE0F} Edit\n\n"
    );
}

#[test]
fn the_heading_of_an_export_says_the_title_that_is_handed_in() {
    assert_eq!(
        generate_markdown_export(&[], "s1", "p", "Some Product Session"),
        "# Some Product Session: s1\n\n**Project:** p\n\n---\n\n"
    );
    assert_eq!(
        generate_markdown_export(&[], "s1", "p", ""),
        "# : s1\n\n**Project:** p\n\n---\n\n"
    );
}

#[test]
fn the_export_of_a_product_names_the_product_before_the_session() {
    assert_eq!(
        generate_session_export(&[], "s1", "p", "Some Product"),
        "# Some Product Session: s1\n\n**Project:** p\n\n---\n\n"
    );
    assert_eq!(
        generate_session_export(&[], "s1", "p", ""),
        "# Session: s1\n\n**Project:** p\n\n---\n\n"
    );
    let mut user = entry("user");
    user.message = Some(object(vec![("content", text("Hello"))]));
    assert_eq!(
        generate_session_export(&[user.clone()], "s", "p", "Some Product"),
        generate_markdown_export(&[user], "s", "p", "Some Product Session")
    );
}
