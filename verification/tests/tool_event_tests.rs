use cc_log_viewer::reader::{line_looks_like_object, new_line_spans};
use cc_log_viewer::text::text_lines;
use cc_log_viewer::{Json, JsonNumber};

fn text(value: &str) -> Json {
    Json::Text(value.to_string())
}

fn number(value: u64) -> Json {
    Json::Number(JsonNumber::PosInt(value))
}

fn object(members: Vec<(&str, Json)>) -> Json {
    Json::Object(members.into_iter().map(|(k, v)| (k.to_string(), v)).collect())
}

fn array(items: Vec<Json>) -> Json {
    Json::Array(items)
}

const NULL: Json = Json::Null;

/// The member under `key`, or `null` where there is none.
fn at<'a>(value: &'a Json, key: &str) -> &'a Json {
    value.get(key).unwrap_or(&NULL)
}

fn is(value: &Json, expected: &str) -> bool {
    value.as_str() == Some(expected)
}

fn tool_use(id: &str, name: &str, input: Json) -> Json {
    object(vec![
        ("type", text("tool_use")),
        ("id", text(id)),
        ("name", text(name)),
        ("input", input),
    ])
}

fn said(words: &str) -> Json {
    object(vec![("type", text("text")), ("text", text(words))])
}

fn entry(kind: &str, role: &str, content: Vec<Json>, timestamp: &str, uuid: &str) -> Json {
    object(vec![
        ("type", text(kind)),
        ("message", object(vec![("role", text(role)), ("content", array(content))])),
        ("timestamp", text(timestamp)),
        ("uuid", text(uuid)),
    ])
}

fn create_bash_tool_entry() -> Json {
    entry(
        "assistant",
        "assistant",
        vec![
            said("I'll run this command for you:"),
            tool_use(
                "toolu_bash123",
                "Bash",
                object(vec![
                    ("command", text("cargo test --verbose")),
                    ("description", text("Run tests with verbose output")),
                ]),
            ),
        ],
        "2024-01-15T10:00:00Z",
        "bash-tool-uuid",
    )
}

fn create_read_tool_entry() -> Json {
    entry(
        "assistant",
        "assistant",
        vec![tool_use(
            "toolu_read456",
            "Read",
            object(vec![
                ("file_path", text("/Users/harper/Public/src/2389/cc-log-viewer/src/main.rs")),
                ("offset", number(100)),
                ("limit", number(50)),
            ]),
        )],
        "2024-01-15T10:01:00Z",
        "read-tool-uuid",
    )
}

fn create_multiedit_tool_entry() -> Json {
    entry(
        "assistant",
        "assistant",
        vec![tool_use(
            "toolu_edit789",
            "MultiEdit",
            object(vec![
                ("file_path", text("/path/to/file.rs")),
                (
                    "edits",
                    array(vec![
                        object(vec![
                            ("old_string", text("old code here")),
                            ("new_string", text("new code here")),
                            ("replace_all", Json::Bool(false)),
                        ]),
                        object(vec![
                            ("old_string", text("another old line")),
                            ("new_string", text("another new line")),
                            ("replace_all", Json::Bool(true)),
                        ]),
                    ]),
                ),
            ]),
        )],
        "2024-01-15T10:02:00Z",
        "multiedit-tool-uuid",
    )
}

fn todo(content: &str, status: &str, priority: &str, id: &str) -> Json {
    object(vec![
        ("content", text(content)),
        ("status", text(status)),
        ("priority", text(priority)),
        ("id", text(id)),
    ])
}

fn create_todowrite_tool_entry() -> Json {
    entry(
        "assistant",
        "assistant",
        vec![tool_use(
            "toolu_todo999",
            "TodoWrite",
            object(vec![(
                "todos",
                array(vec![
                    todo("Implement new feature", "pending", "high", "1"),
                    todo("Fix bug in parser", "in_progress", "medium", "2"),
                    todo("Update documentation", "completed", "low", "3"),
                ]),
            )]),
        )],
        "2024-01-15T10:03:00Z",
        "todowrite-tool-uuid",
    )
}

fn create_tool_result_entry() -> Json {
    entry(
        "user",
        "user",
        vec![object(vec![
            ("type", text("tool_result")),
            ("tool_use_id", text("toolu_bash123")),
            (
                "content",
                text("Compiling cc-log-viewer v0.3.0\n    Finished test [unoptimized + debuginfo] target(s) in 2.34s\n     Running unittests src/main.rs\ntest test_watch_manager ... ok\n\ntest result: ok. 1 passed; 0 failed; 0 ignored; 0 measured"),
            ),
        ])],
        "2024-01-15T10:00:30Z",
        "bash-result-uuid",
    )
}

fn create_mixed_content_entry() -> Json {
    entry(
        "assistant",
        "assistant",
        vec![
            said("Let me check the file and then run a command:"),
            tool_use("toolu_read001", "Read", object(vec![("file_path", text("/test/file.txt"))])),
            said("Now I'll process this with bash:"),
            tool_use(
                "toolu_bash002",
                "Bash",
                object(vec![
                    ("command", text("wc -l /test/file.txt")),
                    ("description", text("Count lines in file")),
                ]),
            ),
        ],
        "2024-01-15T10:04:00Z",
        "mixed-content-uuid",
    )
}

fn content_of(entry: &Json) -> &Vec<Json> {
    at(at(entry, "message"), "content").as_array().unwrap()
}

fn first_of_type<'a>(entry: &'a Json, kind: &str) -> &'a Json {
    content_of(entry).iter().find(|item| is(at(item, "type"), kind)).unwrap()
}

#[test]
fn test_jsonl_parsing() {
    let jsonl_content = "{\"type\":\"summary\",\"summary\":\"Test session\",\"timestamp\":\"2024-01-15T10:00:00Z\",\"uuid\":\"summary-uuid\"}\n{\"type\":\"message\",\"userType\":\"human\",\"message\":{\"role\":\"user\",\"content\":\"Hello\"},\"timestamp\":\"2024-01-15T10:01:00Z\",\"uuid\":\"msg-uuid\"}";
    let lines = text_lines(jsonl_content);

    assert_eq!(lines.len(), 2);
    assert_eq!(new_line_spans(jsonl_content.as_bytes(), 0).len(), 2);

    for line in lines {
        assert!(line_looks_like_object(&line));
        let parsed: serde_json::Value = serde_json::from_str(&line).unwrap();
        assert!(parsed.is_object());
    }
}

#[test]
fn test_malformed_json_handling() {
    let malformed_lines = vec!["invalid json", "{incomplete", "null", ""];

    for line in malformed_lines {
        assert!(!line_looks_like_object(line));
        assert!(new_line_spans(line.as_bytes(), 0).is_empty());
        let result: Result<serde_json::Value, _> = serde_json::from_str(line);
        match result {
            Ok(_) => {}
            Err(_) => {}
        }
    }
}

#[test]
fn test_tool_use_detection() {
    let entries = vec![
        create_bash_tool_entry(),
        create_read_tool_entry(),
        create_multiedit_tool_entry(),
        create_todowrite_tool_entry(),
        create_mixed_content_entry(),
    ];

    for entry in entries {
        assert!(is(at(&entry, "type"), "assistant"));

        let content = content_of(&entry);

        let has_tool_use = content.iter().any(|item| is(at(item, "type"), "tool_use"));
        assert!(has_tool_use, "Entry should contain tool_use");

        let tool_uses: Vec<_> =
            content.iter().filter(|item| is(at(item, "type"), "tool_use")).collect();

        assert!(!tool_uses.is_empty(), "Should have tool uses");

        for tool_use in tool_uses {
            assert!(at(tool_use, "id").is_string(), "Tool use should have ID");
            assert!(at(tool_use, "name").is_string(), "Tool use should have name");
            assert!(at(tool_use, "input").is_object(), "Tool use should have input");
        }
    }
}

#[test]
fn test_tool_result_detection() {
    let entry = create_tool_result_entry();

    assert!(is(at(&entry, "type"), "user"));

    let content = content_of(&entry);

    let has_tool_result = content.iter().any(|item| is(at(item, "type"), "tool_result"));
    assert!(has_tool_result, "Entry should contain tool_result");

    let tool_result = first_of_type(&entry, "tool_result");

    assert!(at(tool_result, "tool_use_id").is_string(), "Tool result should have tool_use_id");
    assert!(at(tool_result, "content").is_string(), "Tool result should have content");

    let result_content = at(tool_result, "content").as_str().unwrap();
    assert!(result_content.contains("Compiling"), "Result should contain expected output");
}

#[test]
fn test_specific_tool_parsing() {
    let bash_entry = create_bash_tool_entry();
    let bash_tool = first_of_type(&bash_entry, "tool_use");

    assert!(is(at(bash_tool, "name"), "Bash"));
    assert!(is(at(at(bash_tool, "input"), "command"), "cargo test --verbose"));
    assert!(is(at(at(bash_tool, "input"), "description"), "Run tests with verbose output"));

    let read_entry = create_read_tool_entry();
    let read_tool = first_of_type(&read_entry, "tool_use");

    assert!(is(at(read_tool, "name"), "Read"));
    assert!(at(at(read_tool, "input"), "file_path").as_str().unwrap().ends_with("main.rs"));
    assert_eq!(at(read_tool, "input").get_u64("offset"), Some(100));
    assert_eq!(at(read_tool, "input").get_u64("limit"), Some(50));

    let multiedit_entry = create_multiedit_tool_entry();
    let multiedit_tool = first_of_type(&multiedit_entry, "tool_use");

    assert!(is(at(multiedit_tool, "name"), "MultiEdit"));
    let edits = at(multiedit_tool, "input").get_array("edits").unwrap();
    assert_eq!(edits.len(), 2);
    assert!(is(at(&edits[0], "old_string"), "old code here"));
    assert_eq!(edits[1].get_bool("replace_all"), Some(true));
}

#[test]
fn test_todowrite_tool_structure() {
    let todo_entry = create_todowrite_tool_entry();
    let todo_tool = first_of_type(&todo_entry, "tool_use");

    assert!(is(at(todo_tool, "name"), "TodoWrite"));

    let todos = at(todo_tool, "input").get_array("todos").unwrap();
    assert_eq!(todos.len(), 3);

    for todo in todos {
        assert!(at(todo, "content").is_string());
        assert!(at(todo, "status").is_string());
        assert!(at(todo, "priority").is_string());
        assert!(at(todo, "id").is_string());
    }

    assert!(is(at(&todos[0], "status"), "pending"));
    assert!(is(at(&todos[0], "priority"), "high"));
    assert!(is(at(&todos[1], "status"), "in_progress"));
    assert!(is(at(&todos[2], "status"), "completed"));
}

#[test]
fn test_mixed_content_parsing() {
    let mixed_entry = create_mixed_content_entry();
    let content = content_of(&mixed_entry);

    let text_items: Vec<_> = content.iter().filter(|item| is(at(item, "type"), "text")).collect();
    let tool_items: Vec<_> =
        content.iter().filter(|item| is(at(item, "type"), "tool_use")).collect();

    assert_eq!(text_items.len(), 2, "Should have 2 text items");
    assert_eq!(tool_items.len(), 2, "Should have 2 tool_use items");

    assert!(is(at(&content[0], "type"), "text"));
    assert!(is(at(&content[1], "type"), "tool_use"));
    assert!(is(at(&content[2], "type"), "text"));
    assert!(is(at(&content[3], "type"), "tool_use"));

    assert!(is(at(&content[1], "name"), "Read"));
    assert!(is(at(&content[3], "name"), "Bash"));
}

#[test]
fn test_tool_result_correlation() {
    let tool_use_entry = create_bash_tool_entry();
    let tool_result_entry = create_tool_result_entry();

    let tool_use = first_of_type(&tool_use_entry, "tool_use");
    let tool_use_id = at(tool_use, "id").as_str().unwrap();

    let tool_result = first_of_type(&tool_result_entry, "tool_result");
    let result_tool_id = at(tool_result, "tool_use_id").as_str().unwrap();

    assert_eq!(tool_use_id, result_tool_id, "Tool use ID should match result tool_use_id");
    assert_eq!(tool_use_id, "toolu_bash123");
}

#[test]
fn test_edge_cases() {
    let empty_content_entry =
        entry("assistant", "assistant", vec![], "2024-01-15T10:00:00Z", "empty-uuid");
    let content = content_of(&empty_content_entry);
    assert_eq!(content.len(), 0);

    let malformed_entry = entry(
        "assistant",
        "assistant",
        vec![object(vec![("type", text("tool_use"))])],
        "2024-01-15T10:00:00Z",
        "malformed-uuid",
    );
    let malformed_content = content_of(&malformed_entry);
    let tool_use = &malformed_content[0];

    assert!(is(at(tool_use, "type"), "tool_use"));
    assert!(at(tool_use, "id").is_null());
    assert!(at(tool_use, "name").is_null());
    assert!(at(tool_use, "input").is_null());
}

#[test]
fn test_tool_input_validation() {
    let tools = vec![
        ("Bash", object(vec![("command", text("ls")), ("description", text("List files"))])),
        ("Read", object(vec![("file_path", text("/path/to/file"))])),
        (
            "Edit",
            object(vec![
                ("file_path", text("/path")),
                ("old_string", text("old")),
                ("new_string", text("new")),
            ]),
        ),
        ("Glob", object(vec![("pattern", text("*.rs")), ("path", text("/src"))])),
        (
            "Grep",
            object(vec![
                ("pattern", text("search")),
                ("path", text("/src")),
                ("output_mode", text("content")),
            ]),
        ),
    ];

    for (tool_name, input) in tools {
        let tool_entry = entry(
            "assistant",
            "assistant",
            vec![tool_use(&format!("tool_{}", tool_name.to_lowercase()), tool_name, input)],
            "2024-01-15T10:00:00Z",
            &format!("{}-uuid", tool_name.to_lowercase()),
        );

        let tool = &content_of(&tool_entry)[0];
        assert!(tool.as_object().is_some());

        assert!(is(at(tool, "name"), tool_name));
        assert!(at(tool, "input").is_object());

        match tool_name {
            "Bash" => {
                assert!(at(at(tool, "input"), "command").is_string());
            }
            "Read" => {
                assert!(at(at(tool, "input"), "file_path").is_string());
            }
            "Edit" => {
                assert!(at(at(tool, "input"), "file_path").is_string());
                assert!(at(at(tool, "input"), "old_string").is_string());
                assert!(at(at(tool, "input"), "new_string").is_string());
            }
            _ => {}
        }
    }
}
