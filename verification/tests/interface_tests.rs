use cc_log_viewer::tui::{
    product_conversation_export, welcome_message, conversation_export, conversation_line, conversation_title, entry_time, export_status,
    margin_percent, message_content, message_role, project_label, session_label, sessions_title,
    status_line, visible_range, AppMode, Command, Cursor, Key, TuiState,
};
use cc_log_viewer::{Json, JsonNumber, LogEntry, ProjectSummary, SessionSummary, Timestamp};

fn text(value: &str) -> Json {
    Json::Text(value.to_string())
}

fn object(members: Vec<(&str, Json)>) -> Json {
    Json::Object(members.into_iter().map(|(k, v)| (k.to_string(), v)).collect())
}

fn entry(message: Option<Json>, timestamp: Option<Timestamp>) -> LogEntry {
    LogEntry {
        entry_type: None,
        summary: None,
        parent_uuid: None,
        is_sidechain: None,
        user_type: None,
        cwd: None,
        session_id: None,
        version: None,
        message,
        uuid: None,
        timestamp,
        request_id: None,
        leaf_uuid: None,
        tool_use_result: None,
    }
}

fn said(role: &str, content: &str) -> LogEntry {
    entry(
        Some(object(vec![("role", text(role)), ("content", text(content))])),
        Some(Timestamp { secs: 1_705_312_800, nanos: 0 }),
    )
}

fn project(name: &str) -> ProjectSummary {
    ProjectSummary {
        name: name.to_string(),
        path: format!("/p/{}", name),
        session_count: 2,
        latest_activity: Some(Timestamp { secs: 1_705_312_800, nanos: 0 }),
    }
}

fn session(id: &str) -> SessionSummary {
    SessionSummary {
        id: id.to_string(),
        summary: format!("Test Session {}", id),
        timestamp: Timestamp { secs: 1_705_312_800, nanos: 0 },
        message_count: 3,
        project_name: "test-project".to_string(),
    }
}

fn loaded() -> TuiState {
    let mut state = TuiState::new("Welcome".to_string());
    state.projects_loaded(Ok(vec![project("a"), project("b"), project("c")]));
    state
}

#[test]
fn the_interface_starts_at_the_list_of_projects() {
    let state = TuiState::new("Welcome".to_string());
    assert_eq!(
        state.cursor,
        Cursor {
            mode: AppMode::ProjectList,
            selected_project: Some(0),
            selected_session: None,
            selected_message: None,
            project_row: Some(0),
            session_row: None,
            message_row: None,
            scroll_offset: 0,
            should_quit: false,
        }
    );
    assert!(state.projects.is_empty());
    assert!(state.sessions.is_empty());
    assert!(state.conversation.is_empty());
    assert_eq!(state.status_message, "Welcome");
}

#[test]
fn q_quits_in_every_mode() {
    let mut state = loaded();
    assert_eq!(state.press(Key::Char('q')), Command::Nothing);
    assert!(state.cursor.should_quit);
    assert_eq!(state.cursor.mode, AppMode::ProjectList);
}

#[test]
fn up_and_down_move_the_selection_within_the_list() {
    let mut state = loaded();
    assert_eq!(state.press(Key::Up), Command::Nothing);
    assert_eq!(state.cursor.selected_project, Some(0));
    state.press(Key::Down);
    assert_eq!(state.cursor.selected_project, Some(1));
    assert_eq!(state.cursor.project_row, Some(1));
    state.press(Key::Down);
    state.press(Key::Down);
    assert_eq!(state.cursor.selected_project, Some(2));
    state.press(Key::Up);
    assert_eq!(state.cursor.selected_project, Some(1));
    state.press(Key::Other);
    state.press(Key::Char('x'));
    assert_eq!(state.cursor.selected_project, Some(1));
}

#[test]
fn enter_opens_the_selected_project_and_session() {
    let mut state = loaded();
    state.press(Key::Down);
    let command = state.press(Key::Enter);
    assert_eq!(command, Command::OpenProject { project: 1 });
    assert_eq!(state.cursor.mode, AppMode::ProjectList);
    state.sessions_loaded(Some(vec![session("1"), session("2")]));
    state.complete(command);
    assert_eq!(state.cursor.mode, AppMode::SessionList);
    assert_eq!(state.cursor.selected_session, Some(0));
    assert_eq!(state.cursor.session_row, Some(0));

    state.press(Key::Down);
    let command = state.press(Key::Enter);
    assert_eq!(command, Command::OpenSession { project: 1, session: 1 });
    state.conversation_loaded(Some(vec![said("user", "Hello from session")]));
    state.complete(command);
    assert_eq!(state.cursor.mode, AppMode::ConversationView);
    assert_eq!(state.cursor.selected_message, Some(0));
    assert_eq!(state.cursor.scroll_offset, 0);
    assert_eq!(state.press(Key::Enter), Command::Nothing);
}

#[test]
fn enter_does_nothing_without_a_selection_in_the_list() {
    let mut state = TuiState::new(String::new());
    assert_eq!(state.press(Key::Enter), Command::Nothing);
    state.projects_loaded(Ok(vec![]));
    assert_eq!(state.cursor.selected_project, None);
    assert_eq!(state.status_message, "No projects found");
    assert_eq!(state.press(Key::Enter), Command::Nothing);
    assert_eq!(state.press(Key::Down), Command::Nothing);
    assert_eq!(state.cursor.selected_project, None);
}

#[test]
fn escape_goes_back_and_empties_the_list_that_is_left() {
    let mut state = loaded();
    let open = state.press(Key::Enter);
    state.sessions_loaded(Some(vec![session("1")]));
    state.complete(open);
    let open = state.press(Key::Enter);
    state.conversation_loaded(Some(vec![said("user", "a"), said("assistant", "b")]));
    state.complete(open);
    state.press(Key::Down);
    assert_eq!(state.cursor.scroll_offset, 1);
    state.press(Key::Down);
    assert_eq!(state.cursor.scroll_offset, 1);

    assert_eq!(state.press(Key::Char('e')), Command::Nothing);
    assert_eq!(state.cursor.mode, AppMode::Export);
    state.press(Key::Esc);
    assert_eq!(state.cursor.mode, AppMode::ConversationView);
    assert_eq!(state.conversation.len(), 2);

    state.press(Key::Esc);
    assert_eq!(state.cursor.mode, AppMode::SessionList);
    assert_eq!(state.cursor.selected_message, None);
    assert_eq!(state.cursor.scroll_offset, 0);
    assert!(state.conversation.is_empty());
    assert_eq!(state.sessions.len(), 1);

    state.press(Key::Esc);
    assert_eq!(state.cursor.mode, AppMode::ProjectList);
    assert_eq!(state.cursor.selected_session, None);
    assert!(state.sessions.is_empty());
    assert_eq!(state.projects.len(), 3);

    state.press(Key::Esc);
    assert_eq!(state.cursor.mode, AppMode::ProjectList);
}

#[test]
fn export_is_offered_in_the_conversation_only() {
    let mut state = loaded();
    state.press(Key::Char('e'));
    assert_eq!(state.cursor.mode, AppMode::ProjectList);
    assert_eq!(state.press(Key::Char('s')), Command::Nothing);

    let open = state.press(Key::Enter);
    state.sessions_loaded(Some(vec![session("1")]));
    state.complete(open);
    let open = state.press(Key::Enter);
    state.conversation_loaded(Some(vec![said("user", "a")]));
    state.complete(open);
    state.press(Key::Char('e'));
    let command = state.press(Key::Char('s'));
    assert_eq!(command, Command::SaveExport);
    assert_eq!(state.cursor.mode, AppMode::Export);
    state.complete(command);
    assert_eq!(state.cursor.mode, AppMode::ConversationView);
}

#[test]
fn r_reloads_what_the_mode_shows() {
    let mut state = loaded();
    let command = state.press(Key::Char('r'));
    assert_eq!(command, Command::ReloadProjects { manual: true });
    state.complete(command);
    assert_eq!(state.status_message, "Projects refreshed");
    assert_eq!(state.reload(false), Command::ReloadProjects { manual: false });
    state.complete(Command::ReloadProjects { manual: false });
    assert_eq!(state.status_message, "Projects refreshed");

    let open = state.press(Key::Enter);
    state.sessions_loaded(Some(vec![session("1")]));
    state.complete(open);
    let command = state.press(Key::Char('r'));
    assert_eq!(command, Command::ReloadSessions { project: 0, manual: true });
    state.complete(command);
    assert_eq!(state.status_message, "Sessions refreshed");

    let open = state.press(Key::Enter);
    state.conversation_loaded(Some(vec![]));
    state.complete(open);
    let command = state.press(Key::Char('r'));
    assert_eq!(command, Command::ReloadConversation { project: 0, session: 0, manual: true });
    state.complete(command);
    assert_eq!(state.status_message, "Conversation refreshed");

    state.press(Key::Char('e'));
    assert_eq!(state.press(Key::Char('r')), Command::Nothing);
    assert_eq!(state.reload(false), Command::Nothing);
}

#[test]
fn what_was_loaded_sets_the_selection_and_the_status() {
    let mut state = TuiState::new("w".to_string());
    state.projects_loaded(Err("disk on fire".to_string()));
    assert_eq!(state.status_message, "Failed to refresh projects: disk on fire");
    assert_eq!(state.cursor.selected_project, Some(0));

    state.projects_loaded(Ok(vec![]));
    assert_eq!(state.cursor.selected_project, None);
    assert_eq!(state.cursor.project_row, None);
    state.projects_loaded(Ok(vec![project("a")]));
    assert_eq!(state.cursor.selected_project, Some(0));
    assert_eq!(state.cursor.project_row, Some(0));

    state.sessions_loaded(None);
    assert_eq!(state.status_message, "Project directory not found");
    state.sessions_loaded(Some(vec![]));
    assert_eq!(state.status_message, "No sessions found in project");
    assert_eq!(state.cursor.selected_session, None);
    state.sessions_loaded(Some(vec![session("1"), session("2")]));
    assert_eq!(state.cursor.selected_session, Some(0));
    assert_eq!(state.sessions.len(), 2);

    state.conversation_loaded(None);
    assert_eq!(state.status_message, "Session file not found");
    state.conversation_loaded(Some(vec![said("user", "x")]));
    assert_eq!(state.conversation.len(), 1);
    assert_eq!(state.cursor.scroll_offset, 0);
}

#[test]
fn status_lines() {
    assert_eq!(status_line(AppMode::ProjectList, "m"), "m | q: Quit, r: Refresh");
    assert_eq!(status_line(AppMode::SessionList, "m"), "m | Esc: Back, r: Refresh");
    assert_eq!(
        status_line(AppMode::ConversationView, "m"),
        "m | Esc: Back, e: Export, r: Refresh"
    );
    assert_eq!(status_line(AppMode::Export, "m"), "m | s: Save, Esc: Cancel");
    assert_eq!(export_status(true, "conversation_export.txt"), "Conversation exported to conversation_export.txt");
    assert_eq!(export_status(false, "x"), "No conversation to export");
}

#[test]
fn roles_contents_and_times() {
    let message = object(vec![("role", text("user")), ("content", text("hi"))]);
    assert_eq!(message_role(&message), "user");
    assert_eq!(message_content(&message), "hi");
    let structured = object(vec![(
        "content",
        Json::Array(vec![
            object(vec![("type", text("text")), ("n", Json::Number(JsonNumber::PosInt(1)))]),
            Json::Null,
        ]),
    )]);
    assert_eq!(message_role(&structured), "system");
    assert_eq!(message_content(&structured), "[{\"n\":1,\"type\":\"text\"},null]");
    assert_eq!(message_content(&object(vec![])), "No content");
    assert_eq!(message_content(&Json::Null), "No content");

    let timed = entry(None, Some(Timestamp { secs: 1_705_312_800, nanos: 5 }));
    assert_eq!(entry_time(&timed, "%H:%M:%S"), "10:00:00");
    assert_eq!(entry_time(&timed, "%Y-%m-%d %H:%M:%S"), "2024-01-15 10:00:00");
    assert_eq!(entry_time(&entry(None, None), "%H:%M:%S"), "Unknown");
    let beyond = entry(None, Some(Timestamp { secs: i64::MIN, nanos: 0 }));
    assert_eq!(entry_time(&beyond, "%H:%M:%S"), "Unknown");
}

#[test]
fn conversation_lines() {
    let line = conversation_line(&said("user", "Hello"));
    assert_eq!(line.role, "user");
    assert_eq!(line.label, "\u{1F464} [10:00:00] ");
    assert_eq!(line.text, "Hello");
    assert!(!line.truncated);

    let line = conversation_line(&said("assistant", &"x".repeat(121)));
    assert_eq!(line.label, "\u{1F916} [10:00:00] ");
    assert_eq!(line.text, "x".repeat(120));
    assert!(line.truncated);

    let wide = "\u{4e2d}".repeat(100);
    let line = conversation_line(&said("tool", &wide));
    assert_eq!(line.label, "\u{2139}\u{FE0F} [10:00:00] ");
    assert_eq!(line.text, wide);
    assert!(line.truncated);

    let line = conversation_line(&entry(None, None));
    assert_eq!(line.role, "system");
    assert_eq!(line.label, "\u{2139}\u{FE0F} [Unknown] ");
    assert_eq!(line.text, "No content");
}

#[test]
fn the_export_of_a_conversation() {
    let entries = vec![
        said("user", "Hello from session"),
        entry(None, None),
        entry(Some(object(vec![("content", Json::Bool(true))])), None),
        said("assistant", "Unicode test: \u{1F44B} \u{4e2d}\u{6587}"),
    ];
    assert_eq!(
        conversation_export(&entries, "A Product Conversation Export"),
        "A Product Conversation Export\n================================\n\n\
[2024-01-15 10:00:00] USER: Hello from session\n\n\
[Unknown] SYSTEM: true\n\n\
[2024-01-15 10:00:00] ASSISTANT: Unicode test: \u{1F44B} \u{4e2d}\u{6587}\n\n"
    );
    assert_eq!(
        conversation_export(&[], "A Product Conversation Export"),
        "A Product Conversation Export\n================================\n\n"
    );
}

#[test]
fn the_visible_part_of_a_conversation() {
    assert_eq!(visible_range(0, 10, 7), (0, 5));
    assert_eq!(visible_range(8, 10, 7), (8, 10));
    assert_eq!(visible_range(12, 10, 7), (10, 10));
    assert_eq!(visible_range(0, 10, 1), (0, 0));
    assert_eq!(visible_range(0, 10, 2), (0, 0));
    assert_eq!(visible_range(3, 10, u16::MAX), (3, 10));
    assert_eq!(visible_range(0, 0, 50), (0, 0));
}

#[test]
fn labels_and_titles() {
    let (name, detail) = project_label(&project("a"));
    assert_eq!(name, "\u{1F4C1} a");
    assert_eq!(detail, " (2 sessions, last: 2024-01-15 10:00)");
    let mut idle = project("b");
    idle.latest_activity = None;
    assert_eq!(project_label(&idle).1, " (2 sessions, last: No activity)");
    let (name, detail) = session_label(&session("1"));
    assert_eq!(name, "\u{1F4AC} Test Session 1");
    assert_eq!(detail, " (3 messages, 2024-01-15 10:00)");
    assert_eq!(
        sessions_title(Some("proj")),
        "Sessions in proj (\u{2191}/\u{2193} to navigate, Enter to select, Esc to go back)"
    );
    assert_eq!(sessions_title(None), "Sessions");
    assert_eq!(
        conversation_title(Some(("proj", "sum"))),
        "Conversation: proj / sum (\u{2191}/\u{2193} to scroll, e to export, Esc to go back)"
    );
    assert_eq!(conversation_title(None), "Conversation");
    assert_eq!(margin_percent(60), 20);
    assert_eq!(margin_percent(20), 40);
    assert_eq!(margin_percent(100), 0);
    assert_eq!(margin_percent(0), 50);
}

#[test]
fn the_texts_of_a_product_name_the_product() {
    assert_eq!(welcome_message("Some Product"), "Welcome to Some Product Log Viewer TUI");
    assert_eq!(welcome_message(""), "Welcome to Log Viewer TUI");
    assert_eq!(
        product_conversation_export(&[], "Some Product"),
        "Some Product Conversation Export\n================================\n\n"
    );
    assert_eq!(
        product_conversation_export(&[], ""),
        "Conversation Export\n================================\n\n"
    );
    let entries = vec![said("user", "Hello")];
    assert_eq!(
        product_conversation_export(&entries, "Some Product"),
        conversation_export(&entries, "Some Product Conversation Export")
    );
    let state = TuiState::new(welcome_message("Some Product"));
    assert_eq!(state.status_message, "Welcome to Some Product Log Viewer TUI");
}
