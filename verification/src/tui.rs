//! The terminal interface without the terminal: where the selection
//! stands, what a key does to it, and the texts that are shown.

use crate::events::{format_instant, formatted_instant, LogEntry, ProjectSummary, SessionSummary};
use crate::export::{instant_text, string_text};
use crate::json::{compact_text, to_compact, Json};
use crate::text::str_eq;
use crate::text::{for_product, product_text, decimal, decimal_text, join3, push_char, to_uppercase, uppercased};
use vstd::prelude::*;
use vstd::string::StringExecFns;

verus! {

/// What the interface shows.
#[derive(Debug, Clone, Copy, PartialEq, Eq, Structural)]
pub enum AppMode {
    ProjectList,
    SessionList,
    ConversationView,
    Export,
}

/// A key that was pressed.
#[derive(Debug, Clone, Copy, PartialEq, Eq, Structural)]
pub enum Key {
    Char(char),
    Esc,
    Enter,
    Up,
    Down,
    Other,
}

/// Where the selection stands.
#[derive(Debug, Clone, Copy, PartialEq, Eq, Structural)]
pub struct Cursor {
    pub mode: AppMode,
    pub selected_project: Option<usize>,
    pub selected_session: Option<usize>,
    pub selected_message: Option<usize>,
    /// The row that the list of projects highlights.
    pub project_row: Option<usize>,
    /// The row that the list of sessions highlights.
    pub session_row: Option<usize>,
    /// The row that the list of messages highlights.
    pub message_row: Option<usize>,
    pub scroll_offset: usize,
    pub should_quit: bool,
}

/// What has to be read or written before the interface goes on.
#[derive(Debug, Clone, Copy, PartialEq, Eq, Structural)]
pub enum Command {
    /// Nothing.
    Nothing,
    /// Load the sessions of the project, then show them.
    OpenProject { project: usize },
    /// Load the conversation of the session, then show it.
    OpenSession { project: usize, session: usize },
    /// Load the projects again.
    ReloadProjects { manual: bool },
    /// Load the sessions of the project again.
    ReloadSessions { project: usize, manual: bool },
    /// Load the conversation of the session again.
    ReloadConversation { project: usize, session: usize, manual: bool },
    /// Write the conversation to the export file, then show it again.
    SaveExport,
}

/// One less, but not below zero.
pub open spec fn minus_one(n: usize) -> usize {
    if n == 0 {
        0
    } else {
        (n - 1) as usize
    }
}

/// The project that is selected, where the list has it.
pub open spec fn chosen_project(cursor: Cursor, projects: nat) -> Option<usize> {
    match cursor.selected_project {
        Some(project) => if project < projects {
            Some(project)
        } else {
            None
        },
        None => None,
    }
}

/// The project and the session that are selected, where the lists have
/// them.
pub open spec fn chosen_session(cursor: Cursor, projects: nat, sessions: nat) -> Option<
    (usize, usize),
> {
    match (cursor.selected_session, chosen_project(cursor, projects)) {
        (Some(session), Some(project)) => if session < sessions {
            Some((project, session))
        } else {
            None
        },
        _ => None,
    }
}

/// What is loaded again for the mode, by hand or by the clock.
pub open spec fn reload_command(cursor: Cursor, projects: nat, sessions: nat, manual: bool) -> Command {
    match cursor.mode {
        AppMode::ProjectList => Command::ReloadProjects { manual },
        AppMode::SessionList => match chosen_project(cursor, projects) {
            Some(project) => Command::ReloadSessions { project, manual },
            None => Command::Nothing,
        },
        AppMode::ConversationView => match chosen_session(cursor, projects, sessions) {
            Some((project, session)) => Command::ReloadConversation { project, session, manual },
            None => Command::Nothing,
        },
        AppMode::Export => Command::Nothing,
    }
}

/// What a key asks to be read or written.
pub open spec fn key_command(cursor: Cursor, key: Key, projects: nat, sessions: nat) -> Command {
    match key {
        Key::Enter => match cursor.mode {
            AppMode::ProjectList => match chosen_project(cursor, projects) {
                Some(project) => Command::OpenProject { project },
                None => Command::Nothing,
            },
            AppMode::SessionList => match chosen_session(cursor, projects, sessions) {
                Some((project, session)) => Command::OpenSession { project, session },
                None => Command::Nothing,
            },
            _ => Command::Nothing,
        },
        Key::Char(c) => if c == 'r' {
            reload_command(cursor, projects, sessions, true)
        } else if c == 's' && cursor.mode == AppMode::Export {
            Command::SaveExport
        } else {
            Command::Nothing
        },
        _ => Command::Nothing,
    }
}

/// Where the selection stands after a key, before anything that the key
/// asked for has been read or written.
pub open spec fn cursor_after_key(
    cursor: Cursor,
    key: Key,
    projects: nat,
    sessions: nat,
    messages: nat,
) -> Cursor {
    match key {
        Key::Char(c) => if c == 'q' {
            Cursor { should_quit: true, ..cursor }
        } else if c == 'e' && cursor.mode == AppMode::ConversationView {
            Cursor { mode: AppMode::Export, ..cursor }
        } else {
            cursor
        },
        Key::Esc => match cursor.mode {
            AppMode::SessionList => Cursor {
                mode: AppMode::ProjectList,
                selected_session: None,
                ..cursor
            },
            AppMode::ConversationView => Cursor {
                mode: AppMode::SessionList,
                selected_message: None,
                scroll_offset: 0,
                ..cursor
            },
            AppMode::Export => Cursor { mode: AppMode::ConversationView, ..cursor },
            AppMode::ProjectList => cursor,
        },
        Key::Up => match cursor.mode {
            AppMode::ProjectList => match cursor.selected_project {
                Some(row) => if row > 0 {
                    Cursor {
                        selected_project: Some((row - 1) as usize),
                        project_row: Some((row - 1) as usize),
                        ..cursor
                    }
                } else {
                    cursor
                },
                None => cursor,
            },
            AppMode::SessionList => match cursor.selected_session {
                Some(row) => if row > 0 {
                    Cursor {
                        selected_session: Some((row - 1) as usize),
                        session_row: Some((row - 1) as usize),
                        ..cursor
                    }
                } else {
                    cursor
                },
                None => cursor,
            },
            AppMode::ConversationView => Cursor {
                scroll_offset: minus_one(cursor.scroll_offset),
                ..cursor
            },
            AppMode::Export => cursor,
        },
        Key::Down => match cursor.mode {
            AppMode::ProjectList => match cursor.selected_project {
                Some(row) => if row + 1 < projects {
                    Cursor {
                        selected_project: Some((row + 1) as usize),
                        project_row: Some((row + 1) as usize),
                        ..cursor
                    }
                } else {
                    cursor
                },
                None => cursor,
            },
            AppMode::SessionList => match cursor.selected_session {
                Some(row) => if row + 1 < sessions {
                    Cursor {
                        selected_session: Some((row + 1) as usize),
                        session_row: Some((row + 1) as usize),
                        ..cursor
                    }
                } else {
                    cursor
                },
                None => cursor,
            },
            AppMode::ConversationView => if cursor.scroll_offset + 1 < messages {
                Cursor { scroll_offset: (cursor.scroll_offset + 1) as usize, ..cursor }
            } else {
                cursor
            },
            AppMode::Export => cursor,
        },
        _ => cursor,
    }
}

/// Where the selection stands once what a command asked for has been read
/// or written.
pub open spec fn cursor_after_command(cursor: Cursor, command: Command) -> Cursor {
    match command {
        Command::OpenProject { .. } => Cursor {
            mode: AppMode::SessionList,
            selected_session: Some(0),
            session_row: Some(0),
            ..cursor
        },
        Command::OpenSession { .. } => Cursor {
            mode: AppMode::ConversationView,
            selected_message: Some(0),
            message_row: Some(0),
            ..cursor
        },
        Command::SaveExport => Cursor { mode: AppMode::ConversationView, ..cursor },
        _ => cursor,
    }
}

/// What the status line says once a reload by hand is done.
pub open spec fn status_after_command(status: Seq<char>, command: Command) -> Seq<char> {
    match command {
        Command::ReloadProjects { manual: true } => "Projects refreshed"@,
        Command::ReloadSessions { manual: true, .. } => "Sessions refreshed"@,
        Command::ReloadConversation { manual: true, .. } => "Conversation refreshed"@,
        _ => status,
    }
}

/// The selection of a list that has been loaded again: none for an empty
/// list, the first row where nothing was selected, else as before.
pub open spec fn selection_after_load(selected: Option<usize>, loaded: nat) -> Option<usize> {
    if loaded == 0 {
        None
    } else if selected is None {
        Some(0)
    } else {
        selected
    }
}

/// The state of the interface: the selection, the lists and the status line.
#[derive(Debug, Clone)]
pub struct TuiState {
    pub cursor: Cursor,
    pub projects: Vec<ProjectSummary>,
    pub sessions: Vec<SessionSummary>,
    pub conversation: Vec<LogEntry>,
    pub status_message: String,
}

impl TuiState {
    /// The interface at its start: the list of projects, its first row
    /// selected, nothing loaded.
    pub fn new(welcome: String) -> (state: TuiState)
        ensures
            state.cursor == (Cursor {
                mode: AppMode::ProjectList,
                selected_project: Some(0),
                selected_session: None,
                selected_message: None,
                project_row: Some(0),
                session_row: None,
                message_row: None,
                scroll_offset: 0,
                should_quit: false,
            }),
            state.projects@.len() == 0,
            state.sessions@.len() == 0,
            state.conversation@.len() == 0,
            state.status_message == welcome,
    {
        TuiState {
            cursor: Cursor {
                mode: AppMode::ProjectList,
                selected_project: Some(0),
                selected_session: None,
                selected_message: None,
                project_row: Some(0),
                session_row: None,
                message_row: None,
                scroll_offset: 0,
                should_quit: false,
            },
            projects: Vec::new(),
            sessions: Vec::new(),
            conversation: Vec::new(),
            status_message: welcome,
        }
    }

    /// The project that is selected, where the list has it.
    fn chosen_project(&self) -> (chosen: Option<usize>)
        ensures
            chosen == chosen_project(self.cursor, self.projects@.len()),
    {
        match self.cursor.selected_project {
            Some(project) => if project < self.projects.len() {
                Some(project)
            } else {
                None
            },
            None => None,
        }
    }

    /// The project and the session that are selected, where the lists have
    /// them.
    fn chosen_session(&self) -> (chosen: Option<(usize, usize)>)
        ensures
            chosen == chosen_session(self.cursor, self.projects@.len(), self.sessions@.len()),
    {
        match (self.cursor.selected_session, self.chosen_project()) {
            (Some(session), Some(project)) => if session < self.sessions.len() {
                Some((project, session))
            } else {
                None
            },
            _ => None,
        }
    }

    /// What is loaded again for the mode that is shown: by hand, on the key
    /// `r`, or by the clock.
    pub fn reload(&self, manual: bool) -> (command: Command)
        ensures
            command == reload_command(
                self.cursor,
                self.projects@.len(),
                self.sessions@.len(),
                manual,
            ),
    {
        match self.cursor.mode {
            AppMode::ProjectList => Command::ReloadProjects { manual },
            AppMode::SessionList => match self.chosen_project() {
                Some(project) => Command::ReloadSessions { project, manual },
                None => Command::Nothing,
            },
            AppMode::ConversationView => match self.chosen_session() {
                Some((project, session)) => Command::ReloadConversation {
                    project,
                    session,
                    manual,
                },
                None => Command::Nothing,
            },
            AppMode::Export => Command::Nothing,
        }
    }

    /// Handles a key: moves the selection as far as that needs nothing to
    /// be read or written, and returns what has to be read or written
    /// otherwise. Leaving a list by `Esc` empties it.
    pub fn press(&mut self, key: Key) -> (command: Command)
        ensures
            command == key_command(
                old(self).cursor,
                key,
                old(self).projects@.len(),
                old(self).sessions@.len(),
            ),
            final(self).cursor == cursor_after_key(
                old(self).cursor,
                key,
                old(self).projects@.len(),
                old(self).sessions@.len(),
                old(self).conversation@.len(),
            ),
            final(self).projects == old(self).projects,
            final(self).status_message == old(self).status_message,
            final(self).sessions@ == (if key == Key::Esc && old(self).cursor.mode
                == AppMode::SessionList {
                Seq::empty()
            } else {
                old(self).sessions@
            }),
            final(self).conversation@ == (if key == Key::Esc && old(self).cursor.mode
                == AppMode::ConversationView {
                Seq::empty()
            } else {
                old(self).conversation@
            }),
    {
        let cursor = self.cursor;
        match key {
            Key::Char(c) => {
                if c == 'q' {
                    self.cursor.should_quit = true;
                    Command::Nothing
                } else if c == 'e' {
                    if cursor.mode == AppMode::ConversationView {
                        self.cursor.mode = AppMode::Export;
                    }
                    Command::Nothing
                } else if c == 'r' {
                    self.reload(true)
                } else if c == 's' && cursor.mode == AppMode::Export {
                    Command::SaveExport
                } else {
                    Command::Nothing
                }
            },
            Key::Esc => {
                match cursor.mode {
                    AppMode::SessionList => {
                        self.cursor.mode = AppMode::ProjectList;
                        self.cursor.selected_session = None;
                        self.sessions.clear();
                    },
                    AppMode::ConversationView => {
                        self.cursor.mode = AppMode::SessionList;
                        self.cursor.selected_message = None;
                        self.conversation.clear();
                        self.cursor.scroll_offset = 0;
                    },
                    AppMode::Export => {
                        self.cursor.mode = AppMode::ConversationView;
                    },
                    AppMode::ProjectList => {},
                }
                Command::Nothing
            },
            Key::Enter => match cursor.mode {
                AppMode::ProjectList => match self.chosen_project() {
                    Some(project) => Command::OpenProject { project },
                    None => Command::Nothing,
                },
                AppMode::SessionList => match self.chosen_session() {
                    Some((project, session)) => Command::OpenSession { project, session },
                    None => Command::Nothing,
                },
                _ => Command::Nothing,
            },
            Key::Up => {
                match cursor.mode {
                    AppMode::ProjectList => match cursor.selected_project {
                        Some(row) => if row > 0 {
                            self.cursor.selected_project = Some(row - 1);
                            self.cursor.project_row = Some(row - 1);
                        },
                        None => {},
                    },
                    AppMode::SessionList => match cursor.selected_session {
                        Some(row) => if row > 0 {
                            self.cursor.selected_session = Some(row - 1);
                            self.cursor.session_row = Some(row - 1);
                        },
                        None => {},
                    },
                    AppMode::ConversationView => {
                        if cursor.scroll_offset > 0 {
                            self.cursor.scroll_offset = cursor.scroll_offset - 1;
                        }
                    },
                    AppMode::Export => {},
                }
                Command::Nothing
            },
            Key::Down => {
                match cursor.mode {
                    AppMode::ProjectList => match cursor.selected_project {
                        Some(row) => if row < self.projects.len() && row + 1 < self.projects.len() {
                            self.cursor.selected_project = Some(row + 1);
                            self.cursor.project_row = Some(row + 1);
                        },
                        None => {},
                    },
                    AppMode::SessionList => match cursor.selected_session {
                        Some(row) => if row < self.sessions.len() && row + 1 < self.sessions.len() {
                            self.cursor.selected_session = Some(row + 1);
                            self.cursor.session_row = Some(row + 1);
                        },
                        None => {},
                    },
                    AppMode::ConversationView => {
                        if cursor.scroll_offset < self.conversation.len() && cursor.scroll_offset
                            + 1 < self.conversation.len() {
                            self.cursor.scroll_offset = cursor.scroll_offset + 1;
                        }
                    },
                    AppMode::Export => {},
                }
                Command::Nothing
            },
            Key::Other => Command::Nothing,
        }
    }

    /// Takes in the projects that were loaded, or the reason why they could
    /// not be. Projects that could not be loaded leave everything but the
    /// status line as it was.
    pub fn projects_loaded(&mut self, loaded: Result<Vec<ProjectSummary>, String>)
        ensures
            final(self).sessions == old(self).sessions,
            final(self).conversation == old(self).conversation,
            match loaded {
                Ok(projects) => {
                    &&& final(self).projects == projects
                    &&& final(self).cursor == (Cursor {
                        selected_project: selection_after_load(
                            old(self).cursor.selected_project,
                            projects@.len(),
                        ),
                        project_row: if projects@.len() == 0 {
                            None
                        } else if old(self).cursor.selected_project is None {
                            Some(0)
                        } else {
                            old(self).cursor.project_row
                        },
                        ..old(self).cursor
                    })
                    &&& final(self).status_message@ == (if projects@.len() == 0 {
                        "No projects found"@
                    } else {
                        old(self).status_message@
                    })
                },
                Err(reason) => {
                    &&& final(self).projects == old(self).projects
                    &&& final(self).cursor == old(self).cursor
                    &&& final(self).status_message@ == "Failed to refresh projects: "@ + reason@
                },
            },
    {
        match loaded {
            Ok(projects) => {
                self.projects = projects;
                if self.projects.len() == 0 {
                    self.status_message = "No projects found".to_owned();
                    self.cursor.selected_project = None;
                    self.cursor.project_row = None;
                } else if self.cursor.selected_project.is_none() {
                    self.cursor.selected_project = Some(0);
                    self.cursor.project_row = Some(0);
                }
            },
            Err(reason) => {
                let mut message = String::from_str("Failed to refresh projects: ");
                message.append(reason.as_str());
                self.status_message = message;
            },
        }
    }

    /// Takes in the sessions that were loaded, or `None` where the
    /// directory of the project was not found.
    pub fn sessions_loaded(&mut self, loaded: Option<Vec<SessionSummary>>)
        ensures
            final(self).projects == old(self).projects,
            final(self).conversation == old(self).conversation,
            match loaded {
                Some(sessions) => {
                    &&& final(self).sessions == sessions
                    &&& final(self).cursor == (Cursor {
                        selected_session: selection_after_load(
                            old(self).cursor.selected_session,
                            sessions@.len(),
                        ),
                        session_row: if sessions@.len() == 0 {
                            None
                        } else if old(self).cursor.selected_session is None {
                            Some(0)
                        } else {
                            old(self).cursor.session_row
                        },
                        ..old(self).cursor
                    })
                    &&& final(self).status_message@ == (if sessions@.len() == 0 {
                        "No sessions found in project"@
                    } else {
                        old(self).status_message@
                    })
                },
                None => {
                    &&& final(self).sessions == old(self).sessions
                    &&& final(self).cursor == old(self).cursor
                    &&& final(self).status_message@ == "Project directory not found"@
                },
            },
    {
        match loaded {
            Some(sessions) => {
                self.sessions = sessions;
                if self.sessions.len() == 0 {
                    self.status_message = "No sessions found in project".to_owned();
                    self.cursor.selected_session = None;
                    self.cursor.session_row = None;
                } else if self.cursor.selected_session.is_none() {
                    self.cursor.selected_session = Some(0);
                    self.cursor.session_row = Some(0);
                }
            },
            None => {
                self.status_message = "Project directory not found".to_owned();
            },
        }
    }

    /// Takes in the conversation that was loaded, or `None` where the file
    /// of the session was not found. A loaded conversation is shown from
    /// its start.
    pub fn conversation_loaded(&mut self, loaded: Option<Vec<LogEntry>>)
        ensures
            final(self).projects == old(self).projects,
            final(self).sessions == old(self).sessions,
            match loaded {
                Some(entries) => {
                    &&& final(self).conversation == entries
                    &&& final(self).cursor == (Cursor { scroll_offset: 0, ..old(self).cursor })
                    &&& final(self).status_message == old(self).status_message
                },
                None => {
                    &&& final(self).conversation == old(self).conversation
                    &&& final(self).cursor == old(self).cursor
                    &&& final(self).status_message@ == "Session file not found"@
                },
            },
    {
        match loaded {
            Some(entries) => {
                self.conversation = entries;
                self.cursor.scroll_offset = 0;
            },
            None => {
                self.status_message = "Session file not found".to_owned();
            },
        }
    }

    /// Finishes a command once what it asked for has been read or written
    /// without failure: an opened list is shown with its first row
    /// selected, a reload by hand is reported on the status line, and after
    /// an export the conversation is shown again.
    pub fn complete(&mut self, command: Command)
        ensures
            final(self).cursor == cursor_after_command(old(self).cursor, command),
            final(self).status_message@ == status_after_command(
                old(self).status_message@,
                command,
            ),
            final(self).projects == old(self).projects,
            final(self).sessions == old(self).sessions,
            final(self).conversation == old(self).conversation,
    {
        match command {
            Command::OpenProject { .. } => {
                self.cursor.mode = AppMode::SessionList;
                self.cursor.selected_session = Some(0);
                self.cursor.session_row = Some(0);
            },
            Command::OpenSession { .. } => {
                self.cursor.mode = AppMode::ConversationView;
                self.cursor.selected_message = Some(0);
                self.cursor.message_row = Some(0);
            },
            Command::ReloadProjects { manual } => {
                if manual {
                    self.status_message = "Projects refreshed".to_owned();
                }
            },
            Command::ReloadSessions { manual, .. } => {
                if manual {
                    self.status_message = "Sessions refreshed".to_owned();
                }
            },
            Command::ReloadConversation { manual, .. } => {
                if manual {
                    self.status_message = "Conversation refreshed".to_owned();
                }
            },
            Command::SaveExport => {
                self.cursor.mode = AppMode::ConversationView;
            },
            Command::Nothing => {},
        }
    }
}

/// The keys that the status line offers in a mode.
pub open spec fn key_help(mode: AppMode) -> Seq<char> {
    match mode {
        AppMode::ProjectList => " | q: Quit, r: Refresh"@,
        AppMode::SessionList => " | Esc: Back, r: Refresh"@,
        AppMode::ConversationView => " | Esc: Back, e: Export, r: Refresh"@,
        AppMode::Export => " | s: Save, Esc: Cancel"@,
    }
}

/// The status line: the message, then the keys that the mode offers.
pub fn status_line(mode: AppMode, status_message: &str) -> (line: String)
    ensures
        line@ == status_message@ + key_help(mode),
{
    let mut line = String::from_str(status_message);
    match mode {
        AppMode::ProjectList => line.append(" | q: Quit, r: Refresh"),
        AppMode::SessionList => line.append(" | Esc: Back, r: Refresh"),
        AppMode::ConversationView => line.append(" | Esc: Back, e: Export, r: Refresh"),
        AppMode::Export => line.append(" | s: Save, Esc: Cancel"),
    }
    line
}

/// The role that a message states, or `system`.
pub open spec fn role_of(message: Json) -> Seq<char> {
    match message.text_at("role"@) {
        Some(role) => role,
        None => "system"@,
    }
}

/// The content of a message as text: a string as it is, any other value as
/// JSON, and "No content" where the message has none.
pub open spec fn content_of(message: Json) -> Seq<char> {
    match message.member_at("content"@) {
        Some(content) => match content.text() {
            Some(text) => text,
            None => compact_text(content),
        },
        None => "No content"@,
    }
}

/// The role that a message states, or `system`.
pub fn message_role(message: &Json) -> (role: String)
    ensures
        role@ == role_of(*message),
{
    match message.get_str("role") {
        Some(role) => role.to_owned(),
        None => "system".to_owned(),
    }
}

/// The content of a message as text.
pub fn message_content(message: &Json) -> (content: String)
    ensures
        content@ == content_of(*message),
{
    match message.get("content") {
        Some(content) => match content.as_str() {
            Some(text) => text.to_owned(),
            None => to_compact(content),
        },
        None => "No content".to_owned(),
    }
}

/// The time of an entry under a pattern, or "Unknown".
pub open spec fn time_or_unknown(entry: LogEntry, pattern: Seq<char>) -> Seq<char> {
    match instant_text(entry.timestamp, pattern) {
        Some(text) => text,
        None => "Unknown"@,
    }
}

/// The time of an entry under a pattern, or "Unknown".
pub fn entry_time(entry: &LogEntry, pattern: &str) -> (text: String)
    ensures
        text@ == time_or_unknown(*entry, pattern@),
{
    let formatted = match &entry.timestamp {
        Some(at) => format_instant(at, pattern),
        None => None,
    };
    match formatted {
        Some(text) => text,
        None => "Unknown".to_owned(),
    }
}

/// The icon shown for a role.
pub open spec fn role_icon(role: Seq<char>) -> Seq<char> {
    if role == "user"@ {
        "\u{1F464}"@
    } else if role == "assistant"@ {
        "\u{1F916}"@
    } else {
        "\u{2139}\u{FE0F}"@
    }
}

/// One line of the export of a conversation: nothing for an entry without
/// a message.
pub open spec fn export_line(entry: LogEntry) -> Seq<char> {
    match entry.message {
        Some(message) => "["@ + time_or_unknown(entry, "%Y-%m-%d %H:%M:%S"@) + "] "@ + uppercased(
            role_of(message),
        ) + ": "@ + content_of(message) + "\n\n"@,
        None => Seq::empty(),
    }
}

/// The lines of the export of a conversation.
pub open spec fn export_lines(entries: Seq<LogEntry>) -> Seq<char>
    decreases entries.len(),
{
    if entries.len() == 0 {
        Seq::empty()
    } else {
        export_lines(entries.drop_last()) + export_line(entries.last())
    }
}

/// The export of a conversation: the title on a line of its own, a rule,
/// and a line for every entry that has a message.
pub open spec fn conversation_export_text(entries: Seq<LogEntry>, title: Seq<char>) -> Seq<char> {
    title + "\n"@ + "================================\n\n"@ + export_lines(entries)
}

/// The export of a conversation as text, under the given title.
pub fn conversation_export(entries: &[LogEntry], title: &str) -> (text: String)
    ensures
        text@ == conversation_export_text(entries@, title@),
{
    let mut text = String::from_str(title);
    text.append("\n");
    text.append("================================\n\n");
    let ghost head = text@;
    let mut i: usize = 0;
    proof {
        assert(entries@.take(0) =~= Seq::<LogEntry>::empty());
        assert(head + export_lines(entries@.take(0)) =~= head);
    }
    while i < entries.len()
        invariant
            i <= entries.len(),
            head == title@ + "\n"@ + "================================\n\n"@,
            text@ == head + export_lines(entries@.take(i as int)),
        decreases entries.len() - i,
    {
        let entry = &entries[i];
        let mut line = String::new();
        match &entry.message {
            Some(message) => {
                line.append("[");
                line.append(entry_time(entry, "%Y-%m-%d %H:%M:%S").as_str());
                line.append("] ");
                line.append(to_uppercase(message_role(message).as_str()).as_str());
                line.append(": ");
                line.append(message_content(message).as_str());
                line.append("\n\n");
            },
            None => {},
        }
        proof {
            assert(line@ =~= export_line(*entry));
            assert(entries@.take(i + 1).drop_last() =~= entries@.take(i as int));
            assert(entries@.take(i + 1).last() == *entry);
            assert((head + export_lines(entries@.take(i as int))) + line@ =~= head + export_lines(
                entries@.take(i + 1),
            ));
        }
        text.append(line.as_str());
        i = i + 1;
    }
    proof {
        assert(entries@.take(entries.len() as int) =~= entries@);
    }
    text
}

/// The title of the export of a product's conversation: the name of the
/// product and the words `Conversation Export`.
pub open spec fn conversation_export_title(product: Seq<char>) -> Seq<char> {
    for_product(product, "Conversation Export"@)
}

/// The export of a product's conversation as text: as `conversation_export`
/// writes it, under the title of the product's conversations.
pub fn product_conversation_export(entries: &[LogEntry], product: &str) -> (text: String)
    ensures
        text@ == conversation_export_text(entries@, conversation_export_title(product@)),
{
    let title = product_text(product, "Conversation Export");
    conversation_export(entries, title.as_str())
}

/// What the status line says when the interface of a product starts.
pub open spec fn welcome_text(product: Seq<char>) -> Seq<char> {
    "Welcome to "@ + for_product(product, "Log Viewer TUI"@)
}

/// What the status line says when the interface of a product starts.
pub fn welcome_message(product: &str) -> (message: String)
    ensures
        message@ == welcome_text(product@),
{
    let mut message = String::from_str("Welcome to ");
    message.append(product_text(product, "Log Viewer TUI").as_str());
    message
}

/// The status line after an export: that there is nothing to export, or
/// where the export went.
pub fn export_status(exported: bool, file_name: &str) -> (status: String)
    ensures
        status@ == (if exported {
            "Conversation exported to "@ + file_name@
        } else {
            "No conversation to export"@
        }),
{
    if exported {
        let mut status = String::from_str("Conversation exported to ");
        status.append(file_name);
        status
    } else {
        "No conversation to export".to_owned()
    }
}

/// The role and the content of an entry: those of its message, or `system`
/// and "No content" where it has none.
pub open spec fn entry_role(entry: LogEntry) -> Seq<char> {
    match entry.message {
        Some(message) => role_of(message),
        None => "system"@,
    }
}

/// The content of an entry as text.
pub open spec fn entry_content(entry: LogEntry) -> Seq<char> {
    match entry.message {
        Some(message) => content_of(message),
        None => "No content"@,
    }
}

/// The most characters of a message that one line shows.
pub const LINE_WIDTH: usize = 120;

/// The first characters of a text, at most `LINE_WIDTH` of them.
pub open spec fn line_start(content: Seq<char>) -> Seq<char> {
    if content.len() <= LINE_WIDTH {
        content
    } else {
        content.take(LINE_WIDTH as int)
    }
}

/// The number of bytes that a text takes as UTF-8.
pub open spec fn byte_length(text: Seq<char>) -> usize {
    vstd::utf8::encode_utf8(text).len() as usize
}

/// One line of the view of a conversation.
#[derive(Debug, Clone)]
pub struct ConversationLine {
    /// The role of the message, by which the line is coloured.
    pub role: String,
    /// The icon of the role and the time of the entry.
    pub label: String,
    /// The first characters of the content.
    pub text: String,
    /// Whether the content takes more than `LINE_WIDTH` bytes, so that the
    /// line ends in dots.
    pub truncated: bool,
}

/// The first characters of a text, at most `LINE_WIDTH` of them.
fn first_characters(content: &str) -> (start: String)
    ensures
        start@ == line_start(content@),
{
    let mut start = String::new();
    let mut taken: usize = 0;
    for c in it: content.chars()
        invariant
            it.seq() == content@,
            taken <= LINE_WIDTH,
            taken == (if it.index() <= LINE_WIDTH {
                it.index()
            } else {
                LINE_WIDTH as int
            }),
            start@ == content@.take(taken as int),
    {
        if taken < LINE_WIDTH {
            proof {
                assert(content@.take(taken + 1) =~= content@.take(taken as int).push(c));
            }
            push_char(&mut start, c);
            taken = taken + 1;
        }
    }
    proof {
        assert(content@.take(content@.len() as int) =~= content@);
    }
    start
}

/// One line of the view of a conversation: the icon of the role and the
/// time of the entry, then the start of the content.
pub fn conversation_line(entry: &LogEntry) -> (line: ConversationLine)
    ensures
        line.role@ == entry_role(*entry),
        line.label@ == role_icon(entry_role(*entry)) + " ["@ + time_or_unknown(
            *entry,
            "%H:%M:%S"@,
        ) + "] "@,
        line.text@ == line_start(entry_content(*entry)),
        line.truncated == (byte_length(entry_content(*entry)) > LINE_WIDTH),
{
    let role = match &entry.message {
        Some(message) => message_role(message),
        None => "system".to_owned(),
    };
    let content = match &entry.message {
        Some(message) => message_content(message),
        None => "No content".to_owned(),
    };
    let icon = if str_eq(role.as_str(), "user") {
        "\u{1F464}"
    } else if str_eq(role.as_str(), "assistant") {
        "\u{1F916}"
    } else {
        "\u{2139}\u{FE0F}"
    };
    let mut label = String::from_str(icon);
    label.append(" [");
    label.append(entry_time(entry, "%H:%M:%S").as_str());
    label.append("] ");
    let text = first_characters(content.as_str());
    let truncated = content.as_str().len() > LINE_WIDTH;
    ConversationLine { role, label, text, truncated }
}

/// The entries that a view of `height` rows shows of a conversation of
/// `len` entries, scrolled to `scroll_offset`: from the offset on, as many
/// as fit between the two rows of the border.
pub fn visible_range(scroll_offset: usize, len: usize, height: u16) -> (range: (usize, usize))
    ensures
        range.0 == (if scroll_offset < len {
            scroll_offset
        } else {
            len
        }),
        range.1 == (if range.0 + minus_two(height) < len {
            (range.0 + minus_two(height)) as usize
        } else {
            len
        }),
        range.0 <= range.1 <= len,
{
    let start: usize = if scroll_offset < len {
        scroll_offset
    } else {
        len
    };
    let rows: usize = if height >= 2 {
        (height - 2) as usize
    } else {
        0
    };
    let end: usize = if rows < len - start {
        start + rows
    } else {
        len
    };
    (start, end)
}

/// Two less, but not below zero.
pub open spec fn minus_two(height: u16) -> int {
    if height >= 2 {
        height - 2
    } else {
        0
    }
}

/// The label of a project in the list, and what follows it: the number of
/// its sessions and the time of its latest activity.
pub fn project_label(project: &ProjectSummary) -> (label: (String, String))
    ensures
        label.0@ == "\u{1F4C1} "@ + project.name@,
        label.1@ == " ("@ + decimal_text(project.session_count as nat) + " sessions, last: "@ + (
        match instant_text(project.latest_activity, "%Y-%m-%d %H:%M"@) {
            Some(text) => text,
            None => "No activity"@,
        }) + ")"@,
{
    let mut name = String::from_str("\u{1F4C1} ");
    name.append(project.name.as_str());
    let formatted = match &project.latest_activity {
        Some(at) => format_instant(at, "%Y-%m-%d %H:%M"),
        None => None,
    };
    let activity = match formatted {
        Some(text) => text,
        None => "No activity".to_owned(),
    };
    let mut detail = String::from_str(" (");
    detail.append(decimal(project.session_count as u64).as_str());
    detail.append(" sessions, last: ");
    detail.append(activity.as_str());
    detail.append(")");
    (name, detail)
}

/// The label of a session in the list, and what follows it: the number of
/// its messages and its time.
pub fn session_label(session: &SessionSummary) -> (label: (String, String))
    ensures
        label.0@ == "\u{1F4AC} "@ + session.summary@,
        label.1@ == " ("@ + decimal_text(session.message_count as nat) + " messages, "@ + (
        match formatted_instant(
            session.timestamp.secs,
            session.timestamp.nanos,
            "%Y-%m-%d %H:%M"@,
        ) {
            Some(text) => text,
            None => "Unknown"@,
        }) + ")"@,
{
    let mut name = String::from_str("\u{1F4AC} ");
    name.append(session.summary.as_str());
    let time = match format_instant(&session.timestamp, "%Y-%m-%d %H:%M") {
        Some(text) => text,
        None => "Unknown".to_owned(),
    };
    let mut detail = String::from_str(" (");
    detail.append(decimal(session.message_count as u64).as_str());
    detail.append(" messages, ");
    detail.append(time.as_str());
    detail.append(")");
    (name, detail)
}

/// The title of the list of sessions.
pub fn sessions_title(project_name: Option<&str>) -> (title: String)
    ensures
        title@ == (match project_name {
            Some(name) => "Sessions in "@ + name@
                + " (\u{2191}/\u{2193} to navigate, Enter to select, Esc to go back)"@,
            None => "Sessions"@,
        }),
{
    match project_name {
        Some(name) => join3(
            "Sessions in ",
            name,
            " (\u{2191}/\u{2193} to navigate, Enter to select, Esc to go back)",
        ),
        None => "Sessions".to_owned(),
    }
}

/// The title of the view of a conversation.
pub fn conversation_title(names: Option<(&str, &str)>) -> (title: String)
    ensures
        title@ == (match names {
            Some((project, summary)) => "Conversation: "@ + project@ + " / "@ + summary@
                + " (\u{2191}/\u{2193} to scroll, e to export, Esc to go back)"@,
            None => "Conversation"@,
        }),
{
    match names {
        Some((project, summary)) => {
            let mut title = String::from_str("Conversation: ");
            title.append(project);
            title.append(" / ");
            title.append(summary);
            title.append(" (\u{2191}/\u{2193} to scroll, e to export, Esc to go back)");
            title
        },
        None => "Conversation".to_owned(),
    }
}

/// The share of a width that lies on either side of a centred part of
/// `percent` percent.
pub fn margin_percent(percent: u16) -> (margin: u16)
    requires
        percent <= 100,
    ensures
        margin == (100 - percent) / 2,
{
    (100 - percent) / 2
}

} // verus!
