//! Rendering of tool calls and their results as Markdown or HTML.

use crate::json::Json;
use crate::tool_renderer::handlers::BuiltinHandler;
use vstd::prelude::*;

pub mod format_utils;
pub mod handlers;

verus! {

/// The format that a renderer writes.
#[derive(Debug, Clone, Copy, PartialEq, Eq, Structural)]
pub enum OutputFormat {
    Markdown,
    Html,
}

/// What is known of the tool call that is rendered.
#[derive(Debug, Clone)]
pub struct RenderContext {
    pub tool_name: String,
    pub tool_id: Option<String>,
    pub timestamp: Option<String>,
    pub session_id: String,
    pub project_name: String,
}

/// A rendered tool call.
#[derive(Debug, Clone)]
pub struct RenderedTool {
    pub header: String,
    pub input: String,
    pub output: Option<String>,
    /// Pairs of a key and a value.
    pub metadata: Vec<(String, String)>,
}

/// The renderer of one kind of tool.
pub trait ToolHandler {
    /// The icon of the tool.
    spec fn icon(&self) -> Seq<char>;

    /// The input of a call of the tool, rendered.
    spec fn input_text(&self, input: Json, format: OutputFormat, context: RenderContext) -> Seq<
        char,
    >;

    /// The output of a call of the tool, rendered.
    spec fn output_text(
        &self,
        output: Json,
        input: Json,
        format: OutputFormat,
        context: RenderContext,
    ) -> Seq<char>;

    /// What else is known of a call of the tool, as pairs of key and value.
    spec fn metadata(&self, input: Json, output: Option<Json>) -> Seq<(Seq<char>, Seq<char>)>;

    /// The icon of the tool.
    fn get_icon(&self) -> (icon: &'static str)
        ensures
            icon@ == self.icon(),
    ;

    /// Renders the input of a call of the tool.
    fn render_input(&self, input: &Json, format: OutputFormat, context: &RenderContext) -> (out:
        String)
        ensures
            out@ == self.input_text(*input, format, *context),
    ;

    /// Renders the output of a call of the tool.
    fn render_output(
        &self,
        output: &Json,
        input: &Json,
        format: OutputFormat,
        context: &RenderContext,
    ) -> (out: String)
        ensures
            out@ == self.output_text(*output, *input, format, *context),
    ;

    /// What else is known of a call of the tool.
    fn get_metadata(&self, input: &Json, output: Option<&Json>) -> (pairs: Vec<(String, String)>)
        ensures
            pair_texts(pairs@) == self.metadata(*input, copied(output)),
    ;
}

/// The texts of pairs of strings.
pub open spec fn pair_texts(pairs: Seq<(String, String)>) -> Seq<(Seq<char>, Seq<char>)> {
    pairs.map_values(|pair: (String, String)| (pair.0@, pair.1@))
}

/// The value that an optional reference refers to.
pub open spec fn copied(value: Option<&Json>) -> Option<Json> {
    match value {
        Some(v) => Some(*v),
        None => None,
    }
}

/// What the registrations amount to: for each name the handler that was
/// registered for it last.
pub open spec fn registered<H>(entries: Seq<(String, H)>) -> Map<Seq<char>, H>
    decreases entries.len(),
{
    if entries.len() == 0 {
        Map::empty()
    } else {
        registered(entries.drop_last()).insert(entries.last().0@, entries.last().1)
    }
}

/// Whether no name is registered twice.
pub open spec fn distinct_names<H>(entries: Seq<(String, H)>) -> bool {
    forall|i: int, j: int|
        0 <= i < j < entries.len() ==> (#[trigger] entries[i]).0@ != (#[trigger] entries[j]).0@
}

/// Whether an entry has the name.
pub open spec fn has_name<H>(entries: Seq<(String, H)>, name: Seq<char>) -> bool {
    exists|i: int| 0 <= i < entries.len() && (#[trigger] entries[i]).0@ == name
}

/// A name is registered exactly when an entry has it.
proof fn lemma_registered_has<H>(entries: Seq<(String, H)>, name: Seq<char>)
    ensures
        registered(entries).contains_key(name) <==> has_name(entries, name),
    decreases entries.len(),
{
    if entries.len() > 0 {
        let before = entries.drop_last();
        lemma_registered_has(before, name);
        if has_name(before, name) {
            let i = choose|i: int| 0 <= i < before.len() && (#[trigger] before[i]).0@ == name;
            assert(entries[i] == before[i]);
        }
        if entries.last().0@ == name {
            assert(entries[entries.len() - 1].0@ == name);
        }
        if has_name(entries, name) {
            let i = choose|i: int| 0 <= i < entries.len() && (#[trigger] entries[i]).0@ == name;
            if i < before.len() {
                assert(before[i] == entries[i]);
            }
        }
    }
}

/// Where no name is registered twice, so it is among the entries before
/// the last one.
proof fn lemma_distinct_before<H>(entries: Seq<(String, H)>)
    requires
        distinct_names(entries),
        entries.len() > 0,
    ensures
        distinct_names(entries.drop_last()),
        !has_name(entries.drop_last(), entries.last().0@),
{
    let before = entries.drop_last();
    assert forall|i: int, j: int| 0 <= i < j < before.len() implies (#[trigger] before[i]).0@ != (
    #[trigger] before[j]).0@ by {
        assert(before[i] == entries[i] && before[j] == entries[j]);
    }
    if has_name(before, entries.last().0@) {
        let i = choose|i: int|
            0 <= i < before.len() && (#[trigger] before[i]).0@ == entries.last().0@;
        assert(before[i] == entries[i]);
        assert(entries[i].0@ != entries[entries.len() - 1].0@);
    }
}

/// Where no name is registered twice, the handler of a name is that of the
/// entry with the name.
proof fn lemma_registered_at<H>(entries: Seq<(String, H)>, at: int)
    requires
        distinct_names(entries),
        0 <= at < entries.len(),
    ensures
        registered(entries).contains_key(entries[at].0@),
        registered(entries)[entries[at].0@] == entries[at].1,
    decreases entries.len(),
{
    let before = entries.drop_last();
    if at < entries.len() - 1 {
        lemma_distinct_before(entries);
        lemma_registered_at(before, at);
        assert(before[at] == entries[at]);
        assert(entries[at].0@ != entries[entries.len() - 1].0@);
    }
}

/// Replacing the handler of an entry is registering the new handler under
/// the name of the entry.
proof fn lemma_registered_replace<H>(entries: Seq<(String, H)>, at: int, entry: (String, H))
    requires
        0 <= at < entries.len(),
        distinct_names(entries),
        entries[at].0@ == entry.0@,
    ensures
        distinct_names(entries.update(at, entry)),
        registered(entries.update(at, entry)) == registered(entries).insert(entry.0@, entry.1),
    decreases entries.len(),
{
    let after = entries.update(at, entry);
    assert forall|i: int, j: int| 0 <= i < j < after.len() implies (#[trigger] after[i]).0@ != (
    #[trigger] after[j]).0@ by {
        assert(after[i].0@ == entries[i].0@ && after[j].0@ == entries[j].0@);
    }
    let before = entries.drop_last();
    lemma_distinct_before(entries);
    if at == entries.len() - 1 {
        assert(after.drop_last() =~= before);
        assert(registered(after) =~= registered(entries).insert(entry.0@, entry.1));
    } else {
        lemma_registered_replace(before, at, entry);
        assert(after.drop_last() =~= before.update(at, entry));
        assert(after.last() == entries.last());
        assert(entries[at].0@ != entries[entries.len() - 1].0@);
        assert(registered(after) =~= registered(entries).insert(entry.0@, entry.1));
    }
}

/// The heading of a rendered tool call: the icon and the name of the tool.
pub open spec fn header_text(icon: Seq<char>, tool_name: Seq<char>, format: OutputFormat) -> Seq<
    char,
> {
    match format {
        OutputFormat::Markdown => "### "@ + icon + " "@ + tool_name + "\n\n"@,
        OutputFormat::Html => "<h3>"@ + icon + " "@ + tool_name + "</h3>"@,
    }
}

/// Whether `rendered` is the call of a tool as the handler renders it: the
/// heading with the handler's icon, the input, the output where there is
/// one, and the handler's metadata.
pub open spec fn rendered_by<H: ToolHandler>(
    handler: H,
    tool_name: Seq<char>,
    input: Json,
    output: Option<Json>,
    format: OutputFormat,
    context: RenderContext,
    rendered: RenderedTool,
) -> bool {
    &&& rendered.header@ == header_text(handler.icon(), tool_name, format)
    &&& rendered.input@ == handler.input_text(input, format, context)
    &&& match output {
        Some(result) => rendered.output matches Some(text) && text@ == handler.output_text(
            result,
            input,
            format,
            context,
        ),
        None => rendered.output is None,
    }
    &&& pair_texts(rendered.metadata@) == handler.metadata(input, output)
}

/// The name under which the handler of unknown tools is registered.
pub open spec fn default_name() -> Seq<char> {
    "_default"@
}

/// The renderer of tool calls: it holds a handler for each tool that it
/// knows by name, and one for every other tool.
pub struct ToolRenderer<H: ToolHandler = BuiltinHandler> {
    handlers: Vec<(String, H)>,
}

impl<H: ToolHandler> View for ToolRenderer<H> {
    type V = Map<Seq<char>, H>;

    /// The handler registered under each name.
    closed spec fn view(&self) -> Map<Seq<char>, H> {
        registered(self.handlers@)
    }
}

impl<H: ToolHandler> ToolRenderer<H> {
    /// No name is registered twice, and there is a handler for unknown
    /// tools.
    pub closed spec fn well_formed(&self) -> bool {
        distinct_names(self.handlers@) && self@.contains_key(default_name())
    }

    /// The names in the order in which they were registered first.
    pub closed spec fn names(&self) -> Seq<Seq<char>> {
        self.handlers@.map_values(|entry: (String, H)| entry.0@)
    }

    /// The handler that renders a tool: the one registered under its name,
    /// or else the one for unknown tools.
    pub open spec fn handler_for(&self, tool_name: Seq<char>) -> H {
        if self@.contains_key(tool_name) {
            self@[tool_name]
        } else {
            self@[default_name()]
        }
    }

    /// A renderer that knows no tool by name and renders every tool with
    /// the given handler.
    pub fn with_default(handler: H) -> (renderer: Self)
        ensures
            renderer.well_formed(),
            renderer@ == Map::<Seq<char>, H>::empty().insert(default_name(), handler),
    {
        let mut handlers: Vec<(String, H)> = Vec::new();
        handlers.push(("_default".to_owned(), handler));
        proof {
            assert(handlers@.drop_last() =~= Seq::<(String, H)>::empty());
            assert(registered(handlers@.drop_last()) =~= Map::<Seq<char>, H>::empty());
            assert(registered(handlers@) =~= Map::<Seq<char>, H>::empty().insert(
                default_name(),
                handler,
            ));
        }
        ToolRenderer { handlers }
    }

    /// The place of the entry with the name.
    fn find(&self, tool_name: &str) -> (at: Option<usize>)
        ensures
            at is Some <==> self@.contains_key(tool_name@),
            at matches Some(i) ==> i < self.handlers@.len() && self.handlers@[i as int].0@
                == tool_name@,
    {
        proof {
            lemma_registered_has(self.handlers@, tool_name@);
        }
        let mut i: usize = 0;
        while i < self.handlers.len()
            invariant
                i <= self.handlers@.len(),
                forall|j: int| 0 <= j < i ==> (#[trigger] self.handlers@[j]).0@ != tool_name@,
            decreases self.handlers@.len() - i,
        {
            if crate::text::str_eq(self.handlers[i].0.as_str(), tool_name) {
                proof {
                    assert(self.handlers@[i as int].0@ == tool_name@);
                    lemma_registered_has(self.handlers@, tool_name@);
                }
                return Some(i);
            }
            i = i + 1;
        }
        None
    }

    /// Registers a handler for a tool, in place of the one that was
    /// registered under that name.
    pub fn register(&mut self, tool_name: &str, handler: H)
        requires
            old(self).well_formed(),
        ensures
            final(self).well_formed(),
            final(self)@ == old(self)@.insert(tool_name@, handler),
    {
        let entry = (tool_name.to_owned(), handler);
        match self.find(tool_name) {
            Some(at) => {
                proof {
                    lemma_registered_replace(self.handlers@, at as int, entry);
                }
                self.handlers[at] = entry;
            },
            None => {
                proof {
                    lemma_registered_has(self.handlers@, tool_name@);
                    let after = self.handlers@.push(entry);
                    assert(after.drop_last() =~= self.handlers@);
                    assert forall|i: int, j: int| 0 <= i < j < after.len() implies (
                    #[trigger] after[i]).0@ != (#[trigger] after[j]).0@ by {
                        assert(after[i] == self.handlers@[i]);
                        if j < self.handlers@.len() {
                            assert(after[j] == self.handlers@[j]);
                        }
                    }
                }
                self.handlers.push(entry);
            },
        }
    }

    /// Renders a call of a tool with the handler registered under the
    /// tool's name, or with the handler for unknown tools.
    pub fn render_tool(
        &self,
        tool_name: &str,
        input: &Json,
        output: Option<&Json>,
        format: OutputFormat,
        context: &RenderContext,
    ) -> (rendered: RenderedTool)
        requires
            self.well_formed(),
        ensures
            rendered_by(
                self.handler_for(tool_name@),
                tool_name@,
                *input,
                copied(output),
                format,
                *context,
                rendered,
            ),
    {
        let at = match self.find(tool_name) {
            Some(at) => at,
            None => match self.find("_default") {
                Some(at) => at,
                None => 0,
            },
        };
        proof {
            lemma_registered_at(self.handlers@, at as int);
        }
        let handler = &self.handlers[at].1;
        let icon = handler.get_icon();
        let header = match format {
            OutputFormat::Markdown => crate::text::join5("### ", icon, " ", tool_name, "\n\n"),
            OutputFormat::Html => crate::text::join5("<h3>", icon, " ", tool_name, "</h3>"),
        };
        let input_rendered = handler.render_input(input, format, context);
        let output_rendered = match output {
            Some(result) => Some(handler.render_output(result, input, format, context)),
            None => None,
        };
        let metadata = handler.get_metadata(input, output);
        RenderedTool { header, input: input_rendered, output: output_rendered, metadata }
    }

    /// Renders a call of a tool: as `render_tool` does, and never `None`.
    pub fn render_tool_with_result(
        &self,
        tool_name: &str,
        input: &Json,
        output: Option<&Json>,
        format: OutputFormat,
        context: &RenderContext,
    ) -> (rendered: Option<RenderedTool>)
        requires
            self.well_formed(),
        ensures
            rendered matches Some(tool) && rendered_by(
                self.handler_for(tool_name@),
                tool_name@,
                *input,
                copied(output),
                format,
                *context,
                tool,
            ),
    {
        Some(self.render_tool(tool_name, input, output, format, context))
    }

    /// Whether a handler is registered under the name.
    pub fn supports_tool(&self, tool_name: &str) -> (supported: bool)
        ensures
            supported == self@.contains_key(tool_name@),
    {
        self.find(tool_name).is_some()
    }

    /// The names under which handlers are registered, each once.
    pub fn supported_tools(&self) -> (names: Vec<String>)
        ensures
            crate::text::texts(names@) == self.names(),
            forall|name: Seq<char>| #[trigger]
                self@.contains_key(name) <==> self.names().contains(name),
            self.well_formed() ==> self.names().no_duplicates(),
    {
        let mut names: Vec<String> = Vec::new();
        let mut i: usize = 0;
        while i < self.handlers.len()
            invariant
                i <= self.handlers@.len(),
                crate::text::texts(names@) == self.names().take(i as int),
            decreases self.handlers@.len() - i,
        {
            proof {
                assert(self.names().take(i + 1) =~= self.names().take(i as int).push(
                    self.handlers@[i as int].0@,
                ));
                assert(crate::text::texts(names@.push(self.handlers@[i as int].0))
                    =~= crate::text::texts(names@).push(self.handlers@[i as int].0@));
            }
            names.push(self.handlers[i].0.clone());
            i = i + 1;
        }
        proof {
            assert(self.names().take(self.handlers@.len() as int) =~= self.names());
            assert forall|name: Seq<char>| #[trigger]
                self@.contains_key(name) <==> self.names().contains(name) by {
                lemma_registered_has(self.handlers@, name);
                if self@.contains_key(name) {
                    let i = choose|i: int|
                        0 <= i < self.handlers@.len() && (#[trigger] self.handlers@[i]).0@ == name;
                    assert(self.names()[i] == name);
                }
                if self.names().contains(name) {
                    let i = choose|i: int| 0 <= i < self.names().len() && self.names()[i] == name;
                    assert(self.handlers@[i].0@ == name);
                }
            }
            if self.well_formed() {
                assert forall|i: int, j: int|
                    0 <= i < self.names().len() && 0 <= j < self.names().len() && i
                        != j implies self.names()[i] != self.names()[j] by {
                    if i < j {
                        assert(self.handlers@[i].0@ != self.handlers@[j].0@);
                    } else {
                        assert(self.handlers@[j].0@ != self.handlers@[i].0@);
                    }
                }
            }
        }
        names
    }
}

/// The handlers that a new renderer holds: one for each tool known by name,
/// and one for every other tool.
pub open spec fn builtin_handlers() -> Map<Seq<char>, BuiltinHandler> {
    Map::<Seq<char>, BuiltinHandler>::empty().insert(default_name(), BuiltinHandler::Default).insert(
        "Bash"@,
        BuiltinHandler::Bash,
    ).insert("Read"@, BuiltinHandler::Read).insert("Edit"@, BuiltinHandler::Edit).insert(
        "MultiEdit"@,
        BuiltinHandler::MultiEdit,
    ).insert("Write"@, BuiltinHandler::Write).insert("TodoWrite"@, BuiltinHandler::TodoWrite).insert(
        "LS"@,
        BuiltinHandler::LS,
    ).insert("Grep"@, BuiltinHandler::Grep).insert("Glob"@, BuiltinHandler::Glob).insert(
        "WebFetch"@,
        BuiltinHandler::WebFetch,
    ).insert("WebSearch"@, BuiltinHandler::WebSearch).insert("Task"@, BuiltinHandler::Task).insert(
        "NotebookRead"@,
        BuiltinHandler::NotebookRead,
    ).insert("NotebookEdit"@, BuiltinHandler::NotebookEdit).insert(
        "ExitPlanMode"@,
        BuiltinHandler::ExitPlanMode,
    ).insert("mcp__private-journal__process_thoughts"@, BuiltinHandler::PrivateJournal).insert(
        "mcp__socialmedia__login"@,
        BuiltinHandler::SocialMediaLogin,
    ).insert("mcp__socialmedia__create_post"@, BuiltinHandler::SocialMediaCreatePost).insert(
        "mcp__vocalize__speak"@,
        BuiltinHandler::Vocalize,
    ).insert("mcp__playwright__navigate"@, BuiltinHandler::Playwright)
}

impl ToolRenderer<BuiltinHandler> {
    /// A renderer with the handlers that come with the library.
    pub fn new() -> (renderer: Self)
        ensures
            renderer.well_formed(),
            renderer@ == builtin_handlers(),
    {
        let mut renderer = ToolRenderer::with_default(BuiltinHandler::Default);
        renderer.register_core_tools();
        renderer.register_mcp_tools();
        renderer
    }

    /// Registers the handlers of the tools that every session has.
    fn register_core_tools(&mut self)
        requires
            old(self).well_formed(),
        ensures
            final(self).well_formed(),
            final(self)@ == old(self)@.insert("Bash"@, BuiltinHandler::Bash).insert(
                "Read"@,
                BuiltinHandler::Read,
            ).insert("Edit"@, BuiltinHandler::Edit).insert(
                "MultiEdit"@,
                BuiltinHandler::MultiEdit,
            ).insert("Write"@, BuiltinHandler::Write).insert(
                "TodoWrite"@,
                BuiltinHandler::TodoWrite,
            ).insert("LS"@, BuiltinHandler::LS).insert("Grep"@, BuiltinHandler::Grep).insert(
                "Glob"@,
                BuiltinHandler::Glob,
            ).insert("WebFetch"@, BuiltinHandler::WebFetch).insert(
                "WebSearch"@,
                BuiltinHandler::WebSearch,
            ).insert("Task"@, BuiltinHandler::Task).insert(
                "NotebookRead"@,
                BuiltinHandler::NotebookRead,
            ).insert("NotebookEdit"@, BuiltinHandler::NotebookEdit).insert(
                "ExitPlanMode"@,
                BuiltinHandler::ExitPlanMode,
            ),
    {
        self.register("Bash", BuiltinHandler::Bash);
        self.register("Read", BuiltinHandler::Read);
        self.register("Edit", BuiltinHandler::Edit);
        self.register("MultiEdit", BuiltinHandler::MultiEdit);
        self.register("Write", BuiltinHandler::Write);
        self.register("TodoWrite", BuiltinHandler::TodoWrite);
        self.register("LS", BuiltinHandler::LS);
        self.register("Grep", BuiltinHandler::Grep);
        self.register("Glob", BuiltinHandler::Glob);
        self.register("WebFetch", BuiltinHandler::WebFetch);
        self.register("WebSearch", BuiltinHandler::WebSearch);
        self.register("Task", BuiltinHandler::Task);
        self.register("NotebookRead", BuiltinHandler::NotebookRead);
        self.register("NotebookEdit", BuiltinHandler::NotebookEdit);
        self.register("ExitPlanMode", BuiltinHandler::ExitPlanMode);
    }

    /// Registers the handlers of the tools that servers add.
    fn register_mcp_tools(&mut self)
        requires
            old(self).well_formed(),
        ensures
            final(self).well_formed(),
            final(self)@ == old(self)@.insert(
                "mcp__private-journal__process_thoughts"@,
                BuiltinHandler::PrivateJournal,
            ).insert("mcp__socialmedia__login"@, BuiltinHandler::SocialMediaLogin).insert(
                "mcp__socialmedia__create_post"@,
                BuiltinHandler::SocialMediaCreatePost,
            ).insert("mcp__vocalize__speak"@, BuiltinHandler::Vocalize).insert(
                "mcp__playwright__navigate"@,
                BuiltinHandler::Playwright,
            ),
    {
        self.register("mcp__private-journal__process_thoughts", BuiltinHandler::PrivateJournal);
        self.register("mcp__socialmedia__login", BuiltinHandler::SocialMediaLogin);
        self.register("mcp__socialmedia__create_post", BuiltinHandler::SocialMediaCreatePost);
        self.register("mcp__vocalize__speak", BuiltinHandler::Vocalize);
        self.register("mcp__playwright__navigate", BuiltinHandler::Playwright);
    }
}

impl Default for ToolRenderer<BuiltinHandler> {
    fn default() -> (renderer: Self)
        ensures
            renderer.well_formed(),
            renderer@ == builtin_handlers(),
    {
        ToolRenderer::new()
    }
}

} // verus!
