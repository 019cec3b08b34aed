use cc_log_viewer::tool_renderer::format_utils::{
    heading, render_data_tool_output, render_output_as, Body, WhenBlank,
};
use cc_log_viewer::tool_renderer::handlers::BuiltinHandler;
use cc_log_viewer::tool_renderer::{
    OutputFormat, RenderContext, RenderedTool, ToolHandler, ToolRenderer,
};
use cc_log_viewer::{Json, JsonNumber};

fn text(value: &str) -> Json {
    Json::Text(value.to_string())
}

fn number(value: u64) -> Json {
    Json::Number(JsonNumber::PosInt(value))
}

fn object(members: Vec<(&str, Json)>) -> Json {
    Json::Object(members.into_iter().map(|(k, v)| (k.to_string(), v)).collect())
}

fn context() -> RenderContext {
    RenderContext {
        tool_name: "tool".to_string(),
        tool_id: None,
        timestamp: None,
        session_id: "s".to_string(),
        project_name: "p".to_string(),
    }
}

fn input_of(handler: BuiltinHandler, input: &Json, format: OutputFormat) -> String {
    handler.render_input(input, format, &context())
}

fn output_of(handler: BuiltinHandler, output: &Json, format: OutputFormat) -> String {
    handler.render_output(output, &Json::Null, format, &context())
}

const MD: OutputFormat = OutputFormat::Markdown;
const HTML: OutputFormat = OutputFormat::Html;

#[test]
fn test_tool_renderer_creation() {
    let renderer = ToolRenderer::new();
    assert!(renderer.supports_tool("Bash"));
    assert!(renderer.supports_tool("Read"));
    assert!(!renderer.supports_tool("UnknownTool"));
}

#[test]
fn a_new_renderer_knows_the_tools_that_come_with_it() {
    let renderer = ToolRenderer::default();
    let mut names = renderer.supported_tools();
    names.sort();
    assert_eq!(
        names,
        vec![
            "Bash",
            "Edit",
            "ExitPlanMode",
            "Glob",
            "Grep",
            "LS",
            "MultiEdit",
            "NotebookEdit",
            "NotebookRead",
            "Read",
            "Task",
            "TodoWrite",
            "WebFetch",
            "WebSearch",
            "Write",
            "_default",
            "mcp__playwright__navigate",
            "mcp__private-journal__process_thoughts",
            "mcp__socialmedia__create_post",
            "mcp__socialmedia__login",
            "mcp__vocalize__speak",
        ]
    );
}

#[test]
fn registering_replaces_the_handler_of_a_name() {
    let mut renderer = ToolRenderer::with_default(BuiltinHandler::Default);
    assert!(renderer.supports_tool("_default"));
    assert!(!renderer.supports_tool("Mine"));
    renderer.register("Mine", BuiltinHandler::Bash);
    assert!(renderer.supports_tool("Mine"));
    let input = object(vec![("command", text("ls")), ("path", text("/p"))]);
    let first = renderer.render_tool("Mine", &input, None, MD, &context());
    assert_eq!(first.input, "```bash\n$ ls\n```\n\n");
    renderer.register("Mine", BuiltinHandler::LS);
    let second = renderer.render_tool("Mine", &input, None, MD, &context());
    assert_eq!(second.header, "### \u{1F4C2} Mine\n\n");
    assert_eq!(second.input, "\u{1F4C2} **/p**\n\n");
    assert_eq!(renderer.supported_tools(), vec!["_default", "Mine"]);
}

#[test]
fn render_tool_puts_the_parts_together() {
    let renderer = ToolRenderer::new();
    let input = object(vec![("command", text("ls"))]);
    let output = object(vec![("content", text("a.txt"))]);
    let rendered: RenderedTool = renderer.render_tool("Bash", &input, Some(&output), MD, &context());
    assert_eq!(rendered.header, "### \u{1F4BB} Bash\n\n");
    assert_eq!(rendered.input, "```bash\n$ ls\n```\n\n");
    assert_eq!(rendered.output.as_deref(), Some("**Output:**\n```\na.txt\n```\n\n"));
    assert!(rendered.metadata.is_empty());

    let html = renderer.render_tool("Bash", &input, None, HTML, &context());
    assert_eq!(html.header, "<h3>\u{1F4BB} Bash</h3>");
    assert_eq!(html.input, "<pre><code class=\"language-bash\">$ ls</code></pre>");
    assert!(html.output.is_none());
}

#[test]
fn an_unknown_tool_is_rendered_by_the_default_handler() {
    let renderer = ToolRenderer::new();
    let input = object(vec![("x", number(1))]);
    let rendered = renderer
        .render_tool_with_result("SomethingNew", &input, None, MD, &context())
        .unwrap();
    assert_eq!(rendered.header, "### \u{1F527} SomethingNew\n\n");
    assert_eq!(rendered.input, "```json\n{\n  \"x\": 1\n}\n```\n\n");
    assert_eq!(rendered.metadata, vec![("type".to_string(), "unknown".to_string())]);
}

#[test]
fn icons_of_the_handlers() {
    assert_eq!(BuiltinHandler::Bash.get_icon(), "\u{1F4BB}");
    assert_eq!(BuiltinHandler::WebSearch.get_icon(), "\u{1F50D}");
    assert_eq!(BuiltinHandler::NotebookRead.get_icon(), "\u{1F4D3}");
    assert_eq!(BuiltinHandler::ExitPlanMode.get_icon(), "\u{1F3AF}");
    assert_eq!(BuiltinHandler::PrivateJournal.get_icon(), "\u{1F4D4}");
    assert_eq!(BuiltinHandler::SocialMediaLogin.get_icon(), "\u{1F510}");
    assert_eq!(BuiltinHandler::SocialMediaCreatePost.get_icon(), "\u{1F4F1}");
    assert_eq!(BuiltinHandler::Vocalize.get_icon(), "\u{1F50A}");
    assert_eq!(BuiltinHandler::Playwright.get_icon(), "\u{1F3AD}");
    assert_eq!(BuiltinHandler::Default.get_icon(), "\u{1F527}");
}

#[test]
fn bash_and_read_inputs() {
    let bash = object(vec![("command", text("a<b")), ("description", text("d"))]);
    assert_eq!(input_of(BuiltinHandler::Bash, &bash, MD), "```bash\n$ a<b\n# d\n```\n\n");
    assert_eq!(
        input_of(BuiltinHandler::Bash, &bash, HTML),
        "<pre><code class=\"language-bash\">$ a&lt;b\n# d</code></pre>"
    );
    assert_eq!(input_of(BuiltinHandler::Bash, &object(vec![]), MD), "```bash\n$ \n```\n\n");

    let read = object(vec![
        ("file_path", text("main.rs")),
        ("offset", number(100)),
        ("limit", number(50)),
    ]);
    assert_eq!(
        input_of(BuiltinHandler::Read, &read, MD),
        "\u{1F4C4} **main.rs**\n*Lines: 101-150*\n\n"
    );
    assert_eq!(
        input_of(BuiltinHandler::Read, &read, HTML),
        "\u{1F4C4} <strong>main.rs</strong><br><small><em>Lines: 101-150</em></small>"
    );
    let whole = object(vec![("file_path", text("main.rs"))]);
    assert_eq!(input_of(BuiltinHandler::Read, &whole, MD), "\u{1F4C4} **main.rs**\n\n");
    assert_eq!(input_of(BuiltinHandler::Read, &whole, HTML), "\u{1F4C4} <strong>main.rs</strong>");
}

#[test]
fn edit_inputs() {
    let edit = object(vec![
        ("file_path", text("/path")),
        ("old_string", text("old")),
        ("new_string", text("new")),
    ]);
    assert_eq!(
        input_of(BuiltinHandler::Edit, &edit, MD),
        "\u{270F}\u{FE0F} **/path**\n\n```diff\n- old\n+ new\n```\n\n"
    );
    let multi = object(vec![
        ("file_path", text("f")),
        (
            "edits",
            Json::Array(vec![
                object(vec![
                    ("old_string", text("a")),
                    ("new_string", text("b")),
                    ("replace_all", Json::Bool(true)),
                ]),
                object(vec![("replace_all", Json::Bool(false))]),
            ]),
        ),
    ]);
    assert_eq!(
        input_of(BuiltinHandler::MultiEdit, &multi, MD),
        "\u{1F504} Multiple Edits to **f** (2 changes)\n\n**Edit 1** (replace all)\n```diff\n- a\n+ b\n```\n\n**Edit 2**\n"
    );
    assert_eq!(
        input_of(BuiltinHandler::MultiEdit, &object(vec![]), HTML),
        "\u{1F504} Multiple Edits to <strong></strong> (0 changes)\n\n"
    );
    let write = object(vec![("file_path", text("a")), ("content", text("c"))]);
    assert_eq!(
        input_of(BuiltinHandler::Write, &write, MD),
        "\u{1F4DD} **a**\n\n**Content:**\n```\nc\n```\n\n"
    );
    assert_eq!(
        input_of(BuiltinHandler::Write, &write, HTML),
        "\u{1F4DD} <strong>a</strong>\n\n<h4>Content:</h4><pre><code>c</code></pre>"
    );
}

#[test]
fn todowrite_input() {
    let input = object(vec![(
        "todos",
        Json::Array(vec![
            object(vec![
                ("status", text("completed")),
                ("content", text("a&b")),
                ("priority", text("low")),
                ("id", text("7")),
            ]),
            object(vec![("status", text("in_progress")), ("content", text("two"))]),
            object(vec![("status", text("pending")), ("content", text("three"))]),
        ]),
    )]);
    assert_eq!(
        input_of(BuiltinHandler::TodoWrite, &input, MD),
        "\u{1F4DD} Todo List (**3** items)\n\n\u{2705} ~~a&b~~\n\u{1F534} low priority \u{2022} ID: 7\n\n\u{1F504} **two**\n\u{1F7E0} medium priority \u{2022} ID: \n\n\u{2B55} three\n\u{1F7E0} medium priority \u{2022} ID: \n\n"
    );
    assert_eq!(
        input_of(BuiltinHandler::TodoWrite, &input, HTML),
        "\u{1F4DD} Todo List (<strong>3</strong> items)\n\n\u{2705} <del>a&amp;b</del>\n\u{1F534} low priority \u{2022} ID: 7\n\n\u{1F504} <strong>two</strong>\n\u{1F7E0} medium priority \u{2022} ID: \n\n\u{2B55} three\n\u{1F7E0} medium priority \u{2022} ID: \n\n"
    );
    assert_eq!(
        input_of(BuiltinHandler::TodoWrite, &Json::Null, MD),
        "\u{1F4DD} Todo List (**0** items)\n\n"
    );
}

#[test]
fn search_inputs() {
    let grep = object(vec![("pattern", text("x")), ("path", text("/src")), ("glob", text("*.rs"))]);
    assert_eq!(
        input_of(BuiltinHandler::Grep, &grep, MD),
        "**Pattern:** `x`\n**Path:** /src\n**Glob:** *.rs\n\n"
    );
    assert_eq!(
        input_of(BuiltinHandler::Glob, &grep, HTML),
        "**Pattern:** <code>x</code>\n**Path:** /src\n\n"
    );
    assert_eq!(input_of(BuiltinHandler::Grep, &object(vec![]), MD), "\n");
    assert_eq!(input_of(BuiltinHandler::LS, &grep, MD), "\u{1F4C2} **/src**\n\n");

    let fetch = object(vec![("url", text("http://x")), ("prompt", text("what"))]);
    assert_eq!(
        input_of(BuiltinHandler::WebFetch, &fetch, MD),
        "\u{1F310} **URL:** http://x\n**Query:** what\n\n"
    );
    let search = object(vec![
        ("query", text("rust")),
        (
            "allowed_domains",
            Json::Array(vec![text("a.org"), number(1), text("b.org"), text("c.org")]),
        ),
    ]);
    assert_eq!(
        input_of(BuiltinHandler::WebSearch, &search, MD),
        "\u{1F50D} **Query:** `rust`\n**Allowed domains:** a.org, b.org, c.org\n\n"
    );
    let no_domains = object(vec![("query", text("rust")), ("allowed_domains", Json::Array(vec![number(1)]))]);
    assert_eq!(
        input_of(BuiltinHandler::WebSearch, &no_domains, MD),
        "\u{1F50D} **Query:** `rust`\n\n"
    );
}

#[test]
fn task_notebook_and_plan_inputs() {
    let task = object(vec![("description", text("d")), ("prompt", text("do\nit"))]);
    assert_eq!(
        input_of(BuiltinHandler::Task, &task, MD),
        "**Task:** d\n**Instructions:**\n> do\n> it\n\n"
    );
    assert_eq!(
        input_of(BuiltinHandler::Task, &task, HTML),
        "**Task:** d\n<h4>Instructions:</h4><blockquote>do\nit</blockquote>"
    );
    let read = object(vec![("notebook_path", text("n.ipynb")), ("cell_id", text("c1"))]);
    assert_eq!(
        input_of(BuiltinHandler::NotebookRead, &read, MD),
        "\u{1F4D3} **n.ipynb**\n**Cell ID:** c1\n\n"
    );
    let edit = object(vec![
        ("notebook_path", text("n.ipynb")),
        ("cell_type", text("code")),
        ("new_source", text("x = 1")),
    ]);
    assert_eq!(
        input_of(BuiltinHandler::NotebookEdit, &edit, MD),
        "\u{1F4DD} **n.ipynb**\n**Cell type:** code\n**New content:**\n```\nx = 1\n```\n\n"
    );
    let plan = object(vec![("plan", text("step"))]);
    assert_eq!(input_of(BuiltinHandler::ExitPlanMode, &plan, MD), "**Plan:**\n> step\n\n");
    assert_eq!(
        input_of(BuiltinHandler::ExitPlanMode, &object(vec![]), HTML),
        "**Exiting plan mode**\n\n"
    );
}

#[test]
fn server_tool_inputs() {
    let journal = object(vec![
        ("feelings", text("fine")),
        ("project_notes", text("note")),
        ("empty", text("  ")),
        ("count", number(3)),
    ]);
    assert_eq!(
        input_of(BuiltinHandler::PrivateJournal, &journal, MD),
        "\u{1F4D4} **Private Journal Entry**\n\n**FEELINGS:**\n> fine\n\n**PROJECT NOTES:**\n> note\n\n"
    );
    assert_eq!(
        input_of(BuiltinHandler::PrivateJournal, &text("x"), MD),
        "\u{1F4D4} **Private Journal Entry**\n\n"
    );
    let login = object(vec![("platform", text("m"))]);
    assert_eq!(
        input_of(BuiltinHandler::SocialMediaLogin, &login, MD),
        "\u{1F510} **Social Media Login**\n**Platform:** m\n\n"
    );
    let post = object(vec![("content", text("hi")), ("platform", text("m"))]);
    assert_eq!(
        input_of(BuiltinHandler::SocialMediaCreatePost, &post, MD),
        "\u{1F4F1} **Creating Social Media Post**\n**Content:**\n> hi\n\n**Platform:** m\n\n"
    );
    let speak = object(vec![("text", text("hi")), ("voice", text("v")), ("emotion", text("e"))]);
    assert_eq!(
        input_of(BuiltinHandler::Vocalize, &speak, MD),
        "\u{1F50A} **Text-to-Speech**\n**Text:** `hi`\n**Voice:** v\n**Emotion:** e\n\n"
    );
    let play = object(vec![("url", text("u")), ("selector", text("#a")), ("action", text("click"))]);
    assert_eq!(
        input_of(BuiltinHandler::Playwright, &play, HTML),
        "\u{1F3AD} **Playwright Automation**\n**URL:** u\n**Selector:** <code>#a</code>\n**Action:** click\n\n"
    );
}

#[test]
fn outputs_of_data_tools() {
    let full = object(vec![("content", text("out"))]);
    let blank = object(vec![("content", text("  "))]);
    let missing = object(vec![("status", text("ok"))]);
    assert_eq!(output_of(BuiltinHandler::Bash, &full, MD), "**Output:**\n```\nout\n```\n\n");
    assert_eq!(output_of(BuiltinHandler::Bash, &blank, MD), "**Output:**\n*(empty output)*\n\n");
    assert_eq!(
        output_of(BuiltinHandler::Bash, &missing, MD),
        "**Output:**\n```json\n{\n  \"status\": \"ok\"\n}\n```\n\n"
    );
    assert_eq!(
        output_of(BuiltinHandler::Read, &full, HTML),
        "<h4>Content:</h4><pre><code>out</code></pre>"
    );
    assert_eq!(
        output_of(BuiltinHandler::LS, &blank, HTML),
        "<h4>Directory listing:</h4><em>(empty output)</em>\n\n"
    );
    assert_eq!(output_of(BuiltinHandler::Grep, &full, MD), "**Matches:**\n```\nout\n```\n\n");
    assert_eq!(output_of(BuiltinHandler::Glob, &full, MD), "**Found files:**\n```\nout\n```\n\n");
    assert_eq!(output_of(BuiltinHandler::Default, &full, MD), "**Output:**\n```\nout\n```\n\n");
    assert_eq!(
        render_data_tool_output(&full, "Output", MD),
        output_of(BuiltinHandler::Bash, &full, MD)
    );
}

#[test]
fn outputs_of_the_other_tools() {
    let full = object(vec![("content", text("out"))]);
    let blank = object(vec![("content", text(""))]);
    let missing = object(vec![]);
    for handler in [BuiltinHandler::Edit, BuiltinHandler::MultiEdit, BuiltinHandler::Write] {
        assert_eq!(output_of(handler, &full, MD), "**Result:**\n```\nout\n```\n\n");
        assert_eq!(output_of(handler, &blank, MD), "");
        assert_eq!(output_of(handler, &missing, MD), "");
    }
    assert_eq!(output_of(BuiltinHandler::TodoWrite, &full, MD), "**Todo updated:**\n> out\n\n");
    assert_eq!(output_of(BuiltinHandler::TodoWrite, &blank, MD), "**Todo updated:**\n> \n\n");
    assert_eq!(output_of(BuiltinHandler::TodoWrite, &missing, MD), "");
    assert_eq!(
        output_of(BuiltinHandler::WebFetch, &blank, MD),
        "**Fetched content:**\n*(empty content)*\n\n"
    );
    assert_eq!(
        output_of(BuiltinHandler::WebFetch, &missing, MD),
        "**Fetched content:**\n```json\n{}\n```\n\n"
    );
    assert_eq!(
        output_of(BuiltinHandler::WebSearch, &blank, MD),
        "**Search results:**\n*(empty results)*\n\n"
    );
    assert_eq!(output_of(BuiltinHandler::Task, &full, MD), "**Task completion:**\n> out\n\n");
    assert_eq!(
        output_of(BuiltinHandler::Task, &blank, HTML),
        "<h4>Task completion:</h4><em>(task completed with no output)</em>\n\n"
    );
    assert_eq!(
        output_of(BuiltinHandler::NotebookRead, &full, MD),
        "**Notebook content:**\n```json\nout\n```\n\n"
    );
    assert_eq!(
        output_of(BuiltinHandler::NotebookRead, &blank, MD),
        "**Notebook content:**\n*(empty notebook content)*\n\n"
    );
    assert_eq!(output_of(BuiltinHandler::NotebookEdit, &blank, MD), "**Result:**\n```\n\n```\n\n");
    assert_eq!(output_of(BuiltinHandler::ExitPlanMode, &full, MD), "**Result:**\n> out\n\n");
    assert_eq!(output_of(BuiltinHandler::PrivateJournal, &full, MD), "**Journal saved:**\n> out\n\n");
    assert_eq!(
        output_of(BuiltinHandler::SocialMediaLogin, &full, MD),
        "**Login result:**\n```\nout\n```\n\n"
    );
    assert_eq!(
        output_of(BuiltinHandler::SocialMediaCreatePost, &full, MD),
        "**Post result:**\n```\nout\n```\n\n"
    );
    assert_eq!(output_of(BuiltinHandler::Vocalize, &full, MD), "**Speech result:**\n> out\n\n");
    assert_eq!(
        output_of(BuiltinHandler::Playwright, &full, MD),
        "**Playwright result:**\n```\nout\n```\n\n"
    );
    assert_eq!(output_of(BuiltinHandler::Playwright, &missing, MD), "");
}

#[test]
fn headings_and_generic_outputs() {
    assert_eq!(heading("Result", MD), "**Result:**\n");
    assert_eq!(heading("Result", HTML), "<h4>Result:</h4>");
    let full = object(vec![("content", text("out"))]);
    assert_eq!(
        render_output_as(&full, "L", Body::Quote, WhenBlank::Nothing, false, HTML),
        "<h4>L:</h4><blockquote>out</blockquote>"
    );
    assert_eq!(
        render_output_as(&full, "L", Body::JsonCode, WhenBlank::Shown, false, HTML),
        "<h4>L:</h4><pre><code class=\"language-json\">out</code></pre>"
    );
}

#[test]
fn metadata_of_the_handlers() {
    assert!(BuiltinHandler::Bash.get_metadata(&Json::Null, None).is_empty());
    assert_eq!(
        BuiltinHandler::Default.get_metadata(&Json::Null, Some(&Json::Null)),
        vec![("type".to_string(), "unknown".to_string())]
    );
}
