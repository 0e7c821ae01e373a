use ollama_code::app::{announce, App, AppError, Effect, StdoutMessage};
use ollama_code::constants::SYSTEM_PROMPT;
use ollama_code::message::{ArgValue, Argument, Message, Role, ToolCall};
use ollama_code::ollama::{ModelMessage, OllamaMessage, OllamaResponse};
use ollama_code::tools::{DirEntry, FsReply, FsRequest, Toolchain};

fn text_arg(name: &str, value: &str) -> Argument {
    Argument { name: name.to_string(), value: ArgValue::Text(value.to_string()) }
}

fn call(name: &str, arguments: Vec<Argument>) -> ToolCall {
    ToolCall { name: name.to_string(), arguments }
}

fn chunk(message: ModelMessage) -> OllamaMessage {
    OllamaMessage::Chunk(OllamaResponse { done: false, message })
}

fn answer(fragment: &str) -> OllamaMessage {
    chunk(ModelMessage { content: Some(fragment.to_string()), thinking: None, tool_calls: None })
}

fn thinking(fragment: &str) -> OllamaMessage {
    chunk(ModelMessage { content: None, thinking: Some(fragment.to_string()), tool_calls: None })
}

fn tool_calls(calls: Vec<ToolCall>) -> OllamaMessage {
    chunk(ModelMessage { content: None, thinking: None, tool_calls: Some(calls) })
}

fn plain(role: Role, content: &str) -> Message {
    Message { role, content: content.to_string(), tool_name: None, tool_calls: None }
}

fn tool_result(content: &str, tool_name: &str) -> Message {
    Message {
        role: Role::Tool,
        content: content.to_string(),
        tool_name: Some(tool_name.to_string()),
        tool_calls: None,
    }
}

fn project() -> FsReply {
    FsReply::Directory {
        path: "/work".to_string(),
        entries: vec![
            DirEntry { name: "src".to_string(), is_dir: true, extension: None },
            DirEntry {
                name: "Cargo.toml".to_string(),
                is_dir: false,
                extension: Some("toml".to_string()),
            },
        ],
    }
}

fn started(prompt: &str) -> App {
    let mut app = App::new();
    let launched = app.repl(Some(prompt.to_string()));
    assert!(matches!(launched, Ok(Some(_))));
    app
}

fn none() -> Vec<FsReply> {
    Vec::new()
}

#[test]
fn new_app_awaits_a_prompt() {
    let app = App::new();
    assert!(app.show_prompt());
    assert_eq!(app.call_stack(), 0);
    assert_eq!(app.depth_limit(), usize::MAX);
    assert_eq!(app.history(), vec![plain(Role::System, SYSTEM_PROMPT)]);
}

#[test]
fn repl_starts_a_turn() {
    let mut app = App::new();
    let launched = app.repl(Some("hello".to_string()));
    let expected = vec![plain(Role::System, SYSTEM_PROMPT), plain(Role::User, "hello")];
    assert_eq!(launched, Ok(Some(expected.clone())));
    assert_eq!(app.call_stack(), 1);
    assert!(!app.show_prompt());
    assert_eq!(app.history(), expected);
}

#[test]
fn repl_without_a_prompt_is_an_error() {
    let mut app = App::new();
    assert_eq!(app.repl(None), Err(AppError::PromptMissing));
    assert_eq!(app.call_stack(), 0);
    assert_eq!(app.history().len(), 1);
}

#[test]
fn repl_while_in_flight_launches_nothing() {
    let mut app = started("first");
    assert_eq!(app.repl(None), Ok(None));
    assert_eq!(app.repl(Some("second".to_string())), Ok(None));
    assert_eq!(app.call_stack(), 1);
    assert_eq!(app.history().len(), 2);
}

#[test]
fn prompt_always_finds_room() {
    let mut app = App::with_depth_limit(0);
    assert_eq!(app.depth_limit(), 1);
    assert!(matches!(app.repl(Some("hello".to_string())), Ok(Some(_))));
    assert_eq!(app.call_stack(), 1);
    let effects = app.on_message(&tool_calls(vec![call("pwd", vec![])]), &none());
    assert_eq!(
        effects,
        vec![Effect::Show(StdoutMessage::Error("[ERR] recursion limit exceeded".to_string()))]
    );
    app.on_message(&answer("done"), &none());
    app.on_message(&OllamaMessage::EOF, &none());
    assert!(app.show_prompt());
    assert_eq!(app.history()[2], plain(Role::Assistant, "done"));
}

#[test]
fn turn_without_tools_records_the_fragments_in_order() {
    let mut app = started("say hi");
    assert_eq!(
        app.on_message(&answer("Hel"), &none()),
        vec![Effect::Show(StdoutMessage::Inline("Hel".to_string()))]
    );
    assert_eq!(
        app.on_message(&thinking("hmm"), &none()),
        vec![Effect::Show(StdoutMessage::Italic("hmm".to_string()))]
    );
    assert_eq!(
        app.on_message(&answer("lo"), &none()),
        vec![Effect::Show(StdoutMessage::Inline("lo".to_string()))]
    );
    assert_eq!(app.call_stack(), 1);
    assert_eq!(
        app.on_message(&OllamaMessage::EOF, &none()),
        vec![Effect::Show(StdoutMessage::EOF)]
    );
    assert_eq!(app.call_stack(), 0);
    assert!(app.show_prompt());
    assert_eq!(
        app.history(),
        vec![
            plain(Role::System, SYSTEM_PROMPT),
            plain(Role::User, "say hi"),
            plain(Role::Assistant, "Hello"),
        ]
    );
}

#[test]
fn list_files_with_one_tool_call() {
    let mut app = started("list files");
    let list = call("list_directory", vec![text_arg("path", ".")]);
    let listing = Toolchain.list_directory(
        "/work",
        &vec![
            DirEntry { name: "src".to_string(), is_dir: true, extension: None },
            DirEntry {
                name: "Cargo.toml".to_string(),
                is_dir: false,
                extension: Some("toml".to_string()),
            },
        ],
    );
    let with_result = vec![
        plain(Role::System, SYSTEM_PROMPT),
        plain(Role::User, "list files"),
        tool_result(&listing, "list_directory"),
    ];
    let effects = app.on_message(&tool_calls(vec![list]), &vec![project()]);
    assert_eq!(
        effects,
        vec![
            Effect::Show(StdoutMessage::WithNewLine(
                "\n TOOL CALL list_directory - {\"path\": \".\"}".to_string()
            )),
            Effect::Launch(with_result.clone()),
        ]
    );
    assert_eq!(app.call_stack(), 2);
    assert_eq!(app.on_message(&OllamaMessage::EOF, &none()), vec![]);
    assert_eq!(app.call_stack(), 1);
    assert!(!app.show_prompt());
    app.on_message(&answer("There is src and Cargo.toml."), &none());
    assert_eq!(
        app.on_message(&OllamaMessage::EOF, &none()),
        vec![Effect::Show(StdoutMessage::EOF)]
    );
    assert_eq!(app.call_stack(), 0);
    let mut expected = with_result;
    expected.push(plain(Role::Assistant, "There is src and Cargo.toml."));
    assert_eq!(app.history(), expected);
}

#[test]
fn unknown_tool_becomes_a_tool_message() {
    let mut app = started("do it");
    let effects = app.on_message(&tool_calls(vec![call("foo_bar", vec![])]), &none());
    let with_error = vec![
        plain(Role::System, SYSTEM_PROMPT),
        plain(Role::User, "do it"),
        tool_result("ERR: Tool foo_bar not found", "foo_bar"),
    ];
    assert_eq!(
        effects,
        vec![
            Effect::Show(StdoutMessage::WithNewLine("\n TOOL CALL foo_bar - {}".to_string())),
            Effect::Launch(with_error.clone()),
        ]
    );
    app.on_message(&OllamaMessage::EOF, &none());
    app.on_message(&answer("I cannot do that."), &none());
    app.on_message(&OllamaMessage::EOF, &none());
    assert!(app.show_prompt());
    let mut expected = with_error;
    expected.push(plain(Role::Assistant, "I cannot do that."));
    assert_eq!(app.history(), expected);
}

#[test]
fn two_tool_calls_in_one_response() {
    let mut app = started("look around");
    let calls = vec![call("pwd", vec![]), call("read_file", vec![text_arg("path", "a.txt")])];
    let replies = vec![FsReply::Text("/work".to_string()), FsReply::Text("alpha".to_string())];
    let effects = app.on_message(&tool_calls(calls), &replies);
    let base = vec![plain(Role::System, SYSTEM_PROMPT), plain(Role::User, "look around")];
    let mut first = base.clone();
    first.push(tool_result("/work", "pwd"));
    let mut second = first.clone();
    second.push(tool_result("alpha", "read_file"));
    assert_eq!(
        effects,
        vec![
            Effect::Show(StdoutMessage::WithNewLine("\n TOOL CALL pwd - {}".to_string())),
            Effect::Launch(first),
            Effect::Show(StdoutMessage::WithNewLine(
                "\n TOOL CALL read_file - {\"path\": \"a.txt\"}".to_string()
            )),
            Effect::Launch(second.clone()),
        ]
    );
    assert_eq!(app.call_stack(), 3);
    assert_eq!(app.on_message(&OllamaMessage::EOF, &none()), vec![]);
    assert_eq!(app.call_stack(), 2);
    app.on_message(&answer("one"), &none());
    assert_eq!(app.on_message(&OllamaMessage::EOF, &none()), vec![]);
    assert_eq!(app.call_stack(), 1);
    assert!(!app.show_prompt());
    app.on_message(&answer("two"), &none());
    assert_eq!(
        app.on_message(&OllamaMessage::EOF, &none()),
        vec![Effect::Show(StdoutMessage::EOF)]
    );
    assert_eq!(app.call_stack(), 0);
    let mut expected = second;
    expected.push(plain(Role::Assistant, "onetwo"));
    assert_eq!(app.history(), expected);
}

#[test]
fn sequential_tool_calls_keep_their_order() {
    let mut app = started("dig");
    let names = ["pwd", "list_directory", "read_file"];
    let replies = [FsReply::Text("/w".to_string()), project(), FsReply::Text("body".to_string())];
    let mut expected = vec![plain(Role::System, SYSTEM_PROMPT), plain(Role::User, "dig")];
    for (name, reply) in names.iter().zip(replies.into_iter()) {
        let one = call(name, vec![]);
        let text = app.dispatch_tool(&one, &reply).unwrap();
        expected.push(tool_result(&text, name));
        let effects = app.on_message(&tool_calls(vec![one]), &vec![reply]);
        assert_eq!(effects.len(), 2);
        assert_eq!(effects[1], Effect::Launch(expected.clone()));
        assert_eq!(app.call_stack(), 2);
        app.on_message(&OllamaMessage::EOF, &none());
        assert_eq!(app.call_stack(), 1);
    }
    app.on_message(&answer("done"), &none());
    app.on_message(&OllamaMessage::EOF, &none());
    expected.push(plain(Role::Assistant, "done"));
    assert_eq!(app.history(), expected);
    assert_eq!(app.call_stack(), 0);
}

#[test]
fn failed_tool_goes_on_as_a_tool_message() {
    let mut app = started("read it");
    let read = call("read_file", vec![text_arg("path", "/nonexistent")]);
    let failed = FsReply::Failed("No such file or directory (os error 2)".to_string());
    let effects = app.on_message(&tool_calls(vec![read]), &vec![failed]);
    assert_eq!(effects.len(), 2);
    assert_eq!(app.call_stack(), 2);
    let history = app.history();
    assert_eq!(
        history[2],
        tool_result("ERR: No such file or directory (os error 2)", "read_file")
    );
    assert_eq!(effects[1], Effect::Launch(history));
}

#[test]
fn missing_reply_goes_on_as_a_tool_message() {
    let mut app = started("where");
    let effects = app.on_message(&tool_calls(vec![call("pwd", vec![])]), &none());
    assert_eq!(effects.len(), 2);
    assert_eq!(
        app.history()[2],
        tool_result("ERR: unexpected reply from the file system", "pwd")
    );
}

#[test]
fn failed_session_is_shown_and_ends() {
    let mut app = started("hello");
    app.on_message(&answer("par"), &none());
    let effects = app.on_message(&OllamaMessage::Failed("connection refused".to_string()), &none());
    assert_eq!(
        effects,
        vec![
            Effect::Show(StdoutMessage::Error(
                "[ERR] Spawn Prompt Failed.\n[ERR]: connection refused".to_string()
            )),
            Effect::Show(StdoutMessage::EOF),
        ]
    );
    assert_eq!(app.call_stack(), 0);
    assert_eq!(app.history()[2], plain(Role::Assistant, "par"));
}

#[test]
fn failed_branch_leaves_the_turn_in_flight() {
    let mut app = started("hello");
    app.on_message(&tool_calls(vec![call("pwd", vec![])]), &vec![FsReply::Text("/".to_string())]);
    let effects = app.on_message(&OllamaMessage::Failed("timeout".to_string()), &none());
    assert_eq!(
        effects,
        vec![Effect::Show(StdoutMessage::Error(
            "[ERR] Spawn Prompt Failed.\n[ERR]: timeout".to_string()
        ))]
    );
    assert_eq!(app.call_stack(), 1);
    assert!(!app.show_prompt());
}

#[test]
fn events_without_a_session_are_not_taken() {
    let mut app = App::new();
    assert_eq!(app.on_message(&answer("stray"), &none()), vec![]);
    assert_eq!(app.on_message(&OllamaMessage::EOF, &none()), vec![]);
    assert_eq!(app.on_message(&tool_calls(vec![call("pwd", vec![])]), &none()), vec![]);
    assert_eq!(app.call_stack(), 0);
    assert_eq!(app.history().len(), 1);
}

#[test]
fn depth_returns_to_zero_only_after_every_session_ended() {
    let mut app = started("go");
    let three = vec![call("pwd", vec![]), call("pwd", vec![]), call("pwd", vec![])];
    let replies = vec![
        FsReply::Text("/".to_string()),
        FsReply::Text("/".to_string()),
        FsReply::Text("/".to_string()),
    ];
    app.on_message(&tool_calls(three), &replies);
    assert_eq!(app.call_stack(), 4);
    for left in [3usize, 2, 1] {
        app.on_message(&OllamaMessage::EOF, &none());
        assert_eq!(app.call_stack(), left);
        assert!(!app.show_prompt());
    }
    app.on_message(&OllamaMessage::EOF, &none());
    assert_eq!(app.call_stack(), 0);
    assert!(app.show_prompt());
}

#[test]
fn depth_limit_refuses_further_calls() {
    let mut app = App::with_depth_limit(2);
    assert!(matches!(app.repl(Some("go".to_string())), Ok(Some(_))));
    let two = vec![call("pwd", vec![]), call("pwd", vec![])];
    let replies = vec![FsReply::Text("/a".to_string()), FsReply::Text("/b".to_string())];
    let effects = app.on_message(&tool_calls(two), &replies);
    assert_eq!(effects.len(), 3);
    assert_eq!(
        effects[2],
        Effect::Show(StdoutMessage::Error("[ERR] recursion limit exceeded".to_string()))
    );
    assert_eq!(app.call_stack(), 2);
    assert_eq!(app.history().len(), 3);
    app.on_message(&OllamaMessage::EOF, &none());
    app.on_message(&OllamaMessage::EOF, &none());
    assert!(app.show_prompt());
}

#[test]
fn tool_calls_count_before_thinking_and_answer() {
    let mut app = started("mixed");
    let message = chunk(ModelMessage {
        content: Some("text".to_string()),
        thinking: Some("thought".to_string()),
        tool_calls: Some(vec![]),
    });
    assert_eq!(app.on_message(&message, &none()), vec![]);
    let message = chunk(ModelMessage {
        content: Some("text".to_string()),
        thinking: Some("thought".to_string()),
        tool_calls: None,
    });
    assert_eq!(
        app.on_message(&message, &none()),
        vec![Effect::Show(StdoutMessage::Italic("thought".to_string()))]
    );
    let empty = chunk(ModelMessage { content: None, thinking: None, tool_calls: None });
    assert_eq!(app.on_message(&empty, &none()), vec![]);
    app.on_message(&OllamaMessage::EOF, &none());
    assert_eq!(app.history()[2], plain(Role::Assistant, ""));
}

#[test]
fn fragments_are_kept_when_another_session_ends() {
    let mut app = started("go");
    app.on_message(&answer("Hel"), &none());
    app.on_message(&tool_calls(vec![call("pwd", vec![])]), &vec![FsReply::Text("/".to_string())]);
    app.on_message(&OllamaMessage::EOF, &none());
    app.on_message(&answer("lo"), &none());
    app.on_message(&OllamaMessage::EOF, &none());
    assert_eq!(app.history()[3], plain(Role::Assistant, "Hello"));
}

#[test]
fn answer_that_comes_before_the_first_session_ends_is_kept() {
    let mut app = started("list files");
    let list = call("list_directory", vec![text_arg("path", ".")]);
    app.on_message(&tool_calls(vec![list]), &vec![project()]);
    assert_eq!(app.call_stack(), 2);
    app.on_message(&answer("There is src."), &none());
    assert_eq!(app.on_message(&OllamaMessage::EOF, &none()), vec![]);
    assert_eq!(app.call_stack(), 1);
    assert_eq!(
        app.on_message(&OllamaMessage::EOF, &none()),
        vec![Effect::Show(StdoutMessage::EOF)]
    );
    assert_eq!(app.call_stack(), 0);
    let history = app.history();
    assert_eq!(history.len(), 4);
    assert_eq!(history[3], plain(Role::Assistant, "There is src."));
}

#[test]
fn second_turn_starts_with_an_empty_answer() {
    let mut app = started("one");
    app.on_message(&answer("first"), &none());
    app.on_message(&OllamaMessage::EOF, &none());
    app.repl(Some("two".to_string())).unwrap();
    app.on_message(&answer("second"), &none());
    app.on_message(&OllamaMessage::EOF, &none());
    assert_eq!(app.history()[4], plain(Role::Assistant, "second"));
}

#[test]
fn reads_names_what_to_read_for_each_call() {
    let mut app = App::with_depth_limit(3);
    let calls = tool_calls(vec![
        call("read_file", vec![text_arg("path", "a")]),
        call("foo_bar", vec![]),
        call("pwd", vec![]),
    ]);
    assert_eq!(app.reads(&calls), vec![]);
    app.repl(Some("go".to_string())).unwrap();
    assert_eq!(
        app.reads(&calls),
        vec![Some(FsRequest::File("a".to_string())), None, None]
    );
    assert_eq!(app.reads(&answer("x")), vec![]);
    assert_eq!(app.reads(&OllamaMessage::EOF), vec![]);
    let mut wide = started("go");
    assert_eq!(
        wide.reads(&calls),
        vec![Some(FsRequest::File("a".to_string())), None, Some(FsRequest::CurrentDir)]
    );
    wide.on_message(&OllamaMessage::EOF, &none());
    assert_eq!(wide.reads(&calls), vec![]);
}

#[test]
fn second_turn_follows_the_first() {
    let mut app = started("one");
    app.on_message(&answer("first"), &none());
    app.on_message(&OllamaMessage::EOF, &none());
    let launched = app.repl(Some("two".to_string()));
    let expected = vec![
        plain(Role::System, SYSTEM_PROMPT),
        plain(Role::User, "one"),
        plain(Role::Assistant, "first"),
        plain(Role::User, "two"),
    ];
    assert_eq!(launched, Ok(Some(expected)));
    assert_eq!(app.call_stack(), 1);
}

#[test]
fn launched_snapshot_is_not_changed_by_later_appends() {
    let mut app = App::new();
    let snapshot = app.repl(Some("question".to_string())).unwrap().unwrap();
    let before = snapshot.clone();
    app.on_message(&tool_calls(vec![call("pwd", vec![])]), &vec![FsReply::Text("/".to_string())]);
    app.on_message(&OllamaMessage::EOF, &none());
    app.on_message(&answer("x"), &none());
    app.on_message(&OllamaMessage::EOF, &none());
    assert_eq!(snapshot, before);
    assert_eq!(snapshot.len(), 2);
    assert_eq!(app.history().len(), 4);
    assert_eq!(app.history()[..2], snapshot[..]);
}

#[test]
fn dispatch_tool_runs_known_tools() {
    let app = App::new();
    assert_eq!(
        app.dispatch_tool(
            &call("read_file", vec![text_arg("path", "a")]),
            &FsReply::Text("body".to_string())
        ),
        Ok("body".to_string())
    );
    assert_eq!(
        app.dispatch_tool(
            &call("grep", vec![text_arg("path", "a"), text_arg("search_pattern", "b")]),
            &FsReply::Lines(vec!["abc".to_string()])
        ),
        Ok("Found 1 matches:\n1:abc".to_string())
    );
}

#[test]
fn dispatch_tool_marks_errors() {
    let app = App::new();
    assert_eq!(
        app.dispatch_tool(&call("foo_bar", vec![]), &FsReply::Nothing),
        Err("ERR: Tool foo_bar not found".to_string())
    );
    assert_eq!(
        app.dispatch_tool(&call("grep", vec![text_arg("path", "a")]), &FsReply::Nothing),
        Err("ERR: Missing Grep Parameter 'search_pattern'".to_string())
    );
    assert_eq!(
        app.dispatch_tool(&call("pwd", vec![]), &FsReply::Failed("denied".to_string())),
        Err("ERR: denied".to_string())
    );
}

#[test]
fn announce_writes_the_arguments() {
    let several = call(
        "grep",
        vec![
            text_arg("path", "src/main.rs"),
            Argument { name: "limit".to_string(), value: ArgValue::Other("5".to_string()) },
        ],
    );
    assert_eq!(
        announce(&several),
        "\n TOOL CALL grep - {\"path\": \"src/main.rs\", \"limit\": 5}"
    );
    assert_eq!(announce(&call("pwd", vec![])), "\n TOOL CALL pwd - {}");
}

#[test]
fn render_writes_each_kind_of_message() {
    let thought = StdoutMessage::Italic("hmm".to_string());
    assert_eq!(thought.render(true), Some("\x1b[3mhmm\x1b[0m".to_string()));
    assert_eq!(thought.render(false), None);
    assert_eq!(StdoutMessage::Inline("a".to_string()).render(false), Some("a".to_string()));
    assert_eq!(
        StdoutMessage::WithNewLine("tool".to_string()).render(false),
        Some("tool\n".to_string())
    );
    assert_eq!(StdoutMessage::Error("bad".to_string()).render(true), Some("bad\n".to_string()));
    assert_eq!(StdoutMessage::EOF.render(true), None);
}

#[test]
fn app_error_says_what_went_wrong() {
    assert_eq!(AppError::PromptMissing.message(), "Expected Prompt, Got None");
    assert_eq!(AppError::SendError(StdoutMessage::EOF).message(), "channel closed");
}

#[test]
fn stdout_message_clone_keeps_the_text() {
    let message = StdoutMessage::Error("e".to_string());
    assert_eq!(message.clone(), message);
    assert_eq!(StdoutMessage::EOF.clone(), StdoutMessage::EOF);
}
