use ollama_code::assistant::{
    displayed, merge_reply, no_message, present, reply_part, Assistant, AssistantError,
    AssistantStep, Next,
};
use ollama_code::message::{
    add_assistant_response, system_prompt, tool_calls_prompt, tool_prompt, user_prompt, ArgValue,
    Argument, ToolCall,
};
use ollama_code::ollama::{chat_request, ModelMessage};
use ollama_code::tools::{FsReply, FsRequest};

fn text_arg(name: &str, value: &str) -> Argument {
    Argument { name: name.to_string(), value: ArgValue::Text(value.to_string()) }
}

fn call(name: &str, arguments: Vec<Argument>) -> ToolCall {
    ToolCall { name: name.to_string(), arguments }
}

fn wants(calls: Vec<ToolCall>) -> ModelMessage {
    ModelMessage { content: None, thinking: None, tool_calls: Some(calls) }
}

fn says(content: &str) -> ModelMessage {
    ModelMessage { content: Some(content.to_string()), thinking: None, tool_calls: None }
}

#[test]
fn new_assistant_holds_the_system_message() {
    let assistant = Assistant::new("llama3.1:8b".to_string());
    assert_eq!(assistant.conversation(), vec![system_prompt()]);
}

#[test]
fn ask_gives_the_first_request() {
    let mut assistant = Assistant::new("llama3.1:8b".to_string());
    let request = assistant.ask("what is here?");
    let expected = vec![system_prompt(), user_prompt("what is here?")];
    assert_eq!(request, chat_request("llama3.1:8b", expected.clone()));
    assert!(request.stream);
    assert_eq!(request.model, "llama3.1:8b");
    assert_eq!(request.messages, expected);
    let tools: Vec<&str> = request.tools.iter().map(|t| t.name.as_str()).collect();
    assert_eq!(tools, vec!["list_directory", "read_file", "pwd", "grep"]);
    assert_eq!(assistant.conversation(), expected);
}

#[test]
fn answer_ends_the_question() {
    let mut assistant = Assistant::new("m".to_string());
    assistant.ask("q");
    let step = assistant.on_reply(&says("the answer"), &vec![], "");
    assert_eq!(
        step,
        AssistantStep { progress: vec![], outcome: Ok(Next::Answer("the answer".to_string())) }
    );
    assert_eq!(
        assistant.conversation(),
        vec![system_prompt(), user_prompt("q"), add_assistant_response("the answer")]
    );
}

#[test]
fn tool_calls_lead_to_the_next_request() {
    let mut assistant = Assistant::new("m".to_string());
    assistant.ask("where am I?");
    let calls = vec![call("pwd", vec![])];
    let step =
        assistant.on_reply(&wants(calls.clone()), &vec![FsReply::Text("/work\n".to_string())], "");
    let expected = vec![
        system_prompt(),
        user_prompt("where am I?"),
        tool_calls_prompt(&calls),
        tool_prompt("/work\n", "pwd"),
    ];
    assert_eq!(
        step.progress,
        vec![
            "\u{1F4CD} Getting current directory...".to_string(),
            "   Current directory: /work".to_string(),
        ]
    );
    assert_eq!(step.outcome, Ok(Next::Request(chat_request("m", expected.clone()))));
    assert_eq!(assistant.conversation(), expected);
}

#[test]
fn progress_tells_of_each_tool() {
    let mut assistant = Assistant::new("m".to_string());
    assistant.ask("q");
    let calls = vec![
        call("list_directory", vec![text_arg("path", "src")]),
        call("read_file", vec![text_arg("path", "a.txt")]),
        call("grep", vec![text_arg("path", "a.txt"), text_arg("search_pattern", "x")]),
    ];
    let replies = vec![
        FsReply::Directory { path: "/w/src".to_string(), entries: vec![] },
        FsReply::Text("h\u{e9}llo".to_string()),
        FsReply::Lines(vec!["x".to_string()]),
    ];
    let step = assistant.on_reply(&wants(calls), &replies, "");
    assert_eq!(
        step.progress,
        vec![
            "\u{1F4C1} Listing directory: src".to_string(),
            "   Found 3 items".to_string(),
            "\u{1F4C4} Reading file: a.txt".to_string(),
            "   Read 6 characters".to_string(),
            "\u{1F50D} Searching for 'x' in a.txt".to_string(),
            "   Search completed".to_string(),
        ]
    );
    assert!(matches!(step.outcome, Ok(Next::Request(_))));
}

#[test]
fn failed_tool_is_told_to_the_model() {
    let mut assistant = Assistant::new("m".to_string());
    assistant.ask("q");
    let calls = vec![
        call("read_file", vec![text_arg("path", "nope")]),
        call("list_directory", vec![]),
        call("pwd", vec![]),
        call("grep", vec![text_arg("path", "f"), text_arg("search_pattern", "x")]),
    ];
    let gone = || FsReply::Failed("No such file".to_string());
    let step = assistant.on_reply(&wants(calls), &vec![gone(), gone(), gone(), gone()], "");
    assert_eq!(
        step.progress,
        vec![
            "\u{1F4C4} Reading file: nope".to_string(),
            "   \u{274C} ERROR: Could not read file 'nope' - No such file".to_string(),
            "\u{1F4C1} Listing directory: .".to_string(),
            "   \u{274C} ERROR: Could not list directory '.' - No such file".to_string(),
            "\u{1F4CD} Getting current directory...".to_string(),
            "   \u{274C} ERROR: Could not get current directory - No such file".to_string(),
            "\u{1F50D} Searching for 'x' in f".to_string(),
            "   \u{274C} ERROR: Could not search in file 'f' - No such file".to_string(),
        ]
    );
    assert!(matches!(step.outcome, Ok(Next::Request(_))));
    let conversation = assistant.conversation();
    assert_eq!(conversation.len(), 7);
    assert_eq!(
        conversation[3],
        tool_prompt("ERROR: Could not read file 'nope' - No such file", "read_file")
    );
    assert_eq!(
        conversation[6],
        tool_prompt("ERROR: Could not search in file 'f' - No such file", "grep")
    );
}

#[test]
fn unknown_tool_becomes_a_tool_message_for_the_assistant() {
    let mut assistant = Assistant::new("m".to_string());
    let (progress, ran) = assistant.execute_tools(&vec![call("foo_bar", vec![])], &vec![]);
    assert_eq!(ran, Ok(()));
    assert_eq!(progress, vec!["   \u{274C} ERR: Tool foo_bar not found".to_string()]);
    assert_eq!(
        assistant.conversation(),
        vec![system_prompt(), tool_prompt("ERR: Tool foo_bar not found", "foo_bar")]
    );
}

#[test]
fn question_goes_on_after_an_unknown_tool() {
    let mut assistant = Assistant::new("m".to_string());
    assistant.ask("q");
    let calls = vec![call("pwd", vec![]), call("foo_bar", vec![]), call("pwd", vec![])];
    let replies =
        vec![FsReply::Text("/a".to_string()), FsReply::Nothing, FsReply::Text("/b".to_string())];
    let step = assistant.on_reply(&wants(calls.clone()), &replies, "");
    let expected = vec![
        system_prompt(),
        user_prompt("q"),
        tool_calls_prompt(&calls),
        tool_prompt("/a", "pwd"),
        tool_prompt("ERR: Tool foo_bar not found", "foo_bar"),
        tool_prompt("/b", "pwd"),
    ];
    assert_eq!(step.progress.len(), 5);
    assert_eq!(step.outcome, Ok(Next::Request(chat_request("m", expected.clone()))));
    assert_eq!(assistant.conversation(), expected);
    let step = assistant.on_reply(&says("I cannot do that."), &vec![], "");
    assert_eq!(step.outcome, Ok(Next::Answer("I cannot do that.".to_string())));
    assert_eq!(assistant.conversation().len(), 7);
    assert_eq!(assistant.conversation()[6], add_assistant_response("I cannot do that."));
}

#[test]
fn search_without_its_arguments_becomes_a_tool_message() {
    let mut assistant = Assistant::new("m".to_string());
    assistant.ask("q");
    let step = assistant.on_reply(&wants(vec![call("grep", vec![])]), &vec![], "");
    assert!(matches!(step.outcome, Ok(Next::Request(_))));
    assert_eq!(
        assistant.conversation()[3],
        tool_prompt("ERR: Missing Grep Parameter 'path'", "grep")
    );
    let step =
        assistant.on_reply(&wants(vec![call("grep", vec![text_arg("path", "f")])]), &vec![], "");
    assert!(matches!(step.outcome, Ok(Next::Request(_))));
    assert_eq!(
        assistant.conversation()[5],
        tool_prompt("ERR: Missing Grep Parameter 'search_pattern'", "grep")
    );
}

#[test]
fn reply_without_answer_or_calls_is_an_error() {
    let mut assistant = Assistant::new("m".to_string());
    assistant.ask("q");
    let empty = ModelMessage { content: None, thinking: Some("hmm".to_string()), tool_calls: None };
    let step = assistant.on_reply(&empty, &vec![], "{\"role\": \"assistant\"}");
    assert_eq!(
        step.outcome,
        Err(AssistantError::ToolError(
            "Invalid response format: {\"role\": \"assistant\"}".to_string()
        ))
    );
    assert_eq!(step.progress, Vec::<String>::new());
    assert_eq!(assistant.conversation(), vec![system_prompt(), user_prompt("q")]);
}

#[test]
fn tenth_request_is_the_last() {
    let mut assistant = Assistant::new("m".to_string());
    assistant.ask("q");
    let calls = vec![call("pwd", vec![])];
    for _ in 0..9 {
        let step =
            assistant.on_reply(&wants(calls.clone()), &vec![FsReply::Text("/".to_string())], "");
        assert!(matches!(step.outcome, Ok(Next::Request(_))));
    }
    let step = assistant.on_reply(&wants(calls.clone()), &vec![FsReply::Text("/".to_string())], "");
    assert_eq!(
        step.outcome,
        Err(AssistantError::ToolError(
            "Too many iterations, model not providing final answer".to_string()
        ))
    );
    assert_eq!(assistant.conversation().len(), 2 + 2 * 10);
    let request = assistant.ask("again");
    assert_eq!(request.messages.len(), 23);
    let step = assistant.on_reply(&wants(calls), &vec![FsReply::Text("/".to_string())], "");
    assert!(matches!(step.outcome, Ok(Next::Request(_))));
}

#[test]
fn rounds_of_tool_calls_stand_in_the_conversation_in_order() {
    let mut assistant = Assistant::new("m".to_string());
    let mut expected = vec![system_prompt(), user_prompt("dig")];
    let mut request = assistant.ask("dig");
    let rounds = [
        ("pwd", "ERROR: Could not get current directory - reason 0"),
        ("read_file", "ERROR: Could not read file '.' - reason 1"),
        ("list_directory", "ERROR: Could not list directory '.' - reason 2"),
    ];
    for (round, (name, result)) in rounds.iter().enumerate() {
        assert_eq!(request.messages, expected);
        let calls = vec![call(name, vec![])];
        let reply = FsReply::Failed(format!("reason {}", round));
        let step = assistant.on_reply(&wants(calls.clone()), &vec![reply], "");
        expected.push(tool_calls_prompt(&calls));
        expected.push(tool_prompt(result, name));
        request = match step.outcome {
            Ok(Next::Request(next)) => next,
            other => panic!("no request: {:?}", other),
        };
    }
    assert_eq!(request.messages, expected);
    let step = assistant.on_reply(&says("found it"), &vec![], "");
    assert_eq!(step.outcome, Ok(Next::Answer("found it".to_string())));
    expected.push(add_assistant_response("found it"));
    assert_eq!(assistant.conversation(), expected);
}

#[test]
fn execute_tools_runs_the_calls_in_order() {
    let mut assistant = Assistant::new("m".to_string());
    let calls = vec![call("pwd", vec![]), call("read_file", vec![text_arg("path", "a")])];
    let replies = vec![FsReply::Text("/w".to_string()), FsReply::Text("one\ntwo".to_string())];
    let (progress, ran) = assistant.execute_tools(&calls, &replies);
    assert_eq!(ran, Ok(()));
    assert_eq!(progress.len(), 4);
    assert_eq!(progress[3], "   Read 7 characters");
    assert_eq!(
        assistant.conversation(),
        vec![system_prompt(), tool_prompt("/w", "pwd"), tool_prompt("one\ntwo", "read_file")]
    );
}

#[test]
fn reads_names_what_to_read_for_a_reply() {
    let assistant = Assistant::new("m".to_string());
    let reply = wants(vec![
        call("grep", vec![text_arg("path", "f"), text_arg("search_pattern", "x")]),
        call("foo_bar", vec![]),
        call("list_directory", vec![]),
    ]);
    assert_eq!(
        assistant.reads(&reply),
        vec![
            Some(FsRequest::Lines("f".to_string())),
            None,
            Some(FsRequest::Directory(".".to_string())),
        ]
    );
    assert_eq!(assistant.reads(&says("x")), vec![]);
}

#[test]
fn merge_reply_joins_the_pieces_in_order() {
    let pieces = vec![
        ModelMessage { content: Some("Hel".to_string()), thinking: None, tool_calls: None },
        ModelMessage {
            content: None,
            thinking: Some("a".to_string()),
            tool_calls: Some(vec![call("pwd", vec![])]),
        },
        ModelMessage {
            content: Some("lo".to_string()),
            thinking: Some("b".to_string()),
            tool_calls: Some(vec![call("grep", vec![]), call("pwd", vec![])]),
        },
        ModelMessage { content: None, thinking: None, tool_calls: None },
    ];
    assert_eq!(
        merge_reply(&pieces),
        ModelMessage {
            content: Some("Hello".to_string()),
            thinking: Some("ab".to_string()),
            tool_calls: Some(vec![call("pwd", vec![]), call("grep", vec![]), call("pwd", vec![])]),
        }
    );
    assert_eq!(
        merge_reply(&vec![]),
        ModelMessage { content: None, thinking: None, tool_calls: None }
    );
    assert_eq!(merge_reply(&vec![says("")]), says(""));
}

#[test]
fn reply_part_asks_for_a_message() {
    assert_eq!(reply_part(Some(says("x")), "shown"), Ok(says("x")));
    assert_eq!(
        reply_part(None, "{\"done\":true}"),
        Err(AssistantError::ToolError("{\"done\":true} - No message in response".to_string()))
    );
    assert_eq!(
        no_message("r"),
        AssistantError::ToolError("r - No message in response".to_string())
    );
}

#[test]
fn assistant_error_says_what_went_wrong() {
    assert_eq!(AssistantError::RequestError("a".to_string()).message(), "a");
    assert_eq!(AssistantError::JsonError("b".to_string()).message(), "b");
    assert_eq!(AssistantError::ToolError("c".to_string()).message(), "c");
}

#[test]
fn displayed_prefers_the_answer_inside() {
    assert_eq!(displayed("{\"content\": \"hi\"}", Some("hi")), "\nhi\n");
    assert_eq!(displayed("plain words", None), "\nplain words\n");
    assert_eq!(displayed("", None), "\n\n");
}

#[test]
fn present_takes_the_content_of_a_json_answer() {
    assert_eq!(present("{\"content\": \"Based on the files\"}"), "\nBased on the files\n");
    assert_eq!(present("{\"content\": \"a \\\"b\\\" \\u00e9\", \"more\": 1}"), "\na \"b\" \u{e9}\n");
    assert_eq!(present("{\"content\": \"\"}"), "\n\n");
}

#[test]
fn present_shows_other_answers_whole() {
    assert_eq!(present("plain words"), "\nplain words\n");
    assert_eq!(present("{\"content\": 5}"), "\n{\"content\": 5}\n");
    assert_eq!(present("{\"other\": \"x\"}"), "\n{\"other\": \"x\"}\n");
    assert_eq!(present("[\"content\"]"), "\n[\"content\"]\n");
    assert_eq!(present("\"content\""), "\n\"content\"\n");
    assert_eq!(present("{\"content\": \"x\"} trailing"), "\n{\"content\": \"x\"} trailing\n");
}
