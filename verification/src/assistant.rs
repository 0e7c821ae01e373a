//! The assistant that asks the model one request after the other. It says
//! which request to send, makes the reply out of the pieces that come back,
//! has the tools that the model asks for run, and stops with an answer, or
//! with an error after too many requests.

use crate::constants::CONTENT;
use crate::conversation::{well_formed, Conversation};
use crate::json::{as_text, member, member_of, parse, parsed, string_of};
use crate::message::{
    add_assistant_response, assistant_message, call_views, message_views, tool_calls_message,
    tool_calls_prompt, tool_message, tool_prompt, user_message, user_prompt, MessageView, Role,
    ToolCall, ToolCallView,
};
use crate::ollama::{
    chat_request, request_of, ChatRequest, ChatRequestView, ModelMessage, ModelMessageView,
};
use crate::text::{
    byte_len, byte_length, followed_by, count_lines, decimal, line_count, texts, to_decimal, trim_text,
    trimmed,
};
use crate::app::{request_views, tool_error_line, tool_error_text};
use crate::tools::{
    call_result, plan, planned, reply_at, reply_views, resolved, FsReply, FsReplyView,
    FsRequest, FsRequestView, Tool, ToolView, Toolchain,
};
use vstd::prelude::*;

verus! {

/// The number of requests that one question may take.
pub const MAX_ROUNDS: usize = 10;

/// What is said after too many requests.
pub const TOO_MANY_ROUNDS: &'static str = "Too many iterations, model not providing final answer";

/// What is said, before the reply as it is shown, of a reply that holds
/// neither an answer nor tool calls.
pub const INVALID_RESPONSE: &'static str = "Invalid response format: ";

/// Why a question found no answer, each with what went wrong.
#[derive(Debug, PartialEq, Eq)]
pub enum AssistantError {
    RequestError(String),
    JsonError(String),
    ToolError(String),
}

pub enum AssistantErrorView {
    RequestError(Seq<char>),
    JsonError(Seq<char>),
    ToolError(Seq<char>),
}

impl View for AssistantError {
    type V = AssistantErrorView;

    open spec fn view(&self) -> AssistantErrorView {
        match self {
            AssistantError::RequestError(e) => AssistantErrorView::RequestError(e@),
            AssistantError::JsonError(e) => AssistantErrorView::JsonError(e@),
            AssistantError::ToolError(e) => AssistantErrorView::ToolError(e@),
        }
    }
}

/// What an error says.
pub open spec fn error_text(error: AssistantErrorView) -> Seq<char> {
    match error {
        AssistantErrorView::RequestError(e) => e,
        AssistantErrorView::JsonError(e) => e,
        AssistantErrorView::ToolError(e) => e,
    }
}

impl AssistantError {
    /// What the error says.
    pub fn message(&self) -> (r: String)
        ensures
            r@ == error_text(self@),
    {
        match self {
            AssistantError::RequestError(e) => e.clone(),
            AssistantError::JsonError(e) => e.clone(),
            AssistantError::ToolError(e) => e.clone(),
        }
    }
}

/// What is said of a response that holds no message: the response, and
/// that the message is missing.
pub open spec fn no_message_text(response: Seq<char>) -> Seq<char> {
    response + " - No message in response"@
}

/// The error for a response that holds no message.
pub fn no_message(response: &str) -> (r: AssistantError)
    ensures
        r@ == AssistantErrorView::ToolError(no_message_text(response@)),
{
    AssistantError::ToolError(followed_by(response, " - No message in response"))
}

/// The message of one object of a response, or the error where the object
/// holds none. `shown` is the object as it is to be shown in the error.
pub fn reply_part(message: Option<ModelMessage>, shown: &str) -> (r: Result<
    ModelMessage,
    AssistantError,
>)
    ensures
        match r {
            Ok(part) => message == Some(part),
            Err(e) => message is None && e@ == AssistantErrorView::ToolError(
                no_message_text(shown@),
            ),
        },
{
    match message {
        Some(part) => Ok(part),
        None => Err(no_message(shown)),
    }
}

/// Two pieces of a text, one after the other; a piece that is missing adds
/// nothing.
pub open spec fn joined_text(a: Option<Seq<char>>, b: Option<Seq<char>>) -> Option<Seq<char>> {
    match (a, b) {
        (None, _) => b,
        (Some(_), None) => a,
        (Some(x), Some(y)) => Some(x + y),
    }
}

/// Two lists of tool calls, one after the other; a list that is missing
/// adds nothing.
pub open spec fn joined_calls(
    a: Option<Seq<ToolCallView>>,
    b: Option<Seq<ToolCallView>>,
) -> Option<Seq<ToolCallView>> {
    match (a, b) {
        (None, _) => b,
        (Some(_), None) => a,
        (Some(x), Some(y)) => Some(x + y),
    }
}

/// The views of the messages, in the same order.
pub open spec fn part_views(parts: Seq<ModelMessage>) -> Seq<ModelMessageView> {
    parts.map_values(|m: ModelMessage| m@)
}

/// The whole reply that the pieces of a streamed response make up: the
/// fragments of the answer one after the other, those of the thinking
/// likewise, and all the tool calls, each in the order in which it came.
pub open spec fn merged(parts: Seq<ModelMessageView>) -> ModelMessageView
    decreases parts.len(),
{
    if parts.len() == 0 {
        ModelMessageView { content: None, thinking: None, tool_calls: None }
    } else {
        let earlier = merged(parts.drop_last());
        ModelMessageView {
            content: joined_text(earlier.content, parts.last().content),
            thinking: joined_text(earlier.thinking, parts.last().thinking),
            tool_calls: joined_calls(earlier.tool_calls, parts.last().tool_calls),
        }
    }
}

fn join_text(a: Option<String>, b: &Option<String>) -> (r: Option<String>)
    ensures
        crate::ollama::text_view(r) == joined_text(
            crate::ollama::text_view(a),
            crate::ollama::text_view(*b),
        ),
{
    match (a, b) {
        (None, None) => None,
        (None, Some(y)) => Some(y.clone()),
        (Some(x), None) => Some(x),
        (Some(x), Some(y)) => {
            let mut x = x;
            x.append(y.as_str());
            Some(x)
        },
    }
}

/// The views of calls that may be missing.
pub open spec fn calls_view(calls: Option<Vec<ToolCall>>) -> Option<Seq<ToolCallView>> {
    match calls {
        Some(calls) => Some(call_views(calls@)),
        None => None,
    }
}

fn join_calls(a: Option<Vec<ToolCall>>, b: &Option<Vec<ToolCall>>) -> (r: Option<Vec<ToolCall>>)
    ensures
        calls_view(r) == joined_calls(calls_view(a), calls_view(*b)),
{
    match (a, b) {
        (None, None) => None,
        (None, Some(y)) => Some(crate::message::clone_calls(y)),
        (Some(x), None) => Some(x),
        (Some(x), Some(y)) => {
            let mut x = x;
            let ghost start = call_views(x@);
            let mut i: usize = 0;
            while i < y.len()
                invariant
                    i <= y.len(),
                    call_views(x@) == start + call_views(y@).take(i as int),
                decreases y.len() - i,
            {
                let call = y[i].clone();
                assert(call_views(x@.push(call)) =~= call_views(x@).push(call@));
                x.push(call);
                i += 1;
            }
            Some(x)
        },
    }
}

/// Makes the whole reply out of the pieces of a streamed response.
pub fn merge_reply(parts: &Vec<ModelMessage>) -> (r: ModelMessage)
    ensures
        r@ == merged(part_views(parts@)),
{
    let mut content: Option<String> = None;
    let mut thinking: Option<String> = None;
    let mut tool_calls: Option<Vec<ToolCall>> = None;
    let mut i: usize = 0;
    while i < parts.len()
        invariant
            i <= parts.len(),
            (ModelMessageView {
                content: crate::ollama::text_view(content),
                thinking: crate::ollama::text_view(thinking),
                tool_calls: calls_view(tool_calls),
            }) == merged(part_views(parts@).take(i as int)),
        decreases parts.len() - i,
    {
        assert(part_views(parts@).take(i + 1).drop_last() =~= part_views(parts@).take(i as int));
        content = join_text(content, &parts[i].content);
        thinking = join_text(thinking, &parts[i].thinking);
        tool_calls = join_calls(tool_calls, &parts[i].tool_calls);
        i += 1;
    }
    assert(part_views(parts@).take(parts.len() as int) =~= part_views(parts@));
    ModelMessage { content, thinking, tool_calls }
}

/// What comes after a reply: the next request, or the answer.
#[derive(Debug, PartialEq, Eq)]
pub enum Next {
    Request(ChatRequest),
    Answer(String),
}

pub enum NextView {
    Request(ChatRequestView),
    Answer(Seq<char>),
}

impl View for Next {
    type V = NextView;

    open spec fn view(&self) -> NextView {
        match self {
            Next::Request(r) => NextView::Request(r@),
            Next::Answer(a) => NextView::Answer(a@),
        }
    }
}

/// What a reply led to: the lines that tell of the tools that ran, and what
/// comes next.
#[derive(Debug, PartialEq, Eq)]
pub struct AssistantStep {
    pub progress: Vec<String>,
    pub outcome: Result<Next, AssistantError>,
}

pub struct AssistantStepView {
    pub progress: Seq<Seq<char>>,
    pub outcome: Result<NextView, AssistantErrorView>,
}

impl View for AssistantStep {
    type V = AssistantStepView;

    open spec fn view(&self) -> AssistantStepView {
        AssistantStepView {
            progress: texts(self.progress@),
            outcome: match self.outcome {
                Ok(n) => Ok(n@),
                Err(e) => Err(e@),
            },
        }
    }
}

/// The state of the assistant: the model that it asks, the conversation, and
/// the number of requests that the question at hand has taken.
pub struct AssistantView {
    pub model: Seq<char>,
    pub conversation: Seq<MessageView>,
    pub rounds: nat,
}

/// The request that sends the whole conversation to the model. Like every
/// request it asks for a streamed response.
pub open spec fn request_for(s: AssistantView) -> ChatRequestView {
    request_of(s.model, s.conversation)
}

/// The state after a question: it stands at the end of the conversation,
/// and the first request is counted.
pub open spec fn asked(s: AssistantView, question: Seq<char>) -> AssistantView {
    AssistantView {
        model: s.model,
        conversation: s.conversation.push(user_message(question)),
        rounds: 1,
    }
}

/// The line that tells that something went wrong with a tool.
pub open spec fn failure_line(text: Seq<char>) -> Seq<char> {
    "   \u{274C} "@ + text
}

/// The line that tells that a tool is about to run.
pub open spec fn starting_line(tool: ToolView) -> Seq<char> {
    match tool {
        ToolView::ReadDirectory(path) => "\u{1F4C1} Listing directory: "@ + path,
        ToolView::ReadFile(path) => "\u{1F4C4} Reading file: "@ + path,
        ToolView::CurrentDir => "\u{1F4CD} Getting current directory..."@,
        ToolView::Grep { search_string, path } => "\u{1F50D} Searching for '"@ + search_string
            + "' in "@ + path,
    }
}

/// The line that tells what a tool gave.
pub open spec fn success_line(tool: ToolView, result: Seq<char>) -> Seq<char> {
    match tool {
        ToolView::ReadDirectory(_) => "   Found "@ + decimal(line_count(result)) + " items"@,
        ToolView::ReadFile(_) => "   Read "@ + decimal(byte_length(result))
            + " characters"@,
        ToolView::CurrentDir => "   Current directory: "@ + trimmed(result),
        ToolView::Grep { search_string, path } => "   Search completed"@,
    }
}

/// What goes back to the model where a tool failed.
pub open spec fn failure_text(tool: ToolView, reason: Seq<char>) -> Seq<char> {
    match tool {
        ToolView::ReadDirectory(path) => "ERROR: Could not list directory '"@ + path + "' - "@
            + reason,
        ToolView::ReadFile(path) => "ERROR: Could not read file '"@ + path + "' - "@ + reason,
        ToolView::CurrentDir => "ERROR: Could not get current directory - "@ + reason,
        ToolView::Grep { search_string, path } => "ERROR: Could not search in file '"@ + path
            + "' - "@ + reason,
    }
}

/// What goes back to the model for a tool: its answer, or that it failed.
pub open spec fn outcome_text(tool: ToolView, reply: FsReplyView) -> Seq<char> {
    match call_result(tool, reply) {
        Ok(v) => v,
        Err(e) => failure_text(tool, e),
    }
}

/// The two lines that tell of one tool: that it starts, and what it gave or
/// that it failed.
pub open spec fn progress_lines(tool: ToolView, reply: FsReplyView) -> Seq<Seq<char>> {
    seq![
        starting_line(tool),
        match call_result(tool, reply) {
            Ok(v) => success_line(tool, v),
            Err(e) => failure_line(failure_text(tool, e)),
        },
    ]
}

/// What running calls one after the other led to: the messages for the
/// model and the lines that tell of the tools.
pub struct ToolsRun {
    pub messages: Seq<MessageView>,
    pub progress: Seq<Seq<char>>,
}

/// What one call adds to the conversation: what its tool gave, or that the
/// tool failed, or, for a call that names no tool that can be run, that
/// this is so. Under every one of them the model finds the name that it
/// called.
pub open spec fn call_message(call: ToolCallView, reply: FsReplyView) -> MessageView {
    match resolved(call) {
        Err(e) => tool_message(tool_error_text(e), call.name),
        Ok(tool) => tool_message(outcome_text(tool, reply), call.name),
    }
}

/// The lines that tell of one call.
pub open spec fn call_progress(call: ToolCallView, reply: FsReplyView) -> Seq<Seq<char>> {
    match resolved(call) {
        Err(e) => seq![failure_line(tool_error_text(e))],
        Ok(tool) => progress_lines(tool, reply),
    }
}

/// Runs the calls in their order. No call stops the run: each adds one
/// message of a tool.
pub open spec fn executed(calls: Seq<ToolCallView>, replies: Seq<FsReplyView>) -> ToolsRun
    decreases calls.len(),
{
    if calls.len() == 0 {
        ToolsRun { messages: Seq::empty(), progress: Seq::empty() }
    } else {
        let earlier = executed(calls.drop_last(), replies);
        let reply = reply_at(replies, calls.len() - 1);
        ToolsRun {
            messages: earlier.messages.push(call_message(calls.last(), reply)),
            progress: earlier.progress + call_progress(calls.last(), reply),
        }
    }
}

/// What has to be read before a reply is taken: for each of its tool calls,
/// in their order, what the tool asks for; nothing for a call that names no
/// tool.
pub open spec fn reads_for(reply: ModelMessageView) -> Seq<Option<FsRequestView>> {
    match reply.tool_calls {
        Some(calls) => Seq::new(calls.len(), |i: int| planned(calls[i])),
        None => Seq::empty(),
    }
}

/// The state after a reply. Tool calls go to the end of the conversation,
/// followed by one message for each call, and one more request is counted
/// unless the requests are used up. An answer goes to the end of the
/// conversation. Anything else changes nothing.
pub open spec fn replied(
    s: AssistantView,
    reply: ModelMessageView,
    replies: Seq<FsReplyView>,
) -> AssistantView {
    match reply.tool_calls {
        Some(calls) => {
            let run = executed(calls, replies);
            AssistantView {
                model: s.model,
                conversation: s.conversation.push(tool_calls_message(calls)) + run.messages,
                rounds: if s.rounds < MAX_ROUNDS {
                    s.rounds + 1
                } else {
                    s.rounds
                },
            }
        },
        None => match reply.content {
            Some(content) => AssistantView {
                model: s.model,
                conversation: s.conversation.push(assistant_message(content)),
                rounds: s.rounds,
            },
            None => s,
        },
    }
}

/// What a reply leads to: the lines that tell of the tools, and then the
/// next request, the answer, or the error. `shown` is the reply as it is
/// shown where it holds neither an answer nor tool calls.
pub open spec fn reply_step(
    s: AssistantView,
    reply: ModelMessageView,
    replies: Seq<FsReplyView>,
    shown: Seq<char>,
) -> AssistantStepView {
    match reply.tool_calls {
        Some(calls) => {
            let run = executed(calls, replies);
            AssistantStepView {
                progress: run.progress,
                outcome: if s.rounds < MAX_ROUNDS {
                    Ok(NextView::Request(request_for(replied(s, reply, replies))))
                } else {
                    Err(AssistantErrorView::ToolError(TOO_MANY_ROUNDS@))
                },
            }
        },
        None => AssistantStepView {
            progress: Seq::empty(),
            outcome: match reply.content {
                Some(content) => Ok(NextView::Answer(content)),
                None => Err(AssistantErrorView::ToolError(INVALID_RESPONSE@ + shown)),
            },
        },
    }
}

/// The assistant.
#[derive(Debug)]
pub struct Assistant {
    model: String,
    toolchain: Toolchain,
    conversation: Conversation,
    rounds: usize,
}

impl View for Assistant {
    type V = AssistantView;

    closed spec fn view(&self) -> AssistantView {
        AssistantView {
            model: self.model@,
            conversation: self.conversation@,
            rounds: self.rounds as nat,
        }
    }
}

fn starting(tool: &Tool) -> (r: String)
    ensures
        r@ == starting_line(tool@),
{
    match tool {
        Tool::ReadDirectory(path) => followed_by("\u{1F4C1} Listing directory: ", path.as_str()),
        Tool::ReadFile(path) => followed_by("\u{1F4C4} Reading file: ", path.as_str()),
        Tool::CurrentDir => String::from_str("\u{1F4CD} Getting current directory..."),
        Tool::Grep { search_string, path } => {
            let mut r = followed_by("\u{1F50D} Searching for '", search_string.as_str());
            r.append("' in ");
            r.append(path.as_str());
            r
        },
    }
}

fn success(tool: &Tool, result: &str) -> (r: String)
    ensures
        r@ == success_line(tool@, result@),
{
    match tool {
        Tool::ReadDirectory(_) => {
            let mut r = followed_by("   Found ", to_decimal(count_lines(result)).as_str());
            r.append(" items");
            r
        },
        Tool::ReadFile(_) => {
            let mut r = followed_by("   Read ", to_decimal(byte_len(result)).as_str());
            r.append(" characters");
            r
        },
        Tool::CurrentDir => followed_by("   Current directory: ", trim_text(result).as_str()),
        Tool::Grep { search_string, path } => String::from_str("   Search completed"),
    }
}

fn failure(tool: &Tool, reason: &str) -> (r: String)
    ensures
        r@ == failure_text(tool@, reason@),
{
    match tool {
        Tool::ReadDirectory(path) => {
            let mut r = followed_by("ERROR: Could not list directory '", path.as_str());
            r.append("' - ");
            r.append(reason);
            r
        },
        Tool::ReadFile(path) => {
            let mut r = followed_by("ERROR: Could not read file '", path.as_str());
            r.append("' - ");
            r.append(reason);
            r
        },
        Tool::CurrentDir => followed_by("ERROR: Could not get current directory - ", reason),
        Tool::Grep { search_string, path } => {
            let mut r = followed_by("ERROR: Could not search in file '", path.as_str());
            r.append("' - ");
            r.append(reason);
            r
        },
    }
}

impl Assistant {
    /// An assistant that asks `model`, with a conversation that holds the
    /// system message and nothing else.
    pub fn new(model: String) -> (r: Self)
        ensures
            r@ == (AssistantView {
                model: model@,
                conversation: seq![crate::message::system_message()],
                rounds: 0,
            }),
    {
        Assistant { model, toolchain: Toolchain::default(), conversation: Conversation::new(), rounds: 0 }
    }

    /// A copy of the conversation as it is now.
    pub fn conversation(&self) -> (r: Vec<crate::message::Message>)
        ensures
            message_views(r@) == self@.conversation,
    {
        self.conversation.snapshot()
    }

    /// Takes a question and gives the first request to send.
    pub fn ask(&mut self, question: &str) -> (r: ChatRequest)
        ensures
            final(self)@ == asked(old(self)@, question@),
            r@ == request_for(final(self)@),
    {
        self.conversation.append(user_prompt(question));
        self.rounds = 1;
        chat_request(self.model.as_str(), self.conversation.snapshot())
    }

    /// What has to be read before `reply` is handed to `on_reply`: one
    /// entry for each of its tool calls, in their order.
    pub fn reads(&self, reply: &ModelMessage) -> (r: Vec<Option<FsRequest>>)
        ensures
            request_views(r@) == reads_for(reply@),
    {
        let mut out: Vec<Option<FsRequest>> = Vec::new();
        if let Some(calls) = &reply.tool_calls {
            let mut i: usize = 0;
            while i < calls.len()
                invariant
                    i <= calls.len(),
                    out.len() == i,
                    reply@.tool_calls == Some(call_views(calls@)),
                    forall|k: int|
                        0 <= k < i ==> (#[trigger] request_views(out@)[k]) == reads_for(reply@)[k],
                decreases calls.len() - i,
            {
                let request = plan(&calls[i]);
                let ghost before = request_views(out@);
                out.push(request);
                assert(request_views(out@) =~= before.push(request_views(out@)[i as int]));
                i += 1;
            }
        }
        out
    }

    /// Runs the tools that the model asked for, each on what was read for
    /// it. No call stops the run: what a tool gave, that it failed, or that
    /// the call names no tool goes to the end of the conversation as a
    /// tool's message, and the next call is taken.
    pub fn execute_tools(&mut self, tool_calls: &Vec<ToolCall>, replies: &Vec<FsReply>) -> (r: (
        Vec<String>,
        Result<(), AssistantError>,
    ))
        ensures
            final(self)@.conversation == old(self)@.conversation + executed(
                call_views(tool_calls@),
                reply_views(replies@),
            ).messages,
            final(self)@.model == old(self)@.model,
            final(self)@.rounds == old(self)@.rounds,
            texts(r.0@) == executed(
                call_views(tool_calls@),
                reply_views(replies@),
            ).progress,
            r.1 is Ok,
    {
        let ghost all = call_views(tool_calls@);
        let ghost given = reply_views(replies@);
        let ghost start = self@.conversation;
        let nothing = FsReply::Nothing;
        let mut progress: Vec<String> = Vec::new();
        let mut i: usize = 0;
        while i < tool_calls.len()
            invariant
                i <= tool_calls.len(),
                all == call_views(tool_calls@),
                given == reply_views(replies@),
                nothing@ == FsReplyView::Nothing,
                self@.model == old(self)@.model,
                self@.rounds == old(self)@.rounds,
                start == old(self)@.conversation,
                self@.conversation == start + executed(all.take(i as int), given).messages,
                texts(progress@) == executed(all.take(i as int), given).progress,
            decreases tool_calls.len() - i,
        {
            let call = &tool_calls[i];
            let reply = if i < replies.len() {
                &replies[i]
            } else {
                &nothing
            };
            assert(all.take(i + 1).drop_last() =~= all.take(i as int));
            match Tool::resolve(call) {
                Err(e) => {
                    let text = tool_error_line(&e);
                    progress.push(followed_by("   \u{274C} ", text.as_str()));
                    self.conversation.append(tool_prompt(text.as_str(), call.name.as_str()));
                    assert(self@.conversation =~= start + executed(
                        all.take(i + 1),
                        given,
                    ).messages);
                },
                Ok(tool) => {
                    let before = starting(&tool);
                    let (text, after) = match self.toolchain.call(tool.clone(), reply) {
                        Ok(result) => {
                            let line = success(&tool, result.as_str());
                            (result, line)
                        },
                        Err(e) => {
                            let text = failure(&tool, e.as_str());
                            let line = followed_by("   \u{274C} ", text.as_str());
                            (text, line)
                        },
                    };
                    progress.push(before);
                    progress.push(after);
                    self.conversation.append(tool_prompt(text.as_str(), call.name.as_str()));
                    assert(self@.conversation =~= start + executed(
                        all.take(i + 1),
                        given,
                    ).messages);
                },
            }
            i += 1;
        }
        assert(all.take(tool_calls.len() as int) =~= all);
        (progress, Ok(()))
    }

    /// Takes the model's reply, with what was read for its tool calls, each
    /// in the order of the calls, and says what comes next. `shown` is the
    /// reply as it is to be shown in an error.
    pub fn on_reply(&mut self, reply: &ModelMessage, replies: &Vec<FsReply>, shown: &str) -> (r:
        AssistantStep)
        ensures
            final(self)@ == replied(old(self)@, reply@, reply_views(replies@)),
            r@ == reply_step(old(self)@, reply@, reply_views(replies@), shown@),
    {
        if let Some(tool_calls) = &reply.tool_calls {
            self.conversation.append(tool_calls_prompt(tool_calls));
            let (progress, ran) = self.execute_tools(tool_calls, replies);
            let outcome = if self.rounds < MAX_ROUNDS {
                self.rounds = self.rounds + 1;
                Ok(
                    Next::Request(
                        chat_request(self.model.as_str(), self.conversation.snapshot()),
                    ),
                )
            } else {
                Err(AssistantError::ToolError(String::from_str(TOO_MANY_ROUNDS)))
            };
            AssistantStep { progress, outcome }
        } else if let Some(content) = &reply.content {
            self.conversation.append(add_assistant_response(content.as_str()));
            let progress: Vec<String> = Vec::new();
            assert(texts(progress@) =~= Seq::<Seq<char>>::empty());
            AssistantStep { progress, outcome: Ok(Next::Answer(content.clone())) }
        } else {
            let progress: Vec<String> = Vec::new();
            assert(texts(progress@) =~= Seq::<Seq<char>>::empty());
            AssistantStep {
                progress,
                outcome: Err(AssistantError::ToolError(followed_by(INVALID_RESPONSE, shown))),
            }
        }
    }
}

/// The answer inside a reply that is a JSON object with a member `content`
/// that is a string; none in any other reply.
pub open spec fn content_of(response: Seq<char>) -> Option<Seq<char>> {
    match parsed(response) {
        Some(value) => match member_of(value, CONTENT@) {
            Some(found) => string_of(found),
            None => None,
        },
        None => None,
    }
}

/// What is shown for a reply: the answer found inside it, or else all of
/// it, between two line feeds.
pub open spec fn display_text(response: Seq<char>, content: Option<Seq<char>>) -> Seq<char> {
    "\n"@ + match content {
        Some(c) => c,
        None => response,
    } + "\n"@
}

/// What is shown for `response`, given the answer that was found inside it,
/// if one was.
pub fn displayed(response: &str, content: Option<&str>) -> (r: String)
    ensures
        r@ == display_text(response@, crate::message::str_view(content)),
{
    let mut r = String::from_str("\n");
    match content {
        Some(c) => r.append(c),
        None => r.append(response),
    }
    r.append("\n");
    r
}

/// What is shown for `response`: where it is a JSON object that holds the
/// answer as its member `content`, the answer, and else all of it.
pub fn present(response: &str) -> (r: String)
    ensures
        r@ == display_text(response@, content_of(response@)),
{
    match parse(response) {
        Ok(value) => match member(&value, CONTENT) {
            Some(found) => displayed(response, as_text(found)),
            None => displayed(response, None),
        },
        Err(_) => displayed(response, None),
    }
}

/// What holds of every state that the assistant reaches: the conversation
/// starts with the system message and holds no other, and no question takes
/// more requests than it may.
pub open spec fn coherent(s: AssistantView) -> bool {
    well_formed(s.conversation) && s.rounds <= MAX_ROUNDS
}

proof fn lemma_executed_messages_are_from_tools(
    calls: Seq<ToolCallView>,
    replies: Seq<FsReplyView>,
)
    ensures
        forall|i: int|
            0 <= i < executed(calls, replies).messages.len() ==> (#[trigger] executed(
                calls,
                replies,
            ).messages[i]).role == Role::Tool,
        executed(calls, replies).messages.len() == calls.len(),
    decreases calls.len(),
{
    if calls.len() > 0 {
        lemma_executed_messages_are_from_tools(calls.drop_last(), replies);
    }
}

/// A question and a reply leave a coherent state coherent, and the
/// conversation only grows at its end: what it held stays, in the same
/// order. A reply with tool calls adds the calls and, for each call, one
/// message of a tool.
pub proof fn lemma_assistant_keeps_the_conversation(
    s: AssistantView,
    question: Seq<char>,
    reply: ModelMessageView,
    replies: Seq<FsReplyView>,
)
    requires
        coherent(s),
    ensures
        coherent(asked(s, question)),
        s.conversation.is_prefix_of(asked(s, question).conversation),
        coherent(replied(s, reply, replies)),
        s.conversation.is_prefix_of(replied(s, reply, replies).conversation),
{
    if reply.tool_calls is Some {
        lemma_executed_messages_are_from_tools(reply.tool_calls->0, replies);
    }
}

/// One round of a question: what the model replied, and what was read for
/// the tool calls of the reply.
pub struct Round {
    pub reply: ModelMessageView,
    pub replies: Seq<FsReplyView>,
}

/// The state after the rounds were taken one after the other.
pub open spec fn after_rounds(s: AssistantView, rounds: Seq<Round>) -> AssistantView
    decreases rounds.len(),
{
    if rounds.len() == 0 {
        s
    } else {
        replied(after_rounds(s, rounds.drop_last()), rounds.last().reply, rounds.last().replies)
    }
}

/// What rounds of tool calls add to the conversation: for each round, in
/// order, the model's request for its calls and then one message of a tool
/// for each call.
pub open spec fn round_messages(rounds: Seq<Round>) -> Seq<MessageView>
    decreases rounds.len(),
{
    if rounds.len() == 0 {
        Seq::empty()
    } else {
        match rounds.last().reply.tool_calls {
            Some(calls) => round_messages(rounds.drop_last()).push(tool_calls_message(calls))
                + executed(calls, rounds.last().replies).messages,
            None => round_messages(rounds.drop_last()),
        }
    }
}

proof fn lemma_rounds(s: AssistantView, rounds: Seq<Round>)
    requires
        forall|i: int| 0 <= i < rounds.len() ==> (#[trigger] rounds[i]).reply.tool_calls is Some,
        s.rounds + rounds.len() <= MAX_ROUNDS,
    ensures
        after_rounds(s, rounds).model == s.model,
        after_rounds(s, rounds).rounds == s.rounds + rounds.len(),
        after_rounds(s, rounds).conversation == s.conversation + round_messages(rounds),
    decreases rounds.len(),
{
    if rounds.len() > 0 {
        lemma_rounds(s, rounds.drop_last());
    }
}

/// A question that takes several rounds of tool calls and then an answer,
/// with fewer rounds than a question may take requests. The conversation
/// then holds what was there, the question, for each round the model's
/// request for its calls followed by one message of a tool for each call,
/// all in the order in which they came, and the answer. Each round leads to
/// a request that carries the conversation up to the messages of that
/// round, and the answer ends the question.
pub proof fn lemma_question_with_tool_rounds(
    s: AssistantView,
    question: Seq<char>,
    rounds: Seq<Round>,
    answer: ModelMessageView,
    shown: Seq<char>,
)
    requires
        forall|i: int| 0 <= i < rounds.len() ==> (#[trigger] rounds[i]).reply.tool_calls is Some,
        rounds.len() < MAX_ROUNDS,
        answer.tool_calls is None,
        answer.content is Some,
    ensures
        forall|i: int|
            0 <= i < rounds.len() ==> (#[trigger] reply_step(
                after_rounds(asked(s, question), rounds.take(i)),
                rounds[i].reply,
                rounds[i].replies,
                shown,
            )).outcome == Ok::<NextView, AssistantErrorView>(
                NextView::Request(
                    request_of(
                        s.model,
                        s.conversation.push(user_message(question)) + round_messages(
                            rounds.take(i + 1),
                        ),
                    ),
                ),
            ),
        reply_step(
            after_rounds(asked(s, question), rounds),
            answer,
            Seq::empty(),
            shown,
        ).outcome == Ok::<NextView, AssistantErrorView>(NextView::Answer(answer.content->0)),
        replied(after_rounds(asked(s, question), rounds), answer, Seq::empty()).conversation
            == s.conversation.push(user_message(question)) + round_messages(rounds).push(
            assistant_message(answer.content->0),
        ),
{
    let start = asked(s, question);
    lemma_rounds(start, rounds);
    assert forall|i: int| 0 <= i < rounds.len() implies (#[trigger] reply_step(
        after_rounds(start, rounds.take(i)),
        rounds[i].reply,
        rounds[i].replies,
        shown,
    )).outcome == Ok::<NextView, AssistantErrorView>(
        NextView::Request(
            request_of(
                s.model,
                s.conversation.push(user_message(question)) + round_messages(rounds.take(i + 1)),
            ),
        ),
    ) by {
        let before = rounds.take(i);
        let upto = rounds.take(i + 1);
        lemma_rounds(start, before);
        lemma_rounds(start, upto);
        assert(upto.drop_last() =~= before);
    }
    assert(replied(after_rounds(start, rounds), answer, Seq::empty()).conversation
        =~= s.conversation.push(user_message(question)) + round_messages(rounds).push(
        assistant_message(answer.content->0),
    ));
}

} // verus!
