//! The orchestrator of a conversation. It takes a prompt, counts the
//! sessions in flight, turns what they send into what is shown and into new
//! sessions, feeds tool results back to the model, and knows from its count
//! alone when the turn is over.

use crate::conversation::Conversation;
use crate::message::{
    add_assistant_response, assistant_message, message_views, tool_message, tool_prompt,
    user_message, user_prompt, ArgValue, ArgValueView, Argument, ArgumentView, Message,
    MessageView, ToolCall, ToolCallView,
};
use crate::ollama::{OllamaMessage, OllamaMessageView};
use crate::text::followed_by;
use crate::tools::{
    call_result, plan, planned, reply_at, reply_views, resolved, result_view, FsReply,
    FsReplyView, FsRequest, FsRequestView, Tool, ToolError, ToolErrorView, Toolchain,
};
use vstd::prelude::*;

verus! {

/// What is shown where a call would take the depth over its limit.
pub const RECURSION_LIMIT: &'static str = "[ERR] recursion limit exceeded";

/// What is shown, before the reason, where a session broke off.
pub const SESSION_FAILED: &'static str = "[ERR] Spawn Prompt Failed.\n[ERR]: ";

/// One thing to show to the user.
#[derive(Debug, PartialEq, Eq)]
pub enum StdoutMessage {
    /// A fragment of the model's thinking.
    Italic(String),
    /// A fragment of the answer.
    Inline(String),
    /// A line of its own: the announcement of a tool call.
    WithNewLine(String),
    /// A line of its own: what went wrong.
    Error(String),
    /// The turn is over. Nothing is shown for it.
    EOF,
}

pub enum StdoutMessageView {
    Italic(Seq<char>),
    Inline(Seq<char>),
    WithNewLine(Seq<char>),
    Error(Seq<char>),
    EOF,
}

impl View for StdoutMessage {
    type V = StdoutMessageView;

    open spec fn view(&self) -> StdoutMessageView {
        match self {
            StdoutMessage::Italic(t) => StdoutMessageView::Italic(t@),
            StdoutMessage::Inline(t) => StdoutMessageView::Inline(t@),
            StdoutMessage::WithNewLine(t) => StdoutMessageView::WithNewLine(t@),
            StdoutMessage::Error(t) => StdoutMessageView::Error(t@),
            StdoutMessage::EOF => StdoutMessageView::EOF,
        }
    }
}

impl Clone for StdoutMessage {
    fn clone(&self) -> (r: Self)
        ensures
            r@ == self@,
    {
        match self {
            StdoutMessage::Italic(t) => StdoutMessage::Italic(t.clone()),
            StdoutMessage::Inline(t) => StdoutMessage::Inline(t.clone()),
            StdoutMessage::WithNewLine(t) => StdoutMessage::WithNewLine(t.clone()),
            StdoutMessage::Error(t) => StdoutMessage::Error(t.clone()),
            StdoutMessage::EOF => StdoutMessage::EOF,
        }
    }
}

/// What is written for one thing to show: thinking in italics, and only
/// where it is wanted; a fragment of the answer as it is; an announcement
/// and an error each on a line of its own; nothing for the end of a turn.
pub open spec fn rendered(message: StdoutMessageView, show_thinking: bool) -> Option<Seq<char>> {
    match message {
        StdoutMessageView::Italic(t) => if show_thinking {
            Some("\x1b[3m"@ + t + "\x1b[0m"@)
        } else {
            None
        },
        StdoutMessageView::Inline(t) => Some(t),
        StdoutMessageView::WithNewLine(t) => Some(t + "\n"@),
        StdoutMessageView::Error(t) => Some(t + "\n"@),
        StdoutMessageView::EOF => None,
    }
}

impl StdoutMessage {
    /// What is to be written for this message, if anything.
    pub fn render(&self, show_thinking: bool) -> (r: Option<String>)
        ensures
            crate::ollama::text_view(r) == rendered(self@, show_thinking),
    {
        match self {
            StdoutMessage::Italic(t) => {
                if show_thinking {
                    let mut r = followed_by("\x1b[3m", t.as_str());
                    r.append("\x1b[0m");
                    Some(r)
                } else {
                    None
                }
            },
            StdoutMessage::Inline(t) => Some(t.clone()),
            StdoutMessage::WithNewLine(t) => Some(followed_by(t.as_str(), "\n")),
            StdoutMessage::Error(t) => Some(followed_by(t.as_str(), "\n")),
            StdoutMessage::EOF => None,
        }
    }
}

/// What is said where something could not be shown.
pub const CHANNEL_CLOSED: &'static str = "channel closed";

/// What is said where a turn was to start without a prompt.
pub const PROMPT_MISSING: &'static str = "Expected Prompt, Got None";

/// Why the orchestrator did not do what it was asked.
#[derive(Debug, PartialEq, Eq)]
pub enum AppError {
    /// This could not be shown: nobody takes what is shown any more.
    SendError(StdoutMessage),
    /// A turn was to start, and no prompt came with the request.
    PromptMissing,
}

/// What an error says.
pub open spec fn app_error_text(error: AppError) -> Seq<char> {
    match error {
        AppError::SendError(_) => CHANNEL_CLOSED@,
        AppError::PromptMissing => PROMPT_MISSING@,
    }
}

impl AppError {
    /// What the error says.
    pub fn message(&self) -> (r: String)
        ensures
            r@ == app_error_text(*self),
    {
        match self {
            AppError::SendError(_) => String::from_str(CHANNEL_CLOSED),
            AppError::PromptMissing => String::from_str(PROMPT_MISSING),
        }
    }
}

/// What is to be done after a step, in this order.
#[derive(Debug, PartialEq, Eq)]
pub enum Effect {
    /// Show this to the user.
    Show(StdoutMessage),
    /// Start a session that sends these messages to the model.
    Launch(Vec<Message>),
}

pub enum EffectView {
    Show(StdoutMessageView),
    Launch(Seq<MessageView>),
}

impl View for Effect {
    type V = EffectView;

    open spec fn view(&self) -> EffectView {
        match self {
            Effect::Show(m) => EffectView::Show(m@),
            Effect::Launch(snapshot) => EffectView::Launch(message_views(snapshot@)),
        }
    }
}

/// The views of the effects, in the same order.
pub open spec fn effect_views(effects: Seq<Effect>) -> Seq<EffectView> {
    effects.map_values(|e: Effect| e@)
}

/// The state of the orchestrator: the number of sessions in flight, the
/// number that it may not exceed, the conversation, and the fragments of the
/// answer that came in since the turn started.
pub struct AppView {
    pub depth: nat,
    pub limit: nat,
    pub history: Seq<MessageView>,
    pub answer: Seq<char>,
}

/// The state before the first prompt.
pub open spec fn initial(limit: nat) -> AppView {
    AppView {
        depth: 0,
        limit,
        history: seq![crate::message::system_message()],
        answer: Seq::empty(),
    }
}

/// The state after a prompt has started a turn: the prompt stands at the end
/// of the conversation, and one session is in flight.
pub open spec fn start_turn(s: AppView, prompt: Seq<char>) -> AppView {
    AppView {
        depth: 1,
        limit: s.limit,
        history: s.history.push(user_message(prompt)),
        answer: Seq::empty(),
    }
}

/// Whether a request to start a turn is met: no session is in flight, and a
/// prompt came with it.
pub open spec fn turn_starts(s: AppView, prompt: Option<Seq<char>>) -> bool {
    s.depth == 0 && prompt is Some
}

/// The limit that an orchestrator works with when it was asked for `limit`:
/// there is always room for the session of the prompt.
pub open spec fn granted(limit: nat) -> nat {
    if limit == 0 {
        1
    } else {
        limit
    }
}

/// The state after a request to start a turn.
pub open spec fn repl_state(s: AppView, prompt: Option<Seq<char>>) -> AppView {
    if turn_starts(s, prompt) {
        start_turn(s, prompt->0)
    } else {
        s
    }
}

/// How a value is written in an announcement: a text in quotes, anything
/// else as it is.
pub open spec fn value_text(value: ArgValueView) -> Seq<char> {
    match value {
        ArgValueView::Text(t) => "\""@ + t + "\""@,
        ArgValueView::Other(t) => t,
    }
}

/// How an argument is written in an announcement.
pub open spec fn argument_text(argument: ArgumentView) -> Seq<char> {
    "\""@ + argument.name + "\": "@ + value_text(argument.value)
}

/// The arguments as they are written in an announcement, with a comma
/// between two of them.
pub open spec fn arguments_text(arguments: Seq<ArgumentView>) -> Seq<char>
    decreases arguments.len(),
{
    if arguments.len() == 0 {
        Seq::empty()
    } else if arguments.len() == 1 {
        argument_text(arguments[0])
    } else {
        arguments_text(arguments.drop_last()) + ", "@ + argument_text(arguments.last())
    }
}

/// The line that announces a tool call.
pub open spec fn announcement(call: ToolCallView) -> Seq<char> {
    "\n TOOL CALL "@ + call.name + " - {"@ + arguments_text(call.arguments) + "}"@
}

/// What is said of a call that names no tool that can be run.
pub open spec fn tool_error_text(error: ToolErrorView) -> Seq<char> {
    match error {
        ToolErrorView::NotFound(name) => "ERR: Tool "@ + name + " not found"@,
        ToolErrorView::MissingParameter(name) => "ERR: Missing Grep Parameter '"@ + name + "'"@,
    }
}

/// What running the tool of `call` on `reply` gives: the tool's answer, or
/// what went wrong, behind the mark of an error.
pub open spec fn dispatch_result(call: ToolCallView, reply: FsReplyView) -> Result<
    Seq<char>,
    Seq<char>,
> {
    match resolved(call) {
        Err(e) => Err(tool_error_text(e)),
        Ok(tool) => match call_result(tool, reply) {
            Ok(v) => Ok(v),
            Err(e) => Err("ERR: "@ + e),
        },
    }
}

/// The text that goes back to the model for `call`: the answer or the error.
pub open spec fn tool_text(call: ToolCallView, reply: FsReplyView) -> Seq<char> {
    match dispatch_result(call, reply) {
        Ok(v) => v,
        Err(e) => e,
    }
}

/// What has to be read before `message` is taken: for each of its tool
/// calls, in their order, what the tool asks for. Nothing is read for a call
/// that names no tool, for a call that finds no room, or while no session is
/// in flight.
pub open spec fn reads_for(s: AppView, message: OllamaMessageView) -> Seq<Option<FsRequestView>> {
    match message {
        OllamaMessageView::Chunk(response) => match response.message.tool_calls {
            Some(calls) => if s.depth == 0 {
                Seq::empty()
            } else {
                Seq::new(
                    calls.len(),
                    |i: int|
                        if s.depth + i < s.limit {
                            planned(calls[i])
                        } else {
                            None
                        },
                )
            },
            None => Seq::empty(),
        },
        _ => Seq::empty(),
    }
}

/// The views of the requests, in the same order.
pub open spec fn request_views(requests: Seq<Option<FsRequest>>) -> Seq<Option<FsRequestView>> {
    requests.map_values(
        |r: Option<FsRequest>|
            match r {
                Some(request) => Some(request@),
                None => None,
            },
    )
}

/// Whether another session may be launched.
pub open spec fn has_room(s: AppView) -> bool {
    s.depth < s.limit
}

/// The state after one tool call: where there is room, its result stands
/// at the end of the conversation and one more session is in flight.
pub open spec fn tool_step(s: AppView, call: ToolCallView, reply: FsReplyView) -> AppView {
    if has_room(s) {
        AppView {
            depth: s.depth + 1,
            limit: s.limit,
            history: s.history.push(tool_message(tool_text(call, reply), call.name)),
            answer: s.answer,
        }
    } else {
        s
    }
}

/// What is to be done for one tool call: where there is room, announce it and
/// launch a session on the conversation that ends with its result.
pub open spec fn tool_effects(s: AppView, call: ToolCallView, reply: FsReplyView) -> Seq<
    EffectView,
> {
    if has_room(s) {
        seq![
            EffectView::Show(StdoutMessageView::WithNewLine(announcement(call))),
            EffectView::Launch(tool_step(s, call, reply).history),
        ]
    } else {
        seq![EffectView::Show(StdoutMessageView::Error(RECURSION_LIMIT@))]
    }
}

/// The state after the calls of one response, taken one after the other.
pub open spec fn tools_state(
    s: AppView,
    calls: Seq<ToolCallView>,
    replies: Seq<FsReplyView>,
) -> AppView
    decreases calls.len(),
{
    if calls.len() == 0 {
        s
    } else {
        tool_step(
            tools_state(s, calls.drop_last(), replies),
            calls.last(),
            reply_at(replies, calls.len() - 1),
        )
    }
}

/// What is to be done for the calls of one response, in their order.
pub open spec fn tools_effects(
    s: AppView,
    calls: Seq<ToolCallView>,
    replies: Seq<FsReplyView>,
) -> Seq<EffectView>
    decreases calls.len(),
{
    if calls.len() == 0 {
        Seq::empty()
    } else {
        tools_effects(s, calls.drop_last(), replies) + tool_effects(
            tools_state(s, calls.drop_last(), replies),
            calls.last(),
            reply_at(replies, calls.len() - 1),
        )
    }
}

/// The state after a session has ended: one session fewer is in flight.
/// While others are in flight the fragments of the answer are kept. Where it
/// was the last one, the fragments of the whole turn, in the order in which
/// they came, become the model's answer at the end of the conversation.
pub open spec fn end_session(s: AppView) -> AppView {
    if s.depth == 1 {
        AppView {
            depth: 0,
            limit: s.limit,
            history: s.history.push(assistant_message(s.answer)),
            answer: Seq::empty(),
        }
    } else {
        AppView {
            depth: (s.depth - 1) as nat,
            limit: s.limit,
            history: s.history,
            answer: s.answer,
        }
    }
}

/// What is to be done when a session has ended: the end of the turn is
/// passed on where it was the last one.
pub open spec fn end_effects(s: AppView) -> Seq<EffectView> {
    if s.depth == 1 {
        seq![EffectView::Show(StdoutMessageView::EOF)]
    } else {
        Seq::empty()
    }
}

/// The state after `message` came in from a session, with `replies` read for
/// its tool calls. While no session is in flight nothing is taken. Of one
/// object the tool calls count first, then the thinking, then the answer.
pub open spec fn step(s: AppView, message: OllamaMessageView, replies: Seq<FsReplyView>) -> AppView {
    if s.depth == 0 {
        s
    } else {
        match message {
            OllamaMessageView::Chunk(response) => match response.message.tool_calls {
                Some(calls) => tools_state(s, calls, replies),
                None => match response.message.thinking {
                    Some(_) => s,
                    None => match response.message.content {
                        Some(fragment) => AppView {
                            depth: s.depth,
                            limit: s.limit,
                            history: s.history,
                            answer: s.answer + fragment,
                        },
                        None => s,
                    },
                },
            },
            OllamaMessageView::EOF => end_session(s),
            OllamaMessageView::Failed(_) => end_session(s),
        }
    }
}

/// What is to be done after `message` came in from a session.
pub open spec fn effects(s: AppView, message: OllamaMessageView, replies: Seq<FsReplyView>) -> Seq<
    EffectView,
> {
    if s.depth == 0 {
        Seq::empty()
    } else {
        match message {
            OllamaMessageView::Chunk(response) => match response.message.tool_calls {
                Some(calls) => tools_effects(s, calls, replies),
                None => match response.message.thinking {
                    Some(thinking) => seq![EffectView::Show(StdoutMessageView::Italic(thinking))],
                    None => match response.message.content {
                        Some(fragment) => seq![
                            EffectView::Show(StdoutMessageView::Inline(fragment)),
                        ],
                        None => Seq::empty(),
                    },
                },
            },
            OllamaMessageView::EOF => end_effects(s),
            OllamaMessageView::Failed(reason) => seq![
                EffectView::Show(StdoutMessageView::Error(SESSION_FAILED@ + reason)),
            ] + end_effects(s),
        }
    }
}

/// The orchestrator.
#[derive(Debug)]
pub struct App {
    call_stack: usize,
    depth_limit: usize,
    history: Conversation,
    answer: String,
}

impl View for App {
    type V = AppView;

    closed spec fn view(&self) -> AppView {
        AppView {
            depth: self.call_stack as nat,
            limit: self.depth_limit as nat,
            history: self.history@,
            answer: self.answer@,
        }
    }
}

fn argument_line(argument: &Argument) -> (r: String)
    ensures
        r@ == argument_text(argument@),
{
    let mut r = followed_by("\"", argument.name.as_str());
    r.append("\": ");
    match &argument.value {
        ArgValue::Text(t) => {
            r.append("\"");
            r.append(t.as_str());
            r.append("\"");
        },
        ArgValue::Other(t) => {
            r.append(t.as_str());
        },
    }
    r
}

/// The line that announces `call`.
pub fn announce(call: &ToolCall) -> (r: String)
    ensures
        r@ == announcement(call@),
{
    let mut r = followed_by("\n TOOL CALL ", call.name.as_str());
    r.append(" - {");
    let ghost head = r@;
    let mut i: usize = 0;
    while i < call.arguments.len()
        invariant
            i <= call.arguments.len(),
            r@ == head + arguments_text(call@.arguments.take(i as int)),
        decreases call.arguments.len() - i,
    {
        if i > 0 {
            r.append(", ");
        }
        r.append(argument_line(&call.arguments[i]).as_str());
        assert(call@.arguments.take(i + 1).drop_last() =~= call@.arguments.take(i as int));
        i += 1;
    }
    assert(call@.arguments.take(call.arguments.len() as int) =~= call@.arguments);
    r.append("}");
    r
}

/// What is said of a call that names no tool that can be run.
pub fn tool_error_line(error: &ToolError) -> (r: String)
    ensures
        r@ == tool_error_text(error@),
{
    match error {
        ToolError::NotFound(name) => {
            let mut r = followed_by("ERR: Tool ", name.as_str());
            r.append(" not found");
            r
        },
        ToolError::MissingParameter(name) => {
            let mut r = followed_by("ERR: Missing Grep Parameter '", name.as_str());
            r.append("'");
            r
        },
    }
}

impl App {
    /// An orchestrator that awaits its first prompt, and whose depth is
    /// bounded by the machine alone.
    pub fn new() -> (r: Self)
        ensures
            r@ == initial(usize::MAX as nat),
    {
        Self::with_depth_limit(usize::MAX)
    }

    /// An orchestrator that awaits its first prompt, and that never has more
    /// than `limit` sessions in flight; the session of the prompt always has
    /// room.
    pub fn with_depth_limit(limit: usize) -> (r: Self)
        ensures
            r@ == initial(granted(limit as nat)),
    {
        let depth_limit = if limit == 0 {
            1
        } else {
            limit
        };
        App { call_stack: 0, depth_limit, history: Conversation::new(), answer: String::new() }
    }

    /// Whether a prompt may be handed in: no session is in flight.
    pub fn show_prompt(&self) -> (r: bool)
        ensures
            r == (self@.depth == 0),
    {
        self.call_stack == 0
    }

    /// The number of sessions in flight.
    pub fn call_stack(&self) -> (r: usize)
        ensures
            r == self@.depth,
    {
        self.call_stack
    }

    /// The number of sessions that may be in flight at once.
    pub fn depth_limit(&self) -> (r: usize)
        ensures
            r == self@.limit,
    {
        self.depth_limit
    }

    /// A copy of the conversation as it is now.
    pub fn history(&self) -> (r: Vec<Message>)
        ensures
            message_views(r@) == self@.history,
    {
        self.history.snapshot()
    }

    /// Starts a turn. While no session is in flight, `prompt` goes to the
    /// end of the conversation and the messages to launch the first session
    /// with come back; without a prompt nothing changes. While a turn is in
    /// flight nothing changes either, a prompt is not taken, and there is
    /// nothing to launch.
    pub fn repl(&mut self, prompt: Option<String>) -> (r: Result<Option<Vec<Message>>, AppError>)
        ensures
            final(self)@ == repl_state(old(self)@, crate::ollama::text_view(prompt)),
            match r {
                Ok(Some(snapshot)) => turn_starts(old(self)@, crate::ollama::text_view(prompt))
                    && message_views(snapshot@) == final(self)@.history,
                Ok(None) => old(self)@.depth > 0,
                Err(AppError::PromptMissing) => old(self)@.depth == 0 && prompt is None,
                Err(AppError::SendError(_)) => false,
            },
    {
        if self.call_stack > 0 {
            return Ok(None);
        }
        match prompt {
            None => Err(AppError::PromptMissing),
            Some(text) => {
                self.call_stack = 1;
                self.history.append(user_prompt(text.as_str()));
                self.answer = String::new();
                Ok(Some(self.history.snapshot()))
            },
        }
    }

    /// What has to be read before `message` is handed to `on_message`: one
    /// entry for each of its tool calls, in their order.
    pub fn reads(&self, message: &OllamaMessage) -> (r: Vec<Option<FsRequest>>)
        ensures
            request_views(r@) == reads_for(self@, message@),
    {
        let mut out: Vec<Option<FsRequest>> = Vec::new();
        if self.call_stack == 0 {
            return out;
        }
        if let OllamaMessage::Chunk(response) = message {
            if let Some(calls) = &response.message.tool_calls {
                let mut i: usize = 0;
                while i < calls.len()
                    invariant
                        i <= calls.len(),
                        out.len() == i,
                        message@ == OllamaMessageView::Chunk(response@),
                        response@.message.tool_calls == Some(crate::message::call_views(calls@)),
                        self@.depth > 0,
                        forall|k: int|
                            0 <= k < i ==> (#[trigger] request_views(out@)[k]) == reads_for(
                                self@,
                                message@,
                            )[k],
                    decreases calls.len() - i,
                {
                    let room = self.call_stack < self.depth_limit && i < self.depth_limit
                        - self.call_stack;
                    let request = if room {
                        plan(&calls[i])
                    } else {
                        None
                    };
                    let ghost before = request_views(out@);
                    out.push(request);
                    assert(request_views(out@) =~= before.push(request_views(out@)[i as int]));
                    i += 1;
                }
            }
        }
        out
    }

    /// Runs the tool that `tool` names on what was read for it.
    pub fn dispatch_tool(&self, tool: &ToolCall, reply: &FsReply) -> (r: Result<String, String>)
        ensures
            result_view(r) == dispatch_result(tool@, reply@),
    {
        let toolchain = Toolchain::default();
        match Tool::resolve(tool) {
            Err(e) => Err(tool_error_line(&e)),
            Ok(resolved) => match toolchain.call(resolved, reply) {
                Ok(value) => Ok(value),
                Err(err) => Err(followed_by("ERR: ", err.as_str())),
            },
        }
    }

    fn end_session(&mut self, effects: &mut Vec<Effect>)
        requires
            old(self)@.depth > 0,
        ensures
            final(self)@ == end_session(old(self)@),
            effect_views(final(effects)@) == effect_views(old(effects)@) + end_effects(old(self)@),
    {
        self.call_stack = self.call_stack - 1;
        if self.call_stack == 0 {
            effects.push(Effect::Show(StdoutMessage::EOF));
            self.history.append(add_assistant_response(self.answer.as_str()));
            self.answer = String::new();
        }
    }

    fn run_tools(&mut self, calls: &Vec<ToolCall>, replies: &Vec<FsReply>) -> (r: Vec<Effect>)
        ensures
            final(self)@ == tools_state(
                old(self)@,
                crate::message::call_views(calls@),
                reply_views(replies@),
            ),
            effect_views(r@) == tools_effects(
                old(self)@,
                crate::message::call_views(calls@),
                reply_views(replies@),
            ),
    {
        let ghost all = crate::message::call_views(calls@);
        let ghost given = reply_views(replies@);
        let nothing = FsReply::Nothing;
        let mut out: Vec<Effect> = Vec::new();
        let mut i: usize = 0;
        while i < calls.len()
            invariant
                i <= calls.len(),
                all == crate::message::call_views(calls@),
                given == reply_views(replies@),
                nothing@ == FsReplyView::Nothing,
                self@ == tools_state(old(self)@, all.take(i as int), given),
                effect_views(out@) == tools_effects(old(self)@, all.take(i as int), given),
            decreases calls.len() - i,
        {
            let call = &calls[i];
            let reply = if i < replies.len() {
                &replies[i]
            } else {
                &nothing
            };
            assert(all.take(i + 1).drop_last() =~= all.take(i as int));
            if self.call_stack < self.depth_limit {
                let text = match self.dispatch_tool(call, reply) {
                    Ok(value) => value,
                    Err(err) => err,
                };
                out.push(Effect::Show(StdoutMessage::WithNewLine(announce(call))));
                self.call_stack = self.call_stack + 1;
                self.history.append(tool_prompt(text.as_str(), call.name.as_str()));
                out.push(Effect::Launch(self.history.snapshot()));
            } else {
                out.push(Effect::Show(StdoutMessage::Error(String::from_str(RECURSION_LIMIT))));
            }
            i += 1;
        }
        assert(all.take(calls.len() as int) =~= all);
        out
    }

    /// Takes what a session sent and says what is to be done. `replies`
    /// holds, for each tool call of `message`, in their order, what was read
    /// for it.
    pub fn on_message(&mut self, message: &OllamaMessage, replies: &Vec<FsReply>) -> (r: Vec<
        Effect,
    >)
        ensures
            final(self)@ == step(old(self)@, message@, reply_views(replies@)),
            effect_views(r@) == effects(old(self)@, message@, reply_views(replies@)),
    {
        let mut out: Vec<Effect> = Vec::new();
        if self.call_stack == 0 {
            return out;
        }
        match message {
            OllamaMessage::Chunk(response) => {
                if let Some(calls) = &response.message.tool_calls {
                    return self.run_tools(calls, replies);
                } else if let Some(thinking) = &response.message.thinking {
                    out.push(Effect::Show(StdoutMessage::Italic(thinking.clone())));
                } else if let Some(fragment) = &response.message.content {
                    self.answer.append(fragment.as_str());
                    out.push(Effect::Show(StdoutMessage::Inline(fragment.clone())));
                }
            },
            OllamaMessage::EOF => {
                self.end_session(&mut out);
            },
            OllamaMessage::Failed(reason) => {
                out.push(
                    Effect::Show(
                        StdoutMessage::Error(followed_by(SESSION_FAILED, reason.as_str())),
                    ),
                );
                self.end_session(&mut out);
            },
        }
        out
    }
}

} // verus!
