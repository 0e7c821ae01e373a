//! What the model's endpoint sends and is sent: the objects of a streamed
//! response, the events that a session turns them into, the tools that a
//! request offers, and the request itself.

use crate::message::{
    call_views, clone_calls, message_views, Message, MessageView, ToolCall, ToolCallView,
};
use crate::conversation::snapshot_of;
use crate::tools::{GREP, LIST_DIRECTORY, PATH, PWD, READ_FILE, SEARCH_PATTERN};
use vstd::prelude::*;

verus! {

/// The message inside one object of a response: a fragment of the answer, a
/// fragment of the model's thinking, or the tools it wants run.
#[derive(Debug, PartialEq, Eq)]
pub struct ModelMessage {
    pub content: Option<String>,
    pub thinking: Option<String>,
    pub tool_calls: Option<Vec<ToolCall>>,
}

pub struct ModelMessageView {
    pub content: Option<Seq<char>>,
    pub thinking: Option<Seq<char>>,
    pub tool_calls: Option<Seq<ToolCallView>>,
}

/// The view of a text that may be missing.
pub open spec fn text_view(t: Option<String>) -> Option<Seq<char>> {
    match t {
        Some(t) => Some(t@),
        None => None,
    }
}

impl View for ModelMessage {
    type V = ModelMessageView;

    open spec fn view(&self) -> ModelMessageView {
        ModelMessageView {
            content: text_view(self.content),
            thinking: text_view(self.thinking),
            tool_calls: match self.tool_calls {
                Some(calls) => Some(call_views(calls@)),
                None => None,
            },
        }
    }
}

fn clone_text(t: &Option<String>) -> (r: Option<String>)
    ensures
        text_view(r) == text_view(*t),
{
    match t {
        Some(t) => Some(t.clone()),
        None => None,
    }
}

impl Clone for ModelMessage {
    fn clone(&self) -> (r: Self)
        ensures
            r@ == self@,
    {
        ModelMessage {
            content: clone_text(&self.content),
            thinking: clone_text(&self.thinking),
            tool_calls: match &self.tool_calls {
                Some(calls) => Some(clone_calls(calls)),
                None => None,
            },
        }
    }
}

/// One object of a streamed response.
#[derive(Debug, PartialEq, Eq)]
pub struct OllamaResponse {
    pub done: bool,
    pub message: ModelMessage,
}

pub struct OllamaResponseView {
    pub done: bool,
    pub message: ModelMessageView,
}

impl View for OllamaResponse {
    type V = OllamaResponseView;

    open spec fn view(&self) -> OllamaResponseView {
        OllamaResponseView { done: self.done, message: self.message@ }
    }
}

impl Clone for OllamaResponse {
    fn clone(&self) -> (r: Self)
        ensures
            r@ == self@,
    {
        OllamaResponse { done: self.done, message: self.message.clone() }
    }
}

/// What a session hands on: a decoded object, the end of its response, or
/// the reason why it broke off.
#[derive(Debug, PartialEq, Eq)]
pub enum OllamaMessage {
    Chunk(OllamaResponse),
    EOF,
    Failed(String),
}

pub enum OllamaMessageView {
    Chunk(OllamaResponseView),
    EOF,
    Failed(Seq<char>),
}

impl View for OllamaMessage {
    type V = OllamaMessageView;

    open spec fn view(&self) -> OllamaMessageView {
        match self {
            OllamaMessage::Chunk(r) => OllamaMessageView::Chunk(r@),
            OllamaMessage::EOF => OllamaMessageView::EOF,
            OllamaMessage::Failed(e) => OllamaMessageView::Failed(e@),
        }
    }
}

/// Whether an event is the last of its session.
pub open spec fn is_terminal(message: OllamaMessageView) -> bool {
    message is EOF || message is Failed
}

impl OllamaMessage {
    /// Whether this event is the last of its session.
    pub fn is_terminal(&self) -> (r: bool)
        ensures
            r == is_terminal(self@),
    {
        match self {
            OllamaMessage::Chunk(_) => false,
            OllamaMessage::EOF => true,
            OllamaMessage::Failed(_) => true,
        }
    }
}

/// Why talking to the endpoint failed, each with what the failing part said.
#[derive(Debug, PartialEq, Eq)]
pub enum OllamaError {
    ReqwestError(String),
    StreamError(String),
    JsonError(String),
    IoError(String),
}

/// What an error says.
pub open spec fn error_text(error: OllamaError) -> Seq<char> {
    match error {
        OllamaError::ReqwestError(e) => e@,
        OllamaError::StreamError(e) => e@,
        OllamaError::JsonError(e) => e@,
        OllamaError::IoError(e) => e@,
    }
}

impl OllamaError {
    /// What the error says.
    pub fn message(&self) -> (r: String)
        ensures
            r@ == error_text(*self),
    {
        match self {
            OllamaError::ReqwestError(e) => e.clone(),
            OllamaError::StreamError(e) => e.clone(),
            OllamaError::JsonError(e) => e.clone(),
            OllamaError::IoError(e) => e.clone(),
        }
    }
}

/// One argument that a tool takes. Every argument is a text.
#[derive(Debug, PartialEq, Eq)]
pub struct Parameter {
    pub name: String,
    pub description: String,
}

pub struct ParameterView {
    pub name: Seq<char>,
    pub description: Seq<char>,
}

impl View for Parameter {
    type V = ParameterView;

    open spec fn view(&self) -> ParameterView {
        ParameterView { name: self.name@, description: self.description@ }
    }
}

/// One tool as a request offers it to the model: its name, what it does, and
/// the arguments that it takes, all of which it needs.
#[derive(Debug, PartialEq, Eq)]
pub struct ToolSpec {
    pub name: String,
    pub description: String,
    pub parameters: Vec<Parameter>,
}

pub struct ToolSpecView {
    pub name: Seq<char>,
    pub description: Seq<char>,
    pub parameters: Seq<ParameterView>,
}

impl View for ToolSpec {
    type V = ToolSpecView;

    open spec fn view(&self) -> ToolSpecView {
        ToolSpecView {
            name: self.name@,
            description: self.description@,
            parameters: self.parameters@.map_values(|p: Parameter| p@),
        }
    }
}

/// The views of the tools, in the same order.
pub open spec fn spec_views(tools: Seq<ToolSpec>) -> Seq<ToolSpecView> {
    tools.map_values(|t: ToolSpec| t@)
}

/// The tools that every request offers.
pub open spec fn catalogue() -> Seq<ToolSpecView> {
    seq![
        ToolSpecView {
            name: LIST_DIRECTORY@,
            description: "List files and directories"@,
            parameters: seq![ParameterView { name: PATH@, description: "Directory path"@ }],
        },
        ToolSpecView {
            name: READ_FILE@,
            description: "Read file contents"@,
            parameters: seq![ParameterView { name: PATH@, description: "File path"@ }],
        },
        ToolSpecView {
            name: PWD@,
            description: "Returns the full path of the current directory"@,
            parameters: Seq::empty(),
        },
        ToolSpecView {
            name: GREP@,
            description: "Searches for a specific substring in a designated file"@,
            parameters: seq![
                ParameterView { name: PATH@, description: "The file to grep through"@ },
                ParameterView { name: SEARCH_PATTERN@, description: "The search pattern"@ },
            ],
        },
    ]
}

fn parameter(name: &str, description: &str) -> (r: Parameter)
    ensures
        r@ == (ParameterView { name: name@, description: description@ }),
{
    Parameter { name: String::from_str(name), description: String::from_str(description) }
}

fn tool_spec(name: &str, description: &str, parameters: Vec<Parameter>) -> (r: ToolSpec)
    ensures
        r@ == (ToolSpecView {
            name: name@,
            description: description@,
            parameters: parameters@.map_values(|p: Parameter| p@),
        }),
{
    ToolSpec {
        name: String::from_str(name),
        description: String::from_str(description),
        parameters,
    }
}

/// The tools that every request offers.
pub fn tool_catalogue() -> (r: Vec<ToolSpec>)
    ensures
        spec_views(r@) == catalogue(),
{
    let mut listing: Vec<Parameter> = Vec::new();
    listing.push(parameter(PATH, "Directory path"));
    let mut reading: Vec<Parameter> = Vec::new();
    reading.push(parameter(PATH, "File path"));
    let mut searching: Vec<Parameter> = Vec::new();
    searching.push(parameter(PATH, "The file to grep through"));
    searching.push(parameter(SEARCH_PATTERN, "The search pattern"));
    let mut tools: Vec<ToolSpec> = Vec::new();
    tools.push(tool_spec(LIST_DIRECTORY, "List files and directories", listing));
    tools.push(tool_spec(READ_FILE, "Read file contents", reading));
    tools.push(tool_spec(PWD, "Returns the full path of the current directory", Vec::new()));
    tools.push(
        tool_spec(GREP, "Searches for a specific substring in a designated file", searching),
    );
    proof {
        let got = spec_views(tools@);
        let want = catalogue();
        assert(got[0].parameters =~= want[0].parameters);
        assert(got[1].parameters =~= want[1].parameters);
        assert(got[2].parameters =~= want[2].parameters);
        assert(got[3].parameters =~= want[3].parameters);
    }
    tools
}

/// How a tool is declared to the model: as a function, whose arguments form
/// an object, each of them a string.
pub const TOOL_TYPE: &'static str = "function";

pub const PARAMETERS_TYPE: &'static str = "object";

pub const PARAMETER_TYPE: &'static str = "string";

/// One request to the endpoint: the model, the whole conversation, the tools
/// on offer, and that the response is to come in pieces.
#[derive(Debug, PartialEq, Eq)]
pub struct ChatRequest {
    pub model: String,
    pub messages: Vec<Message>,
    pub tools: Vec<ToolSpec>,
    pub stream: bool,
}

pub struct ChatRequestView {
    pub model: Seq<char>,
    pub messages: Seq<MessageView>,
    pub tools: Seq<ToolSpecView>,
    pub stream: bool,
}

impl View for ChatRequest {
    type V = ChatRequestView;

    open spec fn view(&self) -> ChatRequestView {
        ChatRequestView {
            model: self.model@,
            messages: message_views(self.messages@),
            tools: spec_views(self.tools@),
            stream: self.stream,
        }
    }
}

/// The request that sends a snapshot of the conversation to a model: the
/// messages of the snapshot, all of them and in their order, and the fixed
/// tools. Every request asks for a streamed response.
pub open spec fn request_of(model: Seq<char>, snapshot: Seq<MessageView>) -> ChatRequestView {
    ChatRequestView { model, messages: snapshot, tools: catalogue(), stream: true }
}

/// What a session sends is the snapshot that it was launched with, and
/// nothing of what the conversation takes in later.
pub proof fn lemma_session_sends_its_snapshot(
    model: Seq<char>,
    store: Seq<MessageView>,
    later: Seq<MessageView>,
)
    requires
        later.len() > 0,
    ensures
        request_of(model, snapshot_of(store)).messages == store,
        request_of(model, snapshot_of(store)).messages != store + later,
{
}

/// The request that sends `snapshot` to `model`.
pub fn chat_request(model: &str, snapshot: Vec<Message>) -> (r: ChatRequest)
    ensures
        r@ == request_of(model@, message_views(snapshot@)),
{
    ChatRequest {
        model: String::from_str(model),
        messages: snapshot,
        tools: tool_catalogue(),
        stream: true,
    }
}

/// What a session says where an object holds nothing and is not the last.
pub const EMPTY_OBJECT: &'static str = "the model sent an object without content";

/// What a session says where the response stops before its last object.
pub const CUT_SHORT: &'static str = "the response ended before it was done";

/// Whether an object carries anything: an answer, thinking or tool calls.
pub open spec fn carries(response: OllamaResponseView) -> bool {
    response.message.content is Some || response.message.thinking is Some
        || response.message.tool_calls is Some
}

/// The events that a session hands on for one object: the object where it
/// carries anything, and the end where it is the last. An object that
/// carries nothing and is not the last breaks the session off.
pub open spec fn object_events(response: OllamaResponseView) -> Seq<OllamaMessageView> {
    if carries(response) {
        if response.done {
            seq![OllamaMessageView::Chunk(response), OllamaMessageView::EOF]
        } else {
            seq![OllamaMessageView::Chunk(response)]
        }
    } else if response.done {
        seq![OllamaMessageView::EOF]
    } else {
        seq![OllamaMessageView::Failed(EMPTY_OBJECT@)]
    }
}

/// Whether the events end a session.
pub open spec fn ends_session(events: Seq<OllamaMessageView>) -> bool {
    events.len() > 0 && is_terminal(events.last())
}

/// The views of the events, in the same order.
pub open spec fn event_views(events: Seq<OllamaMessage>) -> Seq<OllamaMessageView> {
    events.map_values(|m: OllamaMessage| m@)
}

/// What happens to a session: an object is decoded, reading or decoding
/// fails, or the response is over.
pub enum SessionInput {
    Object(OllamaResponseView),
    Failure(Seq<char>),
    Closed,
}

/// The events that a session which has not ended hands on for one input.
pub open spec fn input_events(input: SessionInput) -> Seq<OllamaMessageView> {
    match input {
        SessionInput::Object(response) => object_events(response),
        SessionInput::Failure(reason) => seq![OllamaMessageView::Failed(reason)],
        SessionInput::Closed => seq![OllamaMessageView::Failed(CUT_SHORT@)],
    }
}

/// The events that a session hands on for one input: nothing any more once
/// it has ended.
pub open spec fn session_step(finished: bool, input: SessionInput) -> Seq<OllamaMessageView> {
    if finished {
        Seq::empty()
    } else {
        input_events(input)
    }
}

/// Whether a session has ended after one input.
pub open spec fn finished_after(finished: bool, input: SessionInput) -> bool {
    finished || ends_session(input_events(input))
}

/// Whether a session has ended after the inputs.
pub open spec fn ended_after(finished: bool, inputs: Seq<SessionInput>) -> bool
    decreases inputs.len(),
{
    if inputs.len() == 0 {
        finished
    } else {
        finished_after(ended_after(finished, inputs.drop_last()), inputs.last())
    }
}

/// All the events that a session hands on for the inputs.
pub open spec fn session_events(finished: bool, inputs: Seq<SessionInput>) -> Seq<
    OllamaMessageView,
>
    decreases inputs.len(),
{
    if inputs.len() == 0 {
        Seq::empty()
    } else {
        session_events(finished, inputs.drop_last()) + session_step(
            ended_after(finished, inputs.drop_last()),
            inputs.last(),
        )
    }
}

/// The number of events that end a session.
pub open spec fn terminal_count(events: Seq<OllamaMessageView>) -> nat
    decreases events.len(),
{
    if events.len() == 0 {
        0
    } else if is_terminal(events.last()) {
        terminal_count(events.drop_last()) + 1
    } else {
        terminal_count(events.drop_last())
    }
}

/// One streamed response while it is read.
#[derive(Debug)]
pub struct Session {
    finished: bool,
}

impl View for Session {
    type V = bool;

    closed spec fn view(&self) -> bool {
        self.finished
    }
}

impl Session {
    /// A session that has handed on nothing yet.
    pub fn new() -> (r: Self)
        ensures
            !r@,
    {
        Session { finished: false }
    }

    /// Whether the session has ended.
    pub fn finished(&self) -> (r: bool)
        ensures
            r == self@,
    {
        self.finished
    }

    /// Takes one decoded object and gives the events to hand on.
    pub fn on_object(&mut self, response: &OllamaResponse) -> (r: Vec<OllamaMessage>)
        ensures
            event_views(r@) == session_step(old(self)@, SessionInput::Object(response@)),
            final(self)@ == finished_after(old(self)@, SessionInput::Object(response@)),
    {
        let mut out: Vec<OllamaMessage> = Vec::new();
        if self.finished {
            return out;
        }
        let carries = response.message.content.is_some() || response.message.thinking.is_some()
            || response.message.tool_calls.is_some();
        if carries {
            out.push(OllamaMessage::Chunk(response.clone()));
        }
        if response.done {
            out.push(OllamaMessage::EOF);
            self.finished = true;
        } else if !carries {
            out.push(OllamaMessage::Failed(String::from_str(EMPTY_OBJECT)));
            self.finished = true;
        }
        out
    }

    /// Takes a failure to read or to decode and gives the events to hand on.
    pub fn on_failure(&mut self, error: &OllamaError) -> (r: Vec<OllamaMessage>)
        ensures
            event_views(r@) == session_step(old(self)@, SessionInput::Failure(error_text(*error))),
            final(self)@,
    {
        let mut out: Vec<OllamaMessage> = Vec::new();
        if !self.finished {
            out.push(OllamaMessage::Failed(error.message()));
            self.finished = true;
        }
        assert(event_views(out@) =~= session_step(
            old(self)@,
            SessionInput::Failure(error_text(*error)),
        ));
        out
    }

    /// Takes the end of the response and gives the events to hand on.
    pub fn on_close(&mut self) -> (r: Vec<OllamaMessage>)
        ensures
            event_views(r@) == session_step(old(self)@, SessionInput::Closed),
            final(self)@,
    {
        let mut out: Vec<OllamaMessage> = Vec::new();
        if !self.finished {
            out.push(OllamaMessage::Failed(String::from_str(CUT_SHORT)));
            self.finished = true;
        }
        out
    }
}

proof fn lemma_terminal_count_add(a: Seq<OllamaMessageView>, b: Seq<OllamaMessageView>)
    ensures
        terminal_count(a + b) == terminal_count(a) + terminal_count(b),
    decreases b.len(),
{
    if b.len() > 0 {
        assert((a + b).drop_last() =~= a + b.drop_last());
        lemma_terminal_count_add(a, b.drop_last());
    }
}

proof fn lemma_input_events_end_once(input: SessionInput)
    ensures
        terminal_count(input_events(input)) == if ends_session(input_events(input)) {
            1nat
        } else {
            0nat
        },
{
    let e = input_events(input);
    assert(terminal_count(Seq::<OllamaMessageView>::empty()) == 0);
    if e.len() == 1 {
        assert(e.drop_last() =~= Seq::<OllamaMessageView>::empty());
    } else {
        assert(e.drop_last() =~= seq![e[0]]);
        assert(seq![e[0]].drop_last() =~= Seq::<OllamaMessageView>::empty());
        assert(terminal_count(seq![e[0]]) == 0);
    }
}

/// A session ends at most once: whatever happens to it, it hands on at most
/// one event that ends it, and nothing after that event. A session that has
/// ended has handed on exactly one, so a response that fails or stops short
/// still ends its session.
pub proof fn lemma_session_ends_once(inputs: Seq<SessionInput>)
    ensures
        terminal_count(session_events(false, inputs)) == if ended_after(false, inputs) {
            1nat
        } else {
            0nat
        },
        ended_after(false, inputs) ==> ends_session(session_events(false, inputs)),
        inputs.len() > 0 && inputs.last() is Closed ==> ended_after(false, inputs),
        inputs.len() > 0 && inputs.last() is Failure ==> ended_after(false, inputs),
    decreases inputs.len(),
{
    if inputs.len() > 0 {
        let earlier = inputs.drop_last();
        lemma_session_ends_once(earlier);
        if !ended_after(false, earlier) {
            let now = input_events(inputs.last());
            lemma_terminal_count_add(session_events(false, earlier), now);
            lemma_input_events_end_once(inputs.last());
        }
    }
}

} // verus!
