//! The messages of a conversation and the tool calls that a model asks for.

use crate::constants::{ASSISTANT, SYSTEM, SYSTEM_PROMPT, TOOL, USER};
use vstd::prelude::*;

verus! {

/// The view of a text that may be missing.
pub open spec fn str_view(t: Option<&str>) -> Option<Seq<char>> {
    match t {
        Some(t) => Some(t@),
        None => None,
    }
}

/// Who a message is from.
#[derive(Debug, Clone, Copy, PartialEq, Eq, Structural)]
pub enum Role {
    System,
    User,
    Assistant,
    Tool,
}

/// The name under which a role goes over the wire.
pub open spec fn role_name(role: Role) -> Seq<char> {
    match role {
        Role::System => SYSTEM@,
        Role::User => USER@,
        Role::Assistant => ASSISTANT@,
        Role::Tool => TOOL@,
    }
}

impl Role {
    /// The name under which the role goes over the wire.
    pub fn as_str(&self) -> (r: &'static str)
        ensures
            r@ == role_name(*self),
    {
        match self {
            Role::System => SYSTEM,
            Role::User => USER,
            Role::Assistant => ASSISTANT,
            Role::Tool => TOOL,
        }
    }
}

/// The value of one argument of a tool call: a text, or anything else, kept
/// as it was written.
#[derive(Debug, PartialEq, Eq)]
pub enum ArgValue {
    Text(String),
    Other(String),
}

pub enum ArgValueView {
    Text(Seq<char>),
    Other(Seq<char>),
}

impl View for ArgValue {
    type V = ArgValueView;

    open spec fn view(&self) -> ArgValueView {
        match self {
            ArgValue::Text(t) => ArgValueView::Text(t@),
            ArgValue::Other(t) => ArgValueView::Other(t@),
        }
    }
}

impl Clone for ArgValue {
    fn clone(&self) -> (r: Self)
        ensures
            r@ == self@,
    {
        match self {
            ArgValue::Text(t) => ArgValue::Text(t.clone()),
            ArgValue::Other(t) => ArgValue::Other(t.clone()),
        }
    }
}

/// One named argument of a tool call.
#[derive(Debug, PartialEq, Eq)]
pub struct Argument {
    pub name: String,
    pub value: ArgValue,
}

pub struct ArgumentView {
    pub name: Seq<char>,
    pub value: ArgValueView,
}

impl View for Argument {
    type V = ArgumentView;

    open spec fn view(&self) -> ArgumentView {
        ArgumentView { name: self.name@, value: self.value@ }
    }
}

impl Clone for Argument {
    fn clone(&self) -> (r: Self)
        ensures
            r@ == self@,
    {
        Argument { name: self.name.clone(), value: self.value.clone() }
    }
}

/// A tool that the model asks to have run, with its arguments in the order
/// in which they were given.
#[derive(Debug, PartialEq, Eq)]
pub struct ToolCall {
    pub name: String,
    pub arguments: Vec<Argument>,
}

pub struct ToolCallView {
    pub name: Seq<char>,
    pub arguments: Seq<ArgumentView>,
}

impl View for ToolCall {
    type V = ToolCallView;

    open spec fn view(&self) -> ToolCallView {
        ToolCallView {
            name: self.name@,
            arguments: self.arguments@.map_values(|a: Argument| a@),
        }
    }
}

/// The value of the first argument called `key`, if there is one.
pub open spec fn argument_of(arguments: Seq<ArgumentView>, key: Seq<char>) -> Option<
    ArgValueView,
>
    decreases arguments.len(),
{
    if arguments.len() == 0 {
        None
    } else if arguments[0].name == key {
        Some(arguments[0].value)
    } else {
        argument_of(arguments.drop_first(), key)
    }
}

/// The text of the first argument called `key`, if there is one and it is a text.
pub open spec fn text_argument_of(arguments: Seq<ArgumentView>, key: Seq<char>) -> Option<
    Seq<char>,
> {
    match argument_of(arguments, key) {
        Some(ArgValueView::Text(t)) => Some(t),
        _ => None,
    }
}

proof fn lemma_argument_of_skips(arguments: Seq<ArgumentView>, key: Seq<char>, i: int)
    requires
        0 <= i <= arguments.len(),
        forall|k: int| 0 <= k < i ==> arguments[k].name != key,
    ensures
        argument_of(arguments, key) == argument_of(arguments.skip(i), key),
    decreases i,
{
    if i == 0 {
        assert(arguments.skip(0) =~= arguments);
    } else {
        lemma_argument_of_skips(arguments, key, i - 1);
        assert(arguments.skip(i - 1).drop_first() =~= arguments.skip(i));
    }
}

impl Clone for ToolCall {
    fn clone(&self) -> (r: Self)
        ensures
            r@ == self@,
    {
        let mut arguments: Vec<Argument> = Vec::new();
        let mut i: usize = 0;
        while i < self.arguments.len()
            invariant
                i <= self.arguments.len(),
                arguments.len() == i,
                forall|k: int| 0 <= k < i ==> arguments[k]@ == self.arguments[k]@,
            decreases self.arguments.len() - i,
        {
            arguments.push(self.arguments[i].clone());
            i += 1;
        }
        let r = ToolCall { name: self.name.clone(), arguments };
        assert(r@.arguments =~= self@.arguments);
        r
    }
}

impl ToolCall {
    /// The value of the first argument called `key`.
    pub fn argument(&self, key: &str) -> (r: Option<&ArgValue>)
        ensures
            match r {
                Some(v) => argument_of(self@.arguments, key@) == Some(v@),
                None => argument_of(self@.arguments, key@) is None,
            },
    {
        let mut i: usize = 0;
        while i < self.arguments.len()
            invariant
                i <= self.arguments.len(),
                forall|k: int| 0 <= k < i ==> self@.arguments[k].name != key@,
            decreases self.arguments.len() - i,
        {
            if crate::text::same_text(self.arguments[i].name.as_str(), key) {
                proof {
                    lemma_argument_of_skips(self@.arguments, key@, i as int);
                }
                return Some(&self.arguments[i].value);
            }
            i += 1;
        }
        proof {
            lemma_argument_of_skips(self@.arguments, key@, i as int);
        }
        None
    }

    /// The text of the first argument called `key`, where it is a text.
    pub fn text_argument(&self, key: &str) -> (r: Option<&str>)
        ensures
            match r {
                Some(t) => text_argument_of(self@.arguments, key@) == Some(t@),
                None => text_argument_of(self@.arguments, key@) is None,
            },
    {
        match self.argument(key) {
            Some(ArgValue::Text(t)) => Some(t.as_str()),
            _ => None,
        }
    }
}

/// The views of the calls, in the same order.
pub open spec fn call_views(calls: Seq<ToolCall>) -> Seq<ToolCallView> {
    calls.map_values(|c: ToolCall| c@)
}

/// Copies the calls.
pub fn clone_calls(calls: &Vec<ToolCall>) -> (r: Vec<ToolCall>)
    ensures
        call_views(r@) == call_views(calls@),
{
    let mut out: Vec<ToolCall> = Vec::new();
    let mut i: usize = 0;
    while i < calls.len()
        invariant
            i <= calls.len(),
            out.len() == i,
            forall|k: int| 0 <= k < i ==> out[k]@ == calls[k]@,
        decreases calls.len() - i,
    {
        out.push(calls[i].clone());
        i += 1;
    }
    out
}

/// One message of a conversation.
#[derive(Debug, PartialEq, Eq)]
pub struct Message {
    pub role: Role,
    pub content: String,
    pub tool_name: Option<String>,
    pub tool_calls: Option<Vec<ToolCall>>,
}

pub struct MessageView {
    pub role: Role,
    pub content: Seq<char>,
    pub tool_name: Option<Seq<char>>,
    pub tool_calls: Option<Seq<ToolCallView>>,
}

impl View for Message {
    type V = MessageView;

    open spec fn view(&self) -> MessageView {
        MessageView {
            role: self.role,
            content: self.content@,
            tool_name: match self.tool_name {
                Some(n) => Some(n@),
                None => None,
            },
            tool_calls: match self.tool_calls {
                Some(calls) => Some(call_views(calls@)),
                None => None,
            },
        }
    }
}

impl Clone for Message {
    fn clone(&self) -> (r: Self)
        ensures
            r@ == self@,
    {
        let tool_name = match &self.tool_name {
            Some(n) => Some(n.clone()),
            None => None,
        };
        let tool_calls = match &self.tool_calls {
            Some(calls) => Some(clone_calls(calls)),
            None => None,
        };
        Message { role: self.role, content: self.content.clone(), tool_name, tool_calls }
    }
}

/// The views of the messages, in the same order.
pub open spec fn message_views(messages: Seq<Message>) -> Seq<MessageView> {
    messages.map_values(|m: Message| m@)
}

/// Copies the messages.
pub fn clone_messages(messages: &Vec<Message>) -> (r: Vec<Message>)
    ensures
        message_views(r@) == message_views(messages@),
{
    let mut out: Vec<Message> = Vec::new();
    let mut i: usize = 0;
    while i < messages.len()
        invariant
            i <= messages.len(),
            out.len() == i,
            forall|k: int| 0 <= k < i ==> out[k]@ == messages[k]@,
        decreases messages.len() - i,
    {
        out.push(messages[i].clone());
        i += 1;
    }
    out
}

/// A message that holds a role and a text, and nothing else.
pub open spec fn plain_message(role: Role, content: Seq<char>) -> MessageView {
    MessageView { role, content, tool_name: None, tool_calls: None }
}

/// The message that every conversation starts with.
pub open spec fn system_message() -> MessageView {
    plain_message(Role::System, SYSTEM_PROMPT@)
}

/// What the user asked.
pub open spec fn user_message(prompt: Seq<char>) -> MessageView {
    plain_message(Role::User, prompt)
}

/// What the model answered.
pub open spec fn assistant_message(content: Seq<char>) -> MessageView {
    plain_message(Role::Assistant, content)
}

/// What the tool called `tool_name` gave back.
pub open spec fn tool_message(content: Seq<char>, tool_name: Seq<char>) -> MessageView {
    MessageView { role: Role::Tool, content, tool_name: Some(tool_name), tool_calls: None }
}

/// The model's request to have `calls` run.
pub open spec fn tool_calls_message(calls: Seq<ToolCallView>) -> MessageView {
    MessageView {
        role: Role::Assistant,
        content: Seq::empty(),
        tool_name: None,
        tool_calls: Some(calls),
    }
}

/// The message that every conversation starts with.
pub fn system_prompt() -> (r: Message)
    ensures
        r@ == system_message(),
{
    Message {
        role: Role::System,
        content: String::from_str(SYSTEM_PROMPT),
        tool_name: None,
        tool_calls: None,
    }
}

/// The message that holds what the user asked.
pub fn user_prompt(prompt_text: &str) -> (r: Message)
    ensures
        r@ == user_message(prompt_text@),
{
    Message {
        role: Role::User,
        content: String::from_str(prompt_text),
        tool_name: None,
        tool_calls: None,
    }
}

/// The message that holds what a tool gave back.
pub fn tool_prompt(content: &str, tool_name: &str) -> (r: Message)
    ensures
        r@ == tool_message(content@, tool_name@),
{
    Message {
        role: Role::Tool,
        content: String::from_str(content),
        tool_name: Some(String::from_str(tool_name)),
        tool_calls: None,
    }
}

/// The message that holds what the model answered.
pub fn add_assistant_response(content: &str) -> (r: Message)
    ensures
        r@ == assistant_message(content@),
{
    Message {
        role: Role::Assistant,
        content: String::from_str(content),
        tool_name: None,
        tool_calls: None,
    }
}

/// The message that holds the model's request to have `calls` run.
pub fn tool_calls_prompt(calls: &Vec<ToolCall>) -> (r: Message)
    ensures
        r@ == tool_calls_message(call_views(calls@)),
{
    Message {
        role: Role::Assistant,
        content: String::new(),
        tool_name: None,
        tool_calls: Some(clone_calls(calls)),
    }
}

} // verus!
