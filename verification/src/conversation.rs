//! The conversation store: the ordered messages that every request to the
//! model carries. It starts with the system message, grows at its end only,
//! and is handed out as copies.

use crate::message::{
    clone_messages, message_views, system_message, system_prompt, Message, MessageView, Role,
};
use vstd::prelude::*;

verus! {

/// What holds of every store: it starts with the system message, and no
/// later message is a system message.
pub open spec fn well_formed(store: Seq<MessageView>) -> bool {
    &&& store.len() > 0
    &&& store[0] == system_message()
    &&& forall|i: int| 0 < i < store.len() ==> (#[trigger] store[i]).role != Role::System
}

/// The store after `message` was handed to it: a system message is not
/// taken, any other message stands at the end.
pub open spec fn appended(store: Seq<MessageView>, message: MessageView) -> Seq<MessageView> {
    if message.role == Role::System {
        store
    } else {
        store.push(message)
    }
}

/// The copy of a store that a request is made from.
pub open spec fn snapshot_of(store: Seq<MessageView>) -> Seq<MessageView> {
    store
}

/// The ordered messages of one conversation.
#[derive(Debug)]
pub struct Conversation {
    messages: Vec<Message>,
}

impl View for Conversation {
    type V = Seq<MessageView>;

    closed spec fn view(&self) -> Seq<MessageView> {
        message_views(self.messages@)
    }
}

impl Conversation {
    /// A store that holds the system message and nothing else.
    pub fn new() -> (r: Self)
        ensures
            r@ == seq![system_message()],
            well_formed(r@),
    {
        let mut messages: Vec<Message> = Vec::new();
        messages.push(system_prompt());
        Conversation { messages }
    }

    /// Puts `message` at the end of the store, unless it is a system message.
    pub fn append(&mut self, message: Message) -> (accepted: bool)
        ensures
            accepted == (message@.role != Role::System),
            final(self)@ == appended(old(self)@, message@),
    {
        if message.role == Role::System {
            return false;
        }
        assert(message_views(self.messages@.push(message)) =~= message_views(
            self.messages@,
        ).push(message@));
        self.messages.push(message);
        true
    }

    /// A copy of the store as it is now.
    pub fn snapshot(&self) -> (r: Vec<Message>)
        ensures
            message_views(r@) == snapshot_of(self@),
    {
        clone_messages(&self.messages)
    }

    /// The number of messages in the store.
    pub fn len(&self) -> (r: usize)
        ensures
            r == self@.len(),
    {
        self.messages.len()
    }
}

/// A store that is well formed stays so, whatever is handed to it, and keeps
/// what it held, in the same order.
pub proof fn lemma_append_only(store: Seq<MessageView>, message: MessageView)
    requires
        well_formed(store),
    ensures
        well_formed(appended(store, message)),
        store.is_prefix_of(appended(store, message)),
{
}

/// A copy taken before later messages arrive is the store as it was then:
/// it is where the grown store begins, and it is not the grown store.
pub proof fn lemma_snapshot_isolation(store: Seq<MessageView>, later: Seq<MessageView>)
    requires
        later.len() > 0,
    ensures
        snapshot_of(store) == store,
        snapshot_of(store).is_prefix_of(store + later),
        snapshot_of(store) != snapshot_of(store + later),
{
}

} // verus!
