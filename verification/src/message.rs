//! Messages of a conversation.

use vstd::prelude::*;

verus! {

/// Who authored a message.
#[derive(Clone, Copy, Debug, PartialEq, Eq, Structural)]
pub enum Origin {
    /// The human user.
    User,
    /// The remote assistant.
    Assistant,
}

/// One entry of a conversation. A message never changes once it exists.
#[derive(Debug, PartialEq, Eq)]
pub struct Message {
    id: usize,
    content: String,
    origin: Origin,
}

/// The mathematical value of a [`Message`].
pub struct MessageView {
    /// The length of the conversation at the moment the message was appended.
    pub id: nat,
    /// The text, exactly as it was handed in.
    pub content: Seq<char>,
    /// Who authored it.
    pub origin: Origin,
}

impl View for Message {
    type V = MessageView;

    closed spec fn view(&self) -> MessageView {
        MessageView { id: self.id as nat, content: self.content@, origin: self.origin }
    }
}

impl Clone for Message {
    fn clone(&self) -> (copy: Message)
        ensures
            copy == *self,
    {
        Message { id: self.id, content: self.content.clone(), origin: self.origin }
    }
}

impl Message {
    /// Makes the message that is appended to a conversation of length `id`.
    pub(crate) fn new(id: usize, content: String, origin: Origin) -> (message: Message)
        ensures
            message@ == (MessageView { id: id as nat, content: content@, origin }),
    {
        Message { id, content, origin }
    }

    /// The position at which the message was appended.
    pub fn id(&self) -> (id: usize)
        ensures
            id == self@.id,
    {
        self.id
    }

    /// The text of the message.
    pub fn content(&self) -> (content: &str)
        ensures
            content@ == self@.content,
    {
        self.content.as_str()
    }

    /// Who authored the message.
    pub fn origin(&self) -> (origin: Origin)
        ensures
            origin == self@.origin,
    {
        self.origin
    }

    /// Whether the human user authored the message.
    pub fn is_user(&self) -> (user: bool)
        ensures
            user == (self@.origin == Origin::User),
    {
        self.origin == Origin::User
    }
}

} // verus!
