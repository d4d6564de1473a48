use vstd::prelude::*;

verus! {

/// One entry of the chat history.
pub struct ChatMessage {
    pub timestamp: String,
    pub author: String,
    pub content: String,
    /// `true` for a message that arrived from the network, `false` for a local echo.
    pub is_remote: bool,
}

/// A chat entry as plain character sequences.
pub struct MessageModel {
    pub timestamp: Seq<char>,
    pub author: Seq<char>,
    pub content: Seq<char>,
    pub is_remote: bool,
}

impl View for ChatMessage {
    type V = MessageModel;

    open spec fn view(&self) -> MessageModel {
        MessageModel {
            timestamp: self.timestamp@,
            author: self.author@,
            content: self.content@,
            is_remote: self.is_remote,
        }
    }
}

impl ChatMessage {
    pub fn new(timestamp: String, author: String, content: String, is_remote: bool) -> (r: Self)
        ensures
            r@ == (MessageModel { timestamp: timestamp@, author: author@, content: content@, is_remote }),
    {
        ChatMessage { timestamp, author, content, is_remote }
    }
}

} // verus!
