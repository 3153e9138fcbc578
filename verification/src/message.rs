//! Chat messages and the status notices that the client itself writes.

use vstd::prelude::*;

verus! {

/// What a message is, as plain values.
pub struct ChatMessageView {
    pub msg_type: Seq<char>,
    pub sender: Seq<char>,
    pub color: Seq<char>,
    pub content: Seq<char>,
    pub room: Seq<char>,
    pub client_count: nat,
}

/// One entry of the message log. Its fields are set when it is made and
/// cannot be changed afterwards.
#[derive(Debug, PartialEq, Eq)]
pub struct ChatMessage {
    msg_type: String,
    sender: String,
    color: String,
    content: String,
    room: String,
    client_count: usize,
}

impl View for ChatMessage {
    type V = ChatMessageView;

    closed spec fn view(&self) -> ChatMessageView {
        ChatMessageView {
            msg_type: self.msg_type@,
            sender: self.sender@,
            color: self.color@,
            content: self.content@,
            room: self.room@,
            client_count: self.client_count as nat,
        }
    }
}

impl Clone for ChatMessage {
    /// A copy with the same fields.
    fn clone(&self) -> (m: Self)
        ensures
            m@ == self@,
    {
        ChatMessage {
            msg_type: self.msg_type.clone(),
            sender: self.sender.clone(),
            color: self.color.clone(),
            content: self.content.clone(),
            room: self.room.clone(),
            client_count: self.client_count,
        }
    }
}

/// The messages of a sequence, as plain values.
pub open spec fn views(log: Seq<ChatMessage>) -> Seq<ChatMessageView> {
    log.map_values(|m: ChatMessage| m@)
}

/// A notice from the client itself: of type `status`, sent by `system`, in no
/// room, and with no client count.
pub open spec fn status_notice(color: Seq<char>, content: Seq<char>) -> ChatMessageView {
    ChatMessageView {
        msg_type: "status"@,
        sender: "system"@,
        color,
        content,
        room: Seq::empty(),
        client_count: 0,
    }
}

/// The notice that the stream of a connection has ended.
pub open spec fn disconnected_notice() -> ChatMessageView {
    status_notice("FF0000"@, "Disconnected from server."@)
}

/// The notice that the automatic reconnect succeeded.
pub open spec fn reconnected_notice() -> ChatMessageView {
    status_notice("00FF00"@, "Reconnected to server."@)
}

/// The notice that a connection to `url` was opened on request.
pub open spec fn connected_notice(url: Seq<char>) -> ChatMessageView {
    status_notice("00FF00"@, "Connected to "@ + url + "."@)
}

/// The notice that no connection to `url` could be opened.
pub open spec fn connect_failed_notice(url: Seq<char>) -> ChatMessageView {
    status_notice("FF0000"@, "Failed to connect to "@ + url + ". Try again."@)
}

impl ChatMessage {
    /// A message with the given fields.
    pub fn new(
        msg_type: String,
        sender: String,
        color: String,
        content: String,
        room: String,
        client_count: usize,
    ) -> (m: Self)
        ensures
            m@ == (ChatMessageView {
                msg_type: msg_type@,
                sender: sender@,
                color: color@,
                content: content@,
                room: room@,
                client_count: client_count as nat,
            }),
    {
        ChatMessage { msg_type, sender, color, content, room, client_count }
    }

    /// A status notice in the given color.
    pub fn status(color: &str, content: String) -> (m: Self)
        ensures
            m@ == status_notice(color@, content@),
    {
        ChatMessage {
            msg_type: "status".to_owned(),
            sender: "system".to_owned(),
            color: color.to_owned(),
            content,
            room: String::new(),
            client_count: 0,
        }
    }

    /// The notice that the stream of a connection has ended.
    pub fn disconnected() -> (m: Self)
        ensures
            m@ == disconnected_notice(),
    {
        ChatMessage::status("FF0000", "Disconnected from server.".to_owned())
    }

    /// The notice that the automatic reconnect succeeded.
    pub fn reconnected() -> (m: Self)
        ensures
            m@ == reconnected_notice(),
    {
        ChatMessage::status("00FF00", "Reconnected to server.".to_owned())
    }

    /// The notice that a connection to `url` was opened on request.
    pub fn connected(url: &str) -> (m: Self)
        ensures
            m@ == connected_notice(url@),
    {
        let content = "Connected to ".to_owned().concat(url).concat(".");
        ChatMessage::status("00FF00", content)
    }

    /// The notice that no connection to `url` could be opened.
    pub fn connect_failed(url: &str) -> (m: Self)
        ensures
            m@ == connect_failed_notice(url@),
    {
        let content = "Failed to connect to ".to_owned().concat(url).concat(". Try again.");
        ChatMessage::status("FF0000", content)
    }

    /// The tag of the message, such as `chat` or `status`.
    pub fn msg_type(&self) -> (s: &str)
        ensures
            s@ == self@.msg_type,
    {
        self.msg_type.as_str()
    }

    /// Who sent the message.
    pub fn sender(&self) -> (s: &str)
        ensures
            s@ == self@.sender,
    {
        self.sender.as_str()
    }

    /// The color of the sender: six hexadecimal digits, or nothing.
    pub fn color(&self) -> (s: &str)
        ensures
            s@ == self@.color,
    {
        self.color.as_str()
    }

    /// The text of the message.
    pub fn content(&self) -> (s: &str)
        ensures
            s@ == self@.content,
    {
        self.content.as_str()
    }

    /// The room the message was sent in.
    pub fn room(&self) -> (s: &str)
        ensures
            s@ == self@.room,
    {
        self.room.as_str()
    }

    /// How many clients the relay reports; zero where it reports nothing.
    pub fn client_count(&self) -> (n: usize)
        ensures
            n == self@.client_count,
    {
        self.client_count
    }
}

} // verus!
