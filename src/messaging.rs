//! The events exchanged with chat clients, and the classification of inbound frames.

use vstd::prelude::*;

verus! {

/// One chat message: its text and the identity of its author.
pub struct Message {
    contents: String,
    user: String,
}

impl Clone for Message {
    fn clone(&self) -> (r: Self)
        ensures
            r == *self,
    {
        Message { contents: self.contents.clone(), user: self.user.clone() }
    }
}

impl Message {
    pub closed spec fn contents_view(&self) -> Seq<char> {
        self.contents@
    }

    pub closed spec fn user_view(&self) -> Seq<char> {
        self.user@
    }

    pub fn new(contents: String, user: String) -> (r: Message)
        ensures
            r.contents_view() == contents@,
            r.user_view() == user@,
    {
        Message { contents, user }
    }

    pub fn contents(&self) -> (r: &String)
        ensures
            r@ == self.contents_view(),
    {
        &self.contents
    }

    pub fn user(&self) -> (r: &String)
        ensures
            r@ == self.user_view(),
    {
        &self.user
    }
}

/// The four kinds of event that travel over a room's connections.
#[derive(Debug, Clone, Copy, PartialEq, Eq, Structural)]
pub enum MessageTypes {
    NewMessage,
    MessageHistory,
    ChatroomEnded,
    ConnectionUpdate,
}

impl MessageTypes {
    /// The tag that names this kind in the `messageType` field of an envelope.
    pub open spec fn tag(self) -> Seq<char> {
        match self {
            MessageTypes::NewMessage => "NewMessage"@,
            MessageTypes::MessageHistory => "MessageHistory"@,
            MessageTypes::ChatroomEnded => "ChatroomEnded"@,
            MessageTypes::ConnectionUpdate => "ConnectionUpdate"@,
        }
    }

    pub fn to_string(&self) -> (r: String)
        ensures
            r@ == self.tag(),
    {
        match self {
            MessageTypes::NewMessage => String::from_str("NewMessage"),
            MessageTypes::MessageHistory => String::from_str("MessageHistory"),
            MessageTypes::ChatroomEnded => String::from_str("ChatroomEnded"),
            MessageTypes::ConnectionUpdate => String::from_str("ConnectionUpdate"),
        }
    }
}

/// The header of an inbound frame: only its kind is read before the body.
pub struct IncomingMessageType {
    pub message_type: String,
}

impl IncomingMessageType {
    /// Whether the frame announces a new chat message.
    pub fn is_new_message(&self) -> (r: bool)
        ensures
            r == (self.message_type@ == MessageTypes::NewMessage.tag()),
    {
        let expected = MessageTypes::NewMessage.to_string();
        self.message_type == expected
    }
}

/// The envelope that carries every event: a payload and the tag of its kind.
pub struct MessageWrapper<T> {
    pub message: T,
    message_type: String,
}

impl<T> MessageWrapper<T> {
    pub closed spec fn type_view(&self) -> Seq<char> {
        self.message_type@
    }

    pub closed spec fn payload(&self) -> T {
        self.message
    }

    pub fn new(message_type: MessageTypes, message: T) -> (r: Self)
        ensures
            r.payload() == message,
            r.type_view() == message_type.tag(),
    {
        MessageWrapper { message, message_type: message_type.to_string() }
    }

    pub fn message_type(&self) -> (r: &String)
        ensures
            r@ == self.type_view(),
    {
        &self.message_type
    }
}

/// Sent to every connection when a room has expired.
pub struct ChatroomEnded {
    chat_id: String,
}

impl ChatroomEnded {
    pub closed spec fn chat_id_view(&self) -> Seq<char> {
        self.chat_id@
    }

    pub fn new(chat_id: String) -> (r: ChatroomEnded)
        ensures
            r.chat_id_view() == chat_id@,
    {
        ChatroomEnded { chat_id }
    }

    pub fn chat_id(&self) -> (r: &String)
        ensures
            r@ == self.chat_id_view(),
    {
        &self.chat_id
    }
}

/// The views of a list of identities.
pub open spec fn names_view(v: Seq<String>) -> Seq<Seq<char>> {
    v.map_values(|s: String| s@)
}

/// A full snapshot of a room's membership: its size and the identities in it.
pub struct ConnectionUpdate {
    connection_count: i32,
    online_users: Vec<String>,
}

impl ConnectionUpdate {
    pub closed spec fn count_view(&self) -> int {
        self.connection_count as int
    }

    pub closed spec fn users_view(&self) -> Seq<Seq<char>> {
        names_view(self.online_users@)
    }

    pub fn new(connection_count: i32, online_users: Vec<String>) -> (r: ConnectionUpdate)
        ensures
            r.count_view() == connection_count as int,
            r.users_view() == names_view(online_users@),
    {
        ConnectionUpdate { connection_count, online_users }
    }

    pub fn connection_count(&self) -> (r: i32)
        ensures
            r as int == self.count_view(),
    {
        self.connection_count
    }

    pub fn online_users(&self) -> (r: &Vec<String>)
        ensures
            names_view(r@) == self.users_view(),
    {
        &self.online_users
    }
}

/// The messages of a room, oldest first, as sent to a connection that has just joined.
pub struct MessageHistory {
    history: Vec<Message>,
}

impl MessageHistory {
    pub closed spec fn history_view(&self) -> Seq<Message> {
        self.history@
    }

    pub fn new(history: Vec<Message>) -> (r: MessageHistory)
        ensures
            r.history_view() == history@,
    {
        MessageHistory { history }
    }

    pub fn history(&self) -> (r: &Vec<Message>)
        ensures
            r@ == self.history_view(),
    {
        &self.history
    }
}

/// An event sent to connections: exactly one of the four kinds, with its payload.
pub enum RoomEvent {
    NewMessage(Message),
    MessageHistory(MessageHistory),
    ChatroomEnded(ChatroomEnded),
    ConnectionUpdate(ConnectionUpdate),
}

impl RoomEvent {
    pub open spec fn kind(&self) -> MessageTypes {
        match self {
            RoomEvent::NewMessage(_) => MessageTypes::NewMessage,
            RoomEvent::MessageHistory(_) => MessageTypes::MessageHistory,
            RoomEvent::ChatroomEnded(_) => MessageTypes::ChatroomEnded,
            RoomEvent::ConnectionUpdate(_) => MessageTypes::ConnectionUpdate,
        }
    }

    pub fn message_type(&self) -> (r: MessageTypes)
        ensures
            r == self.kind(),
    {
        match self {
            RoomEvent::NewMessage(_) => MessageTypes::NewMessage,
            RoomEvent::MessageHistory(_) => MessageTypes::MessageHistory,
            RoomEvent::ChatroomEnded(_) => MessageTypes::ChatroomEnded,
            RoomEvent::ConnectionUpdate(_) => MessageTypes::ConnectionUpdate,
        }
    }
}

/// What an inbound frame amounts to, given its decoded header and, where it
/// decoded as a new-message envelope, its message. A frame that did not decode,
/// or whose kind is not `NewMessage`, amounts to nothing.
pub open spec fn frame_message(header: Option<IncomingMessageType>, body: Option<Message>) -> Option<Message> {
    match header {
        Some(h) => if h.message_type@ == MessageTypes::NewMessage.tag() {
            body
        } else {
            None
        },
        None => None,
    }
}

pub fn accept_frame(header: Option<IncomingMessageType>, body: Option<Message>) -> (r: Option<Message>)
    ensures
        r == frame_message(header, body),
{
    match header {
        Some(h) => if h.is_new_message() {
            body
        } else {
            None
        },
        None => None,
    }
}

} // verus!
