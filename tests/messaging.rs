use rusty_chatroom::messaging::{
    accept_frame, ChatroomEnded, ConnectionUpdate, IncomingMessageType, Message, MessageHistory,
    MessageTypes, MessageWrapper, RoomEvent,
};

#[test]
fn message_type_tags() {
    assert_eq!(MessageTypes::NewMessage.to_string(), "NewMessage");
    assert_eq!(MessageTypes::MessageHistory.to_string(), "MessageHistory");
    assert_eq!(MessageTypes::ChatroomEnded.to_string(), "ChatroomEnded");
    assert_eq!(MessageTypes::ConnectionUpdate.to_string(), "ConnectionUpdate");
}

#[test]
fn wrapper_carries_tag_and_payload() {
    let w = MessageWrapper::new(MessageTypes::ChatroomEnded, ChatroomEnded::new("c1".to_string()));
    assert_eq!(w.message_type(), "ChatroomEnded");
    assert_eq!(w.message.chat_id(), "c1");
}

#[test]
fn payload_constructors_keep_their_fields() {
    let u = ConnectionUpdate::new(3, vec!["a".to_string()]);
    assert_eq!(u.connection_count(), 3);
    assert_eq!(u.online_users(), &vec!["a".to_string()]);
    let h = MessageHistory::new(vec![Message::new("x".to_string(), "y".to_string())]);
    assert_eq!(h.history()[0].user(), "y");
    let e = RoomEvent::MessageHistory(h);
    assert_eq!(e.message_type(), MessageTypes::MessageHistory);
}

#[test]
fn only_new_message_frames_are_taken() {
    let header = |t: &str| Some(IncomingMessageType { message_type: t.to_string() });
    let body = || Some(Message::new("hi".to_string(), "alice".to_string()));
    let taken = accept_frame(header("NewMessage"), body()).unwrap();
    assert_eq!(taken.contents(), "hi");
    assert!(accept_frame(header("ConnectionUpdate"), body()).is_none());
    assert!(accept_frame(header("newmessage"), body()).is_none());
    assert!(accept_frame(None, body()).is_none());
    assert!(accept_frame(header("NewMessage"), None).is_none());
    assert!(IncomingMessageType { message_type: "NewMessage".to_string() }.is_new_message());
}
