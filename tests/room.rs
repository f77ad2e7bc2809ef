use rusty_chatroom::messaging::{Message, RoomEvent};
use rusty_chatroom::room::{AlarmOutcome, Chatroom, ConnectError, ConnectRequest, Outbound, StorageError};

fn request(room: &str, user: &str) -> ConnectRequest {
    ConnectRequest {
        upgrade: Some("websocket".to_string()),
        chat_id: Some(room.to_string()),
        user_id: Some(user.to_string()),
    }
}

fn message(contents: &str, user: &str) -> Message {
    Message::new(contents.to_string(), user.to_string())
}

fn update_of(o: &Outbound) -> (i32, Vec<String>) {
    match &o.event {
        RoomEvent::ConnectionUpdate(u) => (u.connection_count(), u.online_users().clone()),
        _ => panic!("expected a connection update"),
    }
}

#[test]
fn first_connect_gets_empty_history_and_message_reaches_everyone() {
    let mut room = Chatroom::new();
    let out = room.connect(request("r1", "alice"), 1, 0).unwrap();
    assert_eq!(out.len(), 2);
    assert_eq!(out[0].recipients, vec![1]);
    match &out[0].event {
        RoomEvent::MessageHistory(h) => assert!(h.history().is_empty()),
        _ => panic!("expected the history first"),
    }
    let staged = room.stage_message(&message("hi", "alice"));
    assert_eq!(staged.len(), 1);
    let sent = room.new_message(message("hi", "alice"), Ok(()), 5).unwrap();
    assert_eq!(sent.recipients, vec![1]);
    match &sent.event {
        RoomEvent::NewMessage(m) => {
            assert_eq!(m.contents(), "hi");
            assert_eq!(m.user(), "alice");
        }
        _ => panic!("expected a new message"),
    }
    assert_eq!(room.messages().len(), 1);
}

#[test]
fn second_connect_broadcasts_both_members() {
    let mut room = Chatroom::new();
    room.connect(request("r1", "alice"), 1, 0).unwrap();
    let out = room.connect(request("r1", "bob"), 2, 1).unwrap();
    assert_eq!(out[1].recipients, vec![1, 2]);
    assert_eq!(update_of(&out[1]), (2, vec!["alice".to_string(), "bob".to_string()]));
}

#[test]
fn member_count_follows_connects_and_disconnects() {
    let mut room = Chatroom::new();
    room.connect(request("r1", "a"), 1, 0).unwrap();
    room.connect(request("r1", "b"), 2, 0).unwrap();
    room.connect(request("r1", "c"), 3, 0).unwrap();
    let out = room.disconnect(2, Some("b".to_string()));
    assert_eq!(room.member_count(), 2);
    assert_eq!(out.recipients, vec![1, 3]);
    assert_eq!(update_of(&out), (2, vec!["a".to_string(), "c".to_string()]));
}

#[test]
fn shared_identity_leaves_one_occurrence() {
    let mut room = Chatroom::new();
    room.connect(request("r1", "alice"), 1, 0).unwrap();
    room.connect(request("r1", "alice"), 2, 0).unwrap();
    let out = room.disconnect(1, Some("alice".to_string()));
    assert_eq!(update_of(&out), (1, vec!["alice".to_string()]));
    assert_eq!(room.connections(), &vec![2]);
}

#[test]
fn disconnect_without_attachment_uses_empty_identity() {
    let mut room = Chatroom::new();
    room.connect(request("r1", ""), 1, 0).unwrap();
    room.connect(request("r1", "bob"), 2, 0).unwrap();
    let out = room.disconnect(1, None);
    assert_eq!(update_of(&out), (1, vec!["bob".to_string()]));
}

#[test]
fn disconnect_does_not_move_deadline() {
    let mut room = Chatroom::new();
    room.connect(request("r1", "alice"), 1, 1000).unwrap();
    let before = room.deadline();
    room.disconnect(1, Some("alice".to_string()));
    assert_eq!(room.deadline(), before);
}

#[test]
fn history_on_join_holds_earlier_messages_only() {
    let mut room = Chatroom::new();
    room.connect(request("r1", "alice"), 1, 0).unwrap();
    room.new_message(message("one", "alice"), Ok(()), 1).unwrap();
    room.new_message(message("two", "alice"), Ok(()), 2).unwrap();
    let out = room.connect(request("r1", "bob"), 2, 3).unwrap();
    assert_eq!(out[0].recipients, vec![2]);
    match &out[0].event {
        RoomEvent::MessageHistory(h) => {
            let texts: Vec<&str> = h.history().iter().map(|m| m.contents().as_str()).collect();
            assert_eq!(texts, vec!["one", "two"]);
        }
        _ => panic!("expected the history first"),
    }
    assert!(out.iter().all(|o| !matches!(o.event, RoomEvent::NewMessage(_))));
}

#[test]
fn connect_refused_without_upgrade() {
    let mut room = Chatroom::new();
    let mut req = request("r1", "alice");
    req.upgrade = Some("h2c".to_string());
    assert_eq!(room.connect(req, 1, 0).err(), Some(ConnectError::NotUpgrade));
    let mut req = request("r1", "alice");
    req.upgrade = None;
    assert_eq!(room.connect(req, 1, 0).err(), Some(ConnectError::NotUpgrade));
    assert_eq!(room.member_count(), 0);
    assert_eq!(room.deadline(), None);
}

#[test]
fn connect_refused_without_room() {
    let mut room = Chatroom::new();
    let mut req = request("r1", "alice");
    req.chat_id = None;
    assert_eq!(room.connect(req, 1, 0).err(), Some(ConnectError::MissingChatId));
}

#[test]
fn connect_refused_without_identity() {
    let mut room = Chatroom::new();
    let mut req = request("r1", "alice");
    req.user_id = None;
    assert_eq!(room.connect(req, 1, 0).err(), Some(ConnectError::MissingIdentity));
    assert!(room.connections().is_empty());
}

#[test]
fn failed_write_is_reported_and_nothing_sent() {
    let mut room = Chatroom::new();
    room.connect(request("r1", "alice"), 1, 0).unwrap();
    let r = room.new_message(message("hi", "alice"), Err(StorageError::WriteFailed), 7);
    assert_eq!(r.err(), Some(StorageError::WriteFailed));
    assert!(room.messages().is_empty());
    assert_eq!(room.deadline(), Some(7 + 300_000));
}

#[test]
fn idle_room_ends_and_tells_live_connections() {
    let mut room = Chatroom::new();
    room.connect(request("r1", "alice"), 1, 1000).unwrap();
    room.connect(request("r1", "bob"), 2, 2000).unwrap();
    assert_eq!(room.deadline(), Some(302_000));
    assert!(matches!(room.alarm(301_999), AlarmOutcome::NotDue));
    match room.alarm(302_000) {
        AlarmOutcome::Ended { chat_id, outbound } => {
            assert_eq!(chat_id, "r1");
            assert_eq!(outbound.recipients, vec![1, 2]);
            match &outbound.event {
                RoomEvent::ChatroomEnded(e) => assert_eq!(e.chat_id(), "r1"),
                _ => panic!("expected the end of the room"),
            }
        }
        _ => panic!("expected the room to end"),
    }
    assert_eq!(room.deadline(), None);
    assert!(matches!(room.alarm(400_000), AlarmOutcome::NotDue));
}

#[test]
fn activity_moves_the_deadline() {
    let mut room = Chatroom::new();
    room.connect(request("r1", "alice"), 1, 0).unwrap();
    room.touch(100_000);
    assert!(matches!(room.alarm(300_000), AlarmOutcome::NotDue));
    assert!(matches!(room.alarm(400_000), AlarmOutcome::Ended { .. }));
}

#[test]
fn alarm_without_room_id_is_a_no_op() {
    let mut room = Chatroom::new();
    room.touch(0);
    assert!(matches!(room.alarm(300_000), AlarmOutcome::MissingChat));
    assert_eq!(room.deadline(), None);
}

#[test]
fn restored_room_keeps_recent_messages_and_roster() {
    let stored: Vec<Message> = (0..120).map(|i| message(&i.to_string(), "u")).collect();
    let room = Chatroom::restore(Some("r9".to_string()), stored, vec!["u".to_string()]);
    assert_eq!(room.messages().len(), 100);
    assert_eq!(room.messages()[0].contents(), "20");
    assert_eq!(room.member_count(), 1);
    assert!(room.connections().is_empty());
    assert_eq!(room.chat_id(), &Some("r9".to_string()));
}
