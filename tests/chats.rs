use rusty_chatroom::chats::{Chat, ChatDTO, CreateChatCommand};

#[test]
fn new_chat_gets_a_v4_uuid() {
    let cmd = CreateChatCommand { name: "general".to_string() };
    let chat = Chat::new(cmd.name, "alice".to_string());
    assert_eq!(chat.id.len(), 36);
    let bytes = chat.id.as_bytes();
    for i in [8, 13, 18, 23] {
        assert_eq!(bytes[i], b'-');
    }
    assert_eq!(bytes[14], b'4');
    assert!(chat.id.chars().all(|c| c == '-' || c.is_ascii_digit() || ('a'..='f').contains(&c)));
    assert_eq!(chat.name, "general");
    assert_eq!(chat.created_by, "alice");
    let other = Chat::new("general".to_string(), "alice".to_string());
    assert_ne!(chat.id, other.id);
}

#[test]
fn dto_keeps_id_and_name() {
    let chat = Chat { id: "id1".to_string(), name: "n".to_string(), created_by: "c".to_string() };
    let dto = ChatDTO::from(&chat);
    assert_eq!(dto.id, "id1");
    assert_eq!(dto.name, "n");
}
