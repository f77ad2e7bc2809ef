//! The catalog's records of chat rooms.

use vstd::prelude::*;

verus! {

/// Whether `c` is a lowercase hexadecimal digit.
pub open spec fn is_lower_hex(c: char) -> bool {
    ('0' <= c && c <= '9') || ('a' <= c && c <= 'f')
}

/// Whether `s` is a version-4 UUID in hyphenated lowercase form: 36
/// characters, hyphens at 8, 13, 18 and 23, the version digit `4` at 14, and
/// lowercase hex digits elsewhere.
pub open spec fn is_uuid_v4_text(s: Seq<char>) -> bool {
    &&& s.len() == 36
    &&& s[8] == '-' && s[13] == '-' && s[18] == '-' && s[23] == '-'
    &&& s[14] == '4'
    &&& forall|i: int| 0 <= i < 36 && i != 8 && i != 13 && i != 18 && i != 23 ==> is_lower_hex(#[trigger] s[i])
}

/// Relies on uuid::Uuid::new_v4, a random version-4 UUID, and on its
/// `Display`, which writes the hyphenated lowercase form.
#[verifier::external_body]
fn new_chat_id() -> (r: String)
    ensures
        is_uuid_v4_text(r@),
{
    uuid::Uuid::new_v4().to_string()
}

/// The body of a request to open a chat room.
pub struct CreateChatCommand {
    pub name: String,
}

/// A chat room as the catalog lists it.
pub struct ChatDTO {
    pub id: String,
    pub name: String,
}

/// A chat room record: its id, its name and who opened it.
pub struct Chat {
    pub id: String,
    pub name: String,
    pub created_by: String,
}

impl ChatDTO {
    pub fn from(chat: &Chat) -> (r: ChatDTO)
        ensures
            r.id@ == chat.id@,
            r.name@ == chat.name@,
    {
        ChatDTO { id: chat.id.clone(), name: chat.name.clone() }
    }
}

impl Chat {
    /// A new room record with a fresh random id.
    pub fn new(name: String, created_by: String) -> (r: Chat)
        ensures
            is_uuid_v4_text(r.id@),
            r.name == name,
            r.created_by == created_by,
    {
        Chat { id: new_chat_id(), name, created_by }
    }
}

} // verus!
