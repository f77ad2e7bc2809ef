//! The per-room actor. Each operation takes the room from one state to the
//! next and returns the events to deliver; the host runs the operations of a
//! room one at a time, performs the deliveries and does the durable writes.

use vstd::prelude::*;
use crate::expiry::{deadline_after, ExpiryScheduler, CHAT_EXPIRY_IN_SECONDS};
use crate::log::{lemma_log_keeps_most_recent, log_append, log_of, most_recent, MessageLog, MAX_MESSAGES};
use crate::messaging::{
    names_view, ChatroomEnded, ConnectionUpdate, Message, MessageHistory, RoomEvent,
};
use crate::registry::ConnectionRegistry;

verus! {

/// One event and the connections it goes to.
pub struct Outbound {
    pub recipients: Vec<u64>,
    pub event: RoomEvent,
}

impl Outbound {
    /// `o` sends `log` as the history, to `connection` only.
    pub open spec fn is_history(&self, connection: u64, log: Seq<Message>) -> bool {
        &&& self.recipients@ == seq![connection]
        &&& self.event matches RoomEvent::MessageHistory(h) && h.history_view() == log
    }

    /// `o` sends the snapshot of `roster` to every connection of `live`.
    pub open spec fn is_update(&self, live: Seq<u64>, roster: Seq<Seq<char>>) -> bool {
        &&& self.recipients@ == live
        &&& self.event matches RoomEvent::ConnectionUpdate(u) && u.count_view() == roster.len()
            && u.users_view() == roster
    }

    /// `o` sends `m` as a new message to every connection of `live`.
    pub open spec fn is_new_message(&self, live: Seq<u64>, m: Message) -> bool {
        &&& self.recipients@ == live
        &&& self.event matches RoomEvent::NewMessage(n) && n == m
    }

    /// `o` tells every connection of `live` that the room `chat_id` has ended.
    pub open spec fn is_ended(&self, live: Seq<u64>, chat_id: Seq<char>) -> bool {
        &&& self.recipients@ == live
        &&& self.event matches RoomEvent::ChatroomEnded(e) && e.chat_id_view() == chat_id
    }
}

/// Why a connection attempt was refused; nothing in the room changed.
#[derive(Debug, Clone, Copy, PartialEq, Eq, Structural)]
pub enum ConnectError {
    /// The request does not ask for a websocket upgrade.
    NotUpgrade,
    /// The request names no room.
    MissingChatId,
    /// No identity came with the request.
    MissingIdentity,
}

/// A durable write failed; what it was to record did not happen.
#[derive(Debug, Clone, Copy, PartialEq, Eq, Structural)]
pub enum StorageError {
    WriteFailed,
}

/// What a connection attempt carries: its `Upgrade` header, the room named in
/// its path and the identity from its query.
pub struct ConnectRequest {
    pub upgrade: Option<String>,
    pub chat_id: Option<String>,
    pub user_id: Option<String>,
}

/// Whether an `Upgrade` header asks for a websocket.
pub open spec fn is_websocket_upgrade(upgrade: Option<String>) -> bool {
    upgrade matches Some(h) && h@ == "websocket"@
}

/// The reason a connection attempt is refused, if it is.
pub open spec fn connect_rejection(request: ConnectRequest) -> Option<ConnectError> {
    if !is_websocket_upgrade(request.upgrade) {
        Some(ConnectError::NotUpgrade)
    } else if request.chat_id is None {
        Some(ConnectError::MissingChatId)
    } else if request.user_id is None {
        Some(ConnectError::MissingIdentity)
    } else {
        None
    }
}

pub fn websocket_upgrade_requested(upgrade: &Option<String>) -> (r: bool)
    ensures
        r == is_websocket_upgrade(*upgrade),
{
    match upgrade {
        Some(h) => {
            let expected = String::from_str("websocket");
            *h == expected
        },
        None => false,
    }
}

/// How the room ended, or why it did not, when its alarm went off.
pub enum AlarmOutcome {
    /// No deadline had passed: a later activity moved it, or none was set.
    NotDue,
    /// The deadline passed but the room never learned its id; nothing else happens.
    MissingChat,
    /// The room ended: its catalog entry `chat_id` is to be deleted and `outbound` delivered.
    Ended { chat_id: String, outbound: Outbound },
}

pub struct RoomView {
    pub chat_id: Option<Seq<char>>,
    pub log: Seq<Message>,
    pub live: Seq<u64>,
    pub roster: Seq<Seq<char>>,
    pub deadline: Option<u64>,
    pub ttl: u64,
}

/// `live` with `c` added, unless it is there already.
pub open spec fn with_live(live: Seq<u64>, c: u64) -> Seq<u64> {
    if live.contains(c) {
        live
    } else {
        live.push(c)
    }
}

/// Whether the alarm, going off at `now`, finds the deadline passed.
pub open spec fn alarm_due(s: RoomView, now: u64) -> bool {
    s.deadline matches Some(d) && now >= d
}

/// The room after some activity at `now`: the deadline is one window later.
pub open spec fn touched(s: RoomView, now: u64) -> RoomView {
    RoomView { deadline: Some(deadline_after(now, s.ttl)), ..s }
}

/// The room after accepting `connection` for `request`, which was not refused.
pub open spec fn connected(s: RoomView, request: ConnectRequest, connection: u64, now: u64) -> RoomView {
    RoomView {
        chat_id: Some(request.chat_id->Some_0@),
        live: with_live(s.live, connection),
        roster: s.roster.push(request.user_id->Some_0@),
        deadline: Some(deadline_after(now, s.ttl)),
        ..s
    }
}

/// The events of an accepted connection: the history to it alone, then the
/// new snapshot to every connection of the room `after`.
pub open spec fn connect_events(out: Seq<Outbound>, before: RoomView, after: RoomView, connection: u64) -> bool {
    &&& out.len() == 2
    &&& out[0].is_history(connection, before.log)
    &&& out[1].is_update(after.live, after.roster)
}

/// The room after keeping `m`, submitted at `now`.
pub open spec fn posted(s: RoomView, m: Message, now: u64) -> RoomView {
    RoomView { log: log_append(s.log, m), ..touched(s, now) }
}

/// The identity recovered from a connection's attachment: empty where there was none.
pub open spec fn identity_of(user_id: Option<String>) -> Seq<char> {
    match user_id {
        Some(u) => u@,
        None => Seq::empty(),
    }
}

/// The room after `connection`, carrying `user_id`, has closed.
pub open spec fn disconnected(s: RoomView, connection: u64, user_id: Option<String>) -> RoomView {
    RoomView {
        live: s.live.remove_value(connection),
        roster: s.roster.remove_value(identity_of(user_id)),
        ..s
    }
}

/// The room once its deadline has passed and been cleared.
pub open spec fn expired(s: RoomView) -> RoomView {
    RoomView { deadline: None, ..s }
}

/// What the alarm going off at `now` in room `s` amounts to.
pub open spec fn alarm_result(s: RoomView, now: u64, r: AlarmOutcome) -> bool {
    if !alarm_due(s, now) {
        r is NotDue
    } else {
        match s.chat_id {
            None => r is MissingChat,
            Some(id) => match r {
                AlarmOutcome::Ended { chat_id, outbound } => chat_id@ == id && outbound.is_ended(s.live, id),
                _ => false,
            },
        }
    }
}

/// A connection that has just joined a room whose log was built from `ms`
/// gets, for itself alone, a history of the most recent of those messages
/// (all of them while they are within the cap), and none of the events of its
/// joining is a new message; so no message of that history reaches it again
/// as a new message.
pub proof fn lemma_join_sees_history(
    before: RoomView,
    after: RoomView,
    out: Seq<Outbound>,
    connection: u64,
    ms: Seq<Message>,
)
    requires
        connect_events(out, before, after, connection),
        before.log == log_of(ms),
    ensures
        out[0].recipients@ == seq![connection],
        out[0].event matches RoomEvent::MessageHistory(h) && h.history_view() == most_recent(ms),
        ms.len() <= MAX_MESSAGES ==> (out[0].event matches RoomEvent::MessageHistory(h)
            && h.history_view() == ms),
        forall|i: int| 0 <= i < out.len() ==> !(#[trigger] out[i].event is NewMessage),
{
    lemma_log_keeps_most_recent(ms);
    assert forall|i: int| 0 <= i < out.len() implies !(#[trigger] out[i].event is NewMessage) by {
        assert(i == 0 || i == 1);
    }
}

/// A room whose last activity was at `last`, and that has seen none for a
/// whole window when its alarm goes off at `now`, ends: every connection still
/// live is told that the room has ended, and the room's id is handed back for
/// its catalog entry to be deleted.
pub proof fn lemma_idle_room_ends(s: RoomView, last: u64, now: u64, r: AlarmOutcome)
    requires
        s == touched(s, last),
        now as int >= last as int + s.ttl as int,
        s.chat_id is Some,
        alarm_result(s, now, r),
    ensures
        r matches AlarmOutcome::Ended { chat_id, outbound } && chat_id@ == s.chat_id->Some_0
            && outbound.is_ended(s.live, chat_id@),
{
}

/// Activity at `at` keeps a room from ending for one whole window after it
/// (where that window ends at an instant the clock can hold).
pub proof fn lemma_activity_postpones_end(s: RoomView, at: u64, now: u64)
    requires
        (now as int) < at as int + s.ttl as int,
        at as int + s.ttl as int <= u64::MAX,
    ensures
        !alarm_due(touched(s, at), now),
{
}

pub struct Chatroom {
    chat_id: Option<String>,
    log: MessageLog,
    registry: ConnectionRegistry,
    expiry: ExpiryScheduler,
}

impl View for Chatroom {
    type V = RoomView;

    closed spec fn view(&self) -> RoomView {
        RoomView {
            chat_id: match self.chat_id {
                Some(c) => Some(c@),
                None => None,
            },
            log: self.log@,
            live: self.registry@.live,
            roster: self.registry@.roster,
            deadline: self.expiry.pending(),
            ttl: self.expiry.ttl(),
        }
    }
}

impl Chatroom {
    /// The log is within its cap, live connections are distinct, and the
    /// member count fits the count that is reported.
    pub closed spec fn wf(&self) -> bool {
        &&& self.log.wf()
        &&& self.registry.wf()
        &&& self.registry@.roster.len() <= i32::MAX
    }

    /// A room with no history, no members and no deadline.
    pub fn new() -> (r: Chatroom)
        ensures
            r.wf(),
            r@.chat_id == None::<Seq<char>>,
            r@.log == Seq::<Message>::empty(),
            r@.live == Seq::<u64>::empty(),
            r@.roster == Seq::<Seq<char>>::empty(),
            r@.deadline == None::<u64>,
            r@.ttl == CHAT_EXPIRY_IN_SECONDS * 1000,
    {
        Chatroom {
            chat_id: None,
            log: MessageLog::new(),
            registry: ConnectionRegistry::new(),
            expiry: ExpiryScheduler::new(CHAT_EXPIRY_IN_SECONDS * 1000),
        }
    }

    /// A room rebuilt from what was stored for it: the live connections of an
    /// earlier instance are gone, and the log keeps its most recent messages.
    pub fn restore(chat_id: Option<String>, messages: Vec<Message>, users: Vec<String>) -> (r: Chatroom)
        requires
            users@.len() <= i32::MAX,
        ensures
            r.wf(),
            r@.chat_id == match chat_id {
                Some(c) => Some(c@),
                None => None::<Seq<char>>,
            },
            r@.log == most_recent(messages@),
            r@.live == Seq::<u64>::empty(),
            r@.roster == names_view(users@),
            r@.deadline == None::<u64>,
            r@.ttl == CHAT_EXPIRY_IN_SECONDS * 1000,
    {
        Chatroom {
            chat_id,
            log: MessageLog::from_stored(messages),
            registry: ConnectionRegistry::from_stored(users),
            expiry: ExpiryScheduler::new(CHAT_EXPIRY_IN_SECONDS * 1000),
        }
    }

    pub fn chat_id(&self) -> (r: &Option<String>)
        ensures
            self@.chat_id == match *r {
                Some(c) => Some(c@),
                None => None::<Seq<char>>,
            },
    {
        &self.chat_id
    }

    /// The history, oldest first; also the answer to a plain read of the room.
    pub fn messages(&self) -> (r: &Vec<Message>)
        ensures
            r@ == self@.log,
    {
        self.log.messages()
    }

    pub fn users(&self) -> (r: &Vec<String>)
        ensures
            names_view(r@) == self@.roster,
    {
        self.registry.roster()
    }

    pub fn connections(&self) -> (r: &Vec<u64>)
        ensures
            r@ == self@.live,
    {
        self.registry.live()
    }

    pub fn member_count(&self) -> (r: usize)
        ensures
            r == self@.roster.len(),
    {
        self.registry.count()
    }

    pub fn deadline(&self) -> (r: Option<u64>)
        ensures
            r == self@.deadline,
    {
        self.expiry.deadline()
    }

    /// Any request addressed to the room moves its deadline to one window after `now`.
    pub fn touch(&mut self, now: u64)
        requires
            old(self).wf(),
        ensures
            final(self).wf(),
            final(self)@ == touched(old(self)@, now),
    {
        self.expiry.arm(now);
    }

    /// The membership snapshot of the room as it stands.
    pub fn connection_update(&self) -> (r: ConnectionUpdate)
        requires
            self.wf(),
        ensures
            r.count_view() == self@.roster.len(),
            r.users_view() == self@.roster,
    {
        let users = self.registry.roster().clone();
        proof {
            assert(names_view(users@) =~= self@.roster);
        }
        ConnectionUpdate::new(self.registry.count() as i32, users)
    }

    fn to_all(&self, event: RoomEvent) -> (r: Outbound)
        ensures
            r.recipients@ == self@.live,
            r.event == event,
    {
        let recipients = self.registry.live().clone();
        proof {
            assert(recipients@ =~= self@.live);
        }
        Outbound { recipients, event }
    }

    /// Accepts a connection with the identity its request carries. The new
    /// connection alone gets the whole history; then every connection, the
    /// new one included, gets the new membership snapshot.
    pub fn connect(&mut self, request: ConnectRequest, connection: u64, now: u64) -> (r: Result<Vec<Outbound>, ConnectError>)
        requires
            old(self).wf(),
            old(self)@.roster.len() < i32::MAX,
        ensures
            final(self).wf(),
            r matches Err(e) ==> connect_rejection(request) == Some(e),
            r is Err ==> final(self)@ == old(self)@,
            r is Ok <==> (connect_rejection(request) is None),
            r is Ok ==> final(self)@ == connected(old(self)@, request, connection, now),
            r matches Ok(out) ==> connect_events(out@, old(self)@, final(self)@, connection),
    {
        if !websocket_upgrade_requested(&request.upgrade) {
            return Err(ConnectError::NotUpgrade);
        }
        let chat_id = match request.chat_id {
            Some(c) => c,
            None => {
                return Err(ConnectError::MissingChatId);
            },
        };
        let user_id = match request.user_id {
            Some(u) => u,
            None => {
                return Err(ConnectError::MissingIdentity);
            },
        };
        self.chat_id = Some(chat_id);
        self.registry.accept(connection, user_id);
        let history = self.log.messages().clone();
        proof {
            assert(history@ =~= self@.log);
        }
        let mut recipients: Vec<u64> = Vec::new();
        recipients.push(connection);
        proof {
            assert(recipients@ =~= seq![connection]);
        }
        let to_new = Outbound {
            recipients,
            event: RoomEvent::MessageHistory(MessageHistory::new(history)),
        };
        let update = self.connection_update();
        let to_all = self.to_all(RoomEvent::ConnectionUpdate(update));
        self.expiry.arm(now);
        let mut out: Vec<Outbound> = Vec::new();
        out.push(to_new);
        out.push(to_all);
        Ok(out)
    }

    /// The log that keeping `m` would give; this is what is written durably
    /// before `new_message` is told how the write went.
    pub fn stage_message(&self, m: &Message) -> (r: Vec<Message>)
        requires
            self.wf(),
        ensures
            r@ == log_append(self@.log, *m),
    {
        let next = self.log.appended(m.clone());
        next.messages().clone()
    }

    /// Takes in a submitted message once the write of the staged log is over.
    /// Where it succeeded the message joins the log and goes to every
    /// connection, the sender's own included; where it failed the failure is
    /// returned, the log stays as it was and nothing is sent. Either way the
    /// deadline moves to one window after `now`.
    pub fn new_message(&mut self, m: Message, stored: Result<(), StorageError>, now: u64) -> (r: Result<Outbound, StorageError>)
        requires
            old(self).wf(),
        ensures
            final(self).wf(),
            stored matches Err(e) ==> r == Err::<Outbound, StorageError>(e),
            stored is Err ==> final(self)@ == touched(old(self)@, now),
            stored is Ok ==> final(self)@ == posted(old(self)@, m, now),
            r matches Ok(out) ==> out.is_new_message(old(self)@.live, m),
            r is Ok <==> (stored is Ok),
    {
        self.expiry.arm(now);
        match stored {
            Err(e) => Err(e),
            Ok(()) => {
                self.log.append(m.clone());
                Ok(self.to_all(RoomEvent::NewMessage(m)))
            },
        }
    }

    /// Releases a closed connection. The identity comes from what was attached
    /// to the connection, and is empty where that could not be recovered; one
    /// occurrence of it leaves the roster. Every remaining connection gets the
    /// new membership snapshot. The deadline is not moved.
    pub fn disconnect(&mut self, connection: u64, user_id: Option<String>) -> (r: Outbound)
        requires
            old(self).wf(),
        ensures
            final(self).wf(),
            final(self)@ == disconnected(old(self)@, connection, user_id),
            r.is_update(final(self)@.live, final(self)@.roster),
    {
        let identity = match user_id {
            Some(u) => u,
            None => String::new(),
        };
        self.registry.release(connection, &identity);
        proof {
            let id = identity@;
            let before = old(self)@.roster;
            before.index_of_first_ensures(id);
            if before.contains(id) {
                let i = before.index_of_first(id)->Some_0;
                assert(before.remove_value(id) == before.remove(i));
            }
        }
        let update = self.connection_update();
        self.to_all(RoomEvent::ConnectionUpdate(update))
    }

    /// Handles the room's alarm going off at `now`. Where the deadline has
    /// passed it is cleared, and a room that knows its id ends: its catalog
    /// entry is to be deleted and every live connection told.
    pub fn alarm(&mut self, now: u64) -> (r: AlarmOutcome)
        requires
            old(self).wf(),
        ensures
            final(self).wf(),
            !alarm_due(old(self)@, now) ==> final(self)@ == old(self)@,
            alarm_due(old(self)@, now) ==> final(self)@ == expired(old(self)@),
            alarm_result(old(self)@, now, r),
    {
        if !self.expiry.fire(now) {
            return AlarmOutcome::NotDue;
        }
        match &self.chat_id {
            None => AlarmOutcome::MissingChat,
            Some(c) => {
                let chat_id = c.clone();
                let ended = ChatroomEnded::new(c.clone());
                let outbound = self.to_all(RoomEvent::ChatroomEnded(ended));
                AlarmOutcome::Ended { chat_id, outbound }
            },
        }
    }
}

} // verus!
