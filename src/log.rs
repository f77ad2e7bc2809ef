//! A room's message history: append-only, holding at most the most recent
//! `MAX_MESSAGES` messages, oldest first.

use vstd::prelude::*;
use crate::messaging::Message;

verus! {

/// The most messages a room keeps.
pub const MAX_MESSAGES: usize = 100;

/// The log after appending `m` to `log`: the oldest entries leave first once
/// there are more than `MAX_MESSAGES`.
pub open spec fn log_append(log: Seq<Message>, m: Message) -> Seq<Message> {
    let t = log.push(m);
    if t.len() > MAX_MESSAGES {
        t.subrange(t.len() - MAX_MESSAGES, t.len() as int)
    } else {
        t
    }
}

/// The log built by appending `ms` in order to an empty log.
pub open spec fn log_of(ms: Seq<Message>) -> Seq<Message>
    decreases ms.len(),
{
    if ms.len() == 0 {
        Seq::empty()
    } else {
        log_append(log_of(ms.drop_last()), ms.last())
    }
}

/// The most recent `MAX_MESSAGES` of `ms`, in their order.
pub open spec fn most_recent(ms: Seq<Message>) -> Seq<Message> {
    if ms.len() > MAX_MESSAGES {
        ms.subrange(ms.len() - MAX_MESSAGES, ms.len() as int)
    } else {
        ms
    }
}

/// Appending messages one by one keeps exactly the most recent `MAX_MESSAGES`
/// of them, in the order they were appended.
pub proof fn lemma_log_keeps_most_recent(ms: Seq<Message>)
    ensures
        log_of(ms) == most_recent(ms),
        log_of(ms).len() <= MAX_MESSAGES,
    decreases ms.len(),
{
    if ms.len() > 0 {
        let init = ms.drop_last();
        lemma_log_keeps_most_recent(init);
        assert(most_recent(init).push(ms.last()) =~= if init.len() > MAX_MESSAGES {
            ms.subrange(init.len() - MAX_MESSAGES, ms.len() as int)
        } else {
            ms
        });
        assert(log_of(ms) =~= most_recent(ms));
    }
}

/// Once a 101st message is appended, the log holds messages 2 to 101 of the
/// append order, and exactly 100 of them.
pub proof fn lemma_log_drops_oldest(ms: Seq<Message>)
    requires
        ms.len() == MAX_MESSAGES + 1,
    ensures
        log_of(ms) == ms.subrange(1, ms.len() as int),
        log_of(ms).len() == MAX_MESSAGES,
{
    lemma_log_keeps_most_recent(ms);
}

pub struct MessageLog {
    messages: Vec<Message>,
}

impl View for MessageLog {
    type V = Seq<Message>;

    closed spec fn view(&self) -> Seq<Message> {
        self.messages@
    }
}

impl MessageLog {
    pub closed spec fn wf(&self) -> bool {
        self.messages@.len() <= MAX_MESSAGES
    }

    pub fn new() -> (r: MessageLog)
        ensures
            r.wf(),
            r@ == Seq::<Message>::empty(),
    {
        MessageLog { messages: Vec::new() }
    }

    /// A log holding what was stored for a room, of which only the most recent
    /// `MAX_MESSAGES` are kept.
    pub fn from_stored(stored: Vec<Message>) -> (r: MessageLog)
        ensures
            r.wf(),
            r@ == most_recent(stored@),
    {
        let mut messages = stored;
        if messages.len() > MAX_MESSAGES {
            let n = messages.len();
            messages = messages.split_off(n - MAX_MESSAGES);
        }
        MessageLog { messages }
    }

    pub fn len(&self) -> (r: usize)
        ensures
            r == self@.len(),
    {
        self.messages.len()
    }

    pub fn messages(&self) -> (r: &Vec<Message>)
        ensures
            r@ == self@,
    {
        &self.messages
    }

    /// The log that appending `m` would give, leaving this one as it is.
    pub fn appended(&self, m: Message) -> (r: MessageLog)
        requires
            self.wf(),
        ensures
            r.wf(),
            r@ == log_append(self@, m),
    {
        let mut next = MessageLog { messages: self.messages.clone() };
        proof {
            assert(next.messages@ =~= self.messages@);
        }
        next.append(m);
        next
    }

    pub fn append(&mut self, m: Message)
        requires
            old(self).wf(),
        ensures
            final(self).wf(),
            final(self)@ == log_append(old(self)@, m),
    {
        self.messages.push(m);
        if self.messages.len() > MAX_MESSAGES {
            self.messages.remove(0);
            proof {
                assert(self.messages@ =~= log_append(old(self)@, m));
            }
        }
    }
}

} // verus!
