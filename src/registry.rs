//! The connections of one room: the live connections that events are
//! delivered to, and the roster of identities that the member count is
//! reported from.

use vstd::prelude::*;
use vstd::multiset::Multiset;
use crate::messaging::names_view;

verus! {

broadcast use vstd::seq_lib::group_to_multiset_ensures;

/// One change to a roster.
pub enum RosterChange {
    Join(Seq<char>),
    Leave(Seq<char>),
}

/// The roster after `r` went through `changes` in order: a join adds its
/// identity, a leave removes one occurrence of its identity.
pub open spec fn replay(r: Seq<Seq<char>>, changes: Seq<RosterChange>) -> Seq<Seq<char>>
    decreases changes.len(),
{
    if changes.len() == 0 {
        r
    } else {
        let before = replay(r, changes.drop_last());
        match changes.last() {
            RosterChange::Join(id) => before.push(id),
            RosterChange::Leave(id) => before.remove_value(id),
        }
    }
}

pub open spec fn joins(changes: Seq<RosterChange>) -> int
    decreases changes.len(),
{
    if changes.len() == 0 {
        0
    } else {
        joins(changes.drop_last()) + if changes.last() is Join { 1int } else { 0int }
    }
}

pub open spec fn leaves(changes: Seq<RosterChange>) -> int
    decreases changes.len(),
{
    if changes.len() == 0 {
        0
    } else {
        leaves(changes.drop_last()) + if changes.last() is Leave { 1int } else { 0int }
    }
}

/// Every leave in `changes` is of an identity that is on the roster when it comes.
pub open spec fn leaves_matched(r: Seq<Seq<char>>, changes: Seq<RosterChange>) -> bool
    decreases changes.len(),
{
    if changes.len() == 0 {
        true
    } else {
        &&& leaves_matched(r, changes.drop_last())
        &&& match changes.last() {
            RosterChange::Join(_) => true,
            RosterChange::Leave(id) => replay(r, changes.drop_last()).contains(id),
        }
    }
}

/// Starting from an empty roster, after N joins and M leaves the member count
/// is never below N - M, and never below zero; it is exactly N - M when each
/// leave is of an identity that is on the roster at that moment.
pub proof fn lemma_member_count(changes: Seq<RosterChange>)
    ensures
        replay(Seq::empty(), changes).len() >= joins(changes) - leaves(changes),
        replay(Seq::empty(), changes).len() >= 0,
        leaves_matched(Seq::empty(), changes) ==> replay(Seq::empty(), changes).len() == joins(changes)
            - leaves(changes),
    decreases changes.len(),
{
    if changes.len() > 0 {
        let init = changes.drop_last();
        lemma_member_count(init);
        let before = replay(Seq::empty(), init);
        match changes.last() {
            RosterChange::Join(id) => {},
            RosterChange::Leave(id) => {
                before.index_of_first_ensures(id);
            },
        }
    }
}

/// Leaving takes exactly one occurrence of the identity off the roster and
/// leaves every other entry as it was; so when two connections share an
/// identity and one of them leaves, the identity is still on the roster.
pub proof fn lemma_leave_removes_one(r: Seq<Seq<char>>, id: Seq<char>)
    requires
        r.contains(id),
    ensures
        r.remove_value(id).to_multiset() == r.to_multiset().remove(id),
        r.remove_value(id).len() == r.len() - 1,
        r.remove_value(id).to_multiset().count(id) == r.to_multiset().count(id) - 1,
        r.to_multiset().count(id) >= 2 ==> r.remove_value(id).contains(id),
{
    r.index_of_first_ensures(id);
    let i = r.index_of_first(id)->Some_0;
    assert(r.remove_value(id) == r.remove(i));
    let m: Multiset<Seq<char>> = r.to_multiset();
    assert(m.count(id) > 0);
    assert(m.remove(id).count(id) == m.count(id) - 1);
}

pub struct ConnectionRegistry {
    live: Vec<u64>,
    roster: Vec<String>,
}

pub struct RegistryView {
    pub live: Seq<u64>,
    pub roster: Seq<Seq<char>>,
}

impl View for ConnectionRegistry {
    type V = RegistryView;

    closed spec fn view(&self) -> RegistryView {
        RegistryView { live: self.live@, roster: names_view(self.roster@) }
    }
}

impl ConnectionRegistry {
    /// Live connections are distinct.
    pub closed spec fn wf(&self) -> bool {
        self.live@.no_duplicates()
    }

    pub fn new() -> (r: ConnectionRegistry)
        ensures
            r.wf(),
            r@.live == Seq::<u64>::empty(),
            r@.roster == Seq::<Seq<char>>::empty(),
    {
        let r = ConnectionRegistry { live: Vec::new(), roster: Vec::new() };
        proof {
            assert(names_view(r.roster@) =~= Seq::<Seq<char>>::empty());
        }
        r
    }

    /// A registry with no live connection and the roster that was stored for the room.
    pub fn from_stored(roster: Vec<String>) -> (r: ConnectionRegistry)
        ensures
            r.wf(),
            r@.live == Seq::<u64>::empty(),
            r@.roster == names_view(roster@),
    {
        ConnectionRegistry { live: Vec::new(), roster }
    }

    pub fn live(&self) -> (r: &Vec<u64>)
        ensures
            r@ == self@.live,
    {
        &self.live
    }

    pub fn roster(&self) -> (r: &Vec<String>)
        ensures
            names_view(r@) == self@.roster,
    {
        &self.roster
    }

    /// The member count, which the roster decides.
    pub fn count(&self) -> (r: usize)
        ensures
            r == self@.roster.len(),
    {
        self.roster.len()
    }

    /// Records an accepted connection and the identity attached to it.
    pub fn accept(&mut self, connection: u64, identity: String)
        requires
            old(self).wf(),
        ensures
            final(self).wf(),
            final(self)@.live == if old(self)@.live.contains(connection) {
                old(self)@.live
            } else {
                old(self)@.live.push(connection)
            },
            final(self)@.roster == old(self)@.roster.push(identity@),
    {
        if !self.is_live(connection) {
            self.live.push(connection);
        }
        self.roster.push(identity);
        proof {
            assert(names_view(self.roster@) =~= old(self)@.roster.push(identity@));
        }
    }

    pub fn is_live(&self, connection: u64) -> (r: bool)
        ensures
            r == self@.live.contains(connection),
    {
        let mut i: usize = 0;
        while i < self.live.len()
            invariant
                i <= self.live@.len(),
                forall|j: int| 0 <= j < i ==> self.live@[j] != connection,
            decreases self.live@.len() - i,
        {
            if self.live[i] == connection {
                return true;
            }
            i = i + 1;
        }
        false
    }

    /// Records a closed connection: it leaves the live set, and one occurrence
    /// of its identity leaves the roster.
    pub fn release(&mut self, connection: u64, identity: &String)
        requires
            old(self).wf(),
        ensures
            final(self).wf(),
            final(self)@.live == old(self)@.live.remove_value(connection),
            final(self)@.roster == old(self)@.roster.remove_value(identity@),
    {
        let ghost old_live = self.live@;
        let mut i: usize = 0;
        while i < self.live.len()
            invariant
                self.live@ == old_live,
                i <= self.live@.len(),
                forall|j: int| 0 <= j < i ==> self.live@[j] != connection,
            ensures
                self.live@ == old_live,
                i <= self.live@.len(),
                forall|j: int| 0 <= j < i ==> self.live@[j] != connection,
                i < self.live@.len() ==> self.live@[i as int] == connection,
            decreases self.live@.len() - i,
        {
            if self.live[i] == connection {
                break;
            }
            i = i + 1;
        }
        proof {
            old_live.index_of_first_ensures(connection);
        }
        if i < self.live.len() {
            self.live.remove(i);
            proof {
                let k = old_live.index_of_first(connection)->Some_0;
                assert(k == i);
                assert(self.live@.no_duplicates()) by {
                    assert forall|a: int, b: int|
                        0 <= a < self.live@.len() && 0 <= b < self.live@.len() && a != b implies
                        self.live@[a] != self.live@[b] by {
                        let a0 = if a < i { a } else { a + 1 };
                        let b0 = if b < i { b } else { b + 1 };
                        assert(self.live@[a] == old_live[a0]);
                        assert(self.live@[b] == old_live[b0]);
                    }
                }
            }
        }
        let ghost old_roster = self.roster@;
        let ghost names = names_view(old_roster);
        let mut k: usize = 0;
        while k < self.roster.len()
            invariant
                self.roster@ == old_roster,
                names == names_view(old_roster),
                k <= self.roster@.len(),
                forall|j: int| 0 <= j < k ==> names[j] != identity@,
            ensures
                self.roster@ == old_roster,
                k <= self.roster@.len(),
                forall|j: int| 0 <= j < k ==> names[j] != identity@,
                k < self.roster@.len() ==> names[k as int] == identity@,
            decreases self.roster@.len() - k,
        {
            if self.roster[k] == *identity {
                break;
            }
            k = k + 1;
        }
        proof {
            names.index_of_first_ensures(identity@);
        }
        if k < self.roster.len() {
            self.roster.remove(k);
            proof {
                let f = names.index_of_first(identity@)->Some_0;
                assert(f == k);
                assert(names_view(self.roster@) =~= names.remove(k as int));
            }
        }
    }
}

} // verus!
