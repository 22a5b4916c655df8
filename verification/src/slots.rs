//! Address-keyed record slots.
//!
//! The ledger substrate stores at most one record per derived address. This
//! module models that slot space: a collection of records keyed by address,
//! viewed as a `Map` from address bytes to the record's abstract value. A
//! record can be created only at a free address, looked up, or removed; no
//! two live records share an address.

use vstd::prelude::*;

use crate::bytes::{key_eq, Address};

verus! {

/// One occupied slot: a record together with the address it lives at.
pub struct Slot<T> {
    pub addr: Address,
    pub val: T,
}

/// The slot space of one record family, keyed by derived address.
pub struct SlotMap<T> {
    entries: Vec<Slot<T>>,
}

/// No two slots share an address.
pub open spec fn unique_addrs<T>(s: Seq<Slot<T>>) -> bool {
    forall|i: int, j: int| 0 <= i < j < s.len() ==> s[i].addr@ != s[j].addr@
}

/// The map that a sequence of slots denotes.
pub open spec fn slots_map<T: View>(s: Seq<Slot<T>>) -> Map<Seq<u8>, T::V>
    decreases s.len(),
{
    if s.len() == 0 {
        Map::empty()
    } else {
        slots_map(s.drop_last()).insert(s.last().addr@, s.last().val@)
    }
}

impl<T: View> View for SlotMap<T> {
    type V = Map<Seq<u8>, T::V>;

    closed spec fn view(&self) -> Map<Seq<u8>, T::V> {
        slots_map(self.entries@)
    }
}

proof fn lemma_slots_map_dom<T: View>(s: Seq<Slot<T>>, a: Seq<u8>)
    ensures
        slots_map(s).dom().contains(a) <==> exists|i: int|
            0 <= i < s.len() && s[i].addr@ == a,
    decreases s.len(),
{
    if s.len() > 0 {
        lemma_slots_map_dom(s.drop_last(), a);
        if s.last().addr@ == a {
            assert(s[s.len() - 1].addr@ == a);
        } else {
            if slots_map(s).dom().contains(a) {
                let i = choose|i: int| 0 <= i < s.drop_last().len() && s.drop_last()[i].addr@ == a;
                assert(s[i].addr@ == a);
            }
            if exists|i: int| 0 <= i < s.len() && s[i].addr@ == a {
                let i = choose|i: int| 0 <= i < s.len() && s[i].addr@ == a;
                assert(i < s.len() - 1);
                assert(s.drop_last()[i].addr@ == a);
            }
        }
    }
}

proof fn lemma_slots_map_index<T: View>(s: Seq<Slot<T>>, i: int)
    requires
        unique_addrs(s),
        0 <= i < s.len(),
    ensures
        slots_map(s).dom().contains(s[i].addr@),
        slots_map(s)[s[i].addr@] == s[i].val@,
    decreases s.len(),
{
    if i == s.len() - 1 {
    } else {
        assert(unique_addrs(s.drop_last()));
        assert(s.drop_last()[i] == s[i]);
        lemma_slots_map_index(s.drop_last(), i);
        assert(s[i].addr@ != s.last().addr@);
    }
}

proof fn lemma_slots_map_remove<T: View>(s: Seq<Slot<T>>, i: int)
    requires
        unique_addrs(s),
        0 <= i < s.len(),
    ensures
        slots_map(s.remove(i)) == slots_map(s).remove(s[i].addr@),
    decreases s.len(),
{
    let a = s[i].addr@;
    if i == s.len() - 1 {
        assert(s.remove(i) =~= s.drop_last());
        lemma_slots_map_dom(s.drop_last(), a);
        assert(forall|j: int|
            0 <= j < s.drop_last().len() ==> s.drop_last()[j].addr@ != a);
        assert(!slots_map(s.drop_last()).dom().contains(a));
        assert(slots_map(s.drop_last()).insert(a, s[i].val@).remove(a) =~= slots_map(
            s.drop_last(),
        ));
    } else {
        assert(unique_addrs(s.drop_last()));
        assert(s.drop_last()[i] == s[i]);
        lemma_slots_map_remove(s.drop_last(), i);
        assert(s.remove(i).drop_last() =~= s.drop_last().remove(i));
        assert(s.remove(i).last() == s.last());
        assert(s.remove(i).len() == s.len() - 1 > 0);
        assert(slots_map(s.remove(i)) == slots_map(s.drop_last().remove(i)).insert(
            s.last().addr@,
            s.last().val@,
        ));
        assert(s.last().addr@ != a);
        assert(slots_map(s.drop_last()).remove(a).insert(s.last().addr@, s.last().val@)
            =~= slots_map(s.drop_last()).insert(s.last().addr@, s.last().val@).remove(a));
    }
}

impl<T: View> SlotMap<T> {
    /// Every address holds at most one record.
    pub closed spec fn wf(&self) -> bool {
        unique_addrs(self.entries@)
    }

    /// An empty slot space.
    pub fn new() -> (r: Self)
        ensures
            r.wf(),
            r@ == Map::<Seq<u8>, T::V>::empty(),
    {
        SlotMap { entries: Vec::new() }
    }

    fn find_index(&self, addr: &Address) -> (r: Option<usize>)
        ensures
            match r {
                Some(i) => i < self.entries@.len() && self.entries@[i as int].addr@ == addr@,
                None => forall|i: int|
                    0 <= i < self.entries@.len() ==> self.entries@[i].addr@ != addr@,
            },
    {
        let mut i: usize = 0;
        while i < self.entries.len()
            invariant
                i <= self.entries@.len(),
                forall|j: int| 0 <= j < i ==> self.entries@[j].addr@ != addr@,
            decreases self.entries@.len() - i,
        {
            if key_eq(&self.entries[i].addr, addr) {
                return Some(i);
            }
            i += 1;
        }
        None
    }

    /// Whether a record lives at `addr`.
    pub fn contains_addr(&self, addr: &Address) -> (r: bool)
        ensures
            r == self@.dom().contains(addr@),
    {
        proof {
            lemma_slots_map_dom(self.entries@, addr@);
        }
        match self.find_index(addr) {
            Some(_) => true,
            None => false,
        }
    }

    /// The record at `addr`, if one lives there.
    pub fn get(&self, addr: &Address) -> (r: Option<&T>)
        requires
            self.wf(),
        ensures
            match r {
                Some(v) => self@.dom().contains(addr@) && v@ == self@[addr@],
                None => !self@.dom().contains(addr@),
            },
    {
        proof {
            lemma_slots_map_dom(self.entries@, addr@);
        }
        match self.find_index(addr) {
            Some(i) => {
                proof {
                    lemma_slots_map_index(self.entries@, i as int);
                }
                Some(&self.entries[i].val)
            },
            None => None,
        }
    }

    /// Fills the free slot at `addr` with a record.
    pub fn insert_new(&mut self, addr: Address, val: T)
        requires
            old(self).wf(),
            !old(self)@.dom().contains(addr@),
        ensures
            final(self).wf(),
            final(self)@ == old(self)@.insert(addr@, val@),
    {
        proof {
            lemma_slots_map_dom(self.entries@, addr@);
        }
        let ghost s0 = self.entries@;
        self.entries.push(Slot { addr, val });
        proof {
            assert(self.entries@.drop_last() =~= s0);
            assert(unique_addrs(self.entries@));
        }
    }

    /// Empties the slot at `addr`, handing the record back; the slot becomes
    /// eligible for a fresh record under the same address. Hands back `None`,
    /// and changes nothing, where the slot is already empty.
    pub fn remove(&mut self, addr: &Address) -> (r: Option<T>)
        requires
            old(self).wf(),
        ensures
            final(self).wf(),
            match r {
                Some(v) => old(self)@.dom().contains(addr@) && v@ == old(self)@[addr@]
                    && final(self)@ == old(self)@.remove(addr@),
                None => !old(self)@.dom().contains(addr@) && final(self)@ == old(self)@,
            },
    {
        proof {
            lemma_slots_map_dom(self.entries@, addr@);
        }
        match self.find_index(addr) {
            Some(i) => {
                proof {
                    lemma_slots_map_index(self.entries@, i as int);
                    lemma_slots_map_remove(self.entries@, i as int);
                    assert(unique_addrs(self.entries@.remove(i as int)));
                }
                let slot = self.entries.remove(i);
                Some(slot.val)
            },
            None => None,
        }
    }
}

} // verus!
