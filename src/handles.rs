//! A table of open tokenizer handles. A handle is the index of its slot;
//! a released slot keeps a tombstone and its index is never issued again, so
//! a second release or a use after release is seen and refused.
use crate::engine::{Encoding, Tokenizer};
use crate::text::Failure;
use vstd::prelude::*;

verus! {

/// The open handles of a program.
pub struct HandleTable {
    slots: Vec<Option<Tokenizer>>,
}

impl HandleTable {
    /// The encoding of each live handle.
    pub closed spec fn live(&self) -> Map<nat, Encoding> {
        Map::new(
            |i: nat| i < self.slots@.len() && self.slots@[i as int] is Some,
            |i: nat| self.slots@[i as int]->Some_0.kind(),
        )
    }

    /// How many handles have been issued; the next one is this number.
    pub closed spec fn issued(&self) -> nat {
        self.slots@.len()
    }

    /// An empty table.
    pub fn new() -> (r: HandleTable)
        ensures
            r.live().is_empty(),
            r.issued() == 0,
    {
        let r = HandleTable { slots: Vec::new() };
        assert(r.live() =~= Map::empty());
        r
    }

    /// Takes a tokenizer in and issues a fresh handle for it; refused only
    /// once every index has been issued.
    pub fn open(&mut self, t: Tokenizer) -> (r: Result<usize, Failure>)
        ensures
            r is Err <==> old(self).issued() == usize::MAX,
            r matches Ok(h) ==> {
                &&& h == old(self).issued()
                &&& final(self).issued() == old(self).issued() + 1
                &&& final(self).live() == old(self).live().insert(h as nat, t.kind())
            },
            r matches Err(f) ==> f == Failure::Overflow && *final(self) == *old(self),
    {
        if self.slots.len() == usize::MAX {
            return Err(Failure::Overflow);
        }
        let h = self.slots.len();
        let ghost k = t.kind();
        self.slots.push(Some(t));
        assert(self.live() =~= old(self).live().insert(h as nat, k));
        Ok(h)
    }

    /// The tokenizer of a live handle; nothing for a released or unknown one.
    pub fn get(&self, h: usize) -> (r: Option<&Tokenizer>)
        ensures
            r is Some <==> self.live().contains_key(h as nat),
            r matches Some(t) ==> t.kind() == self.live()[h as nat],
    {
        if h < self.slots.len() {
            self.slots[h].as_ref()
        } else {
            None
        }
    }

    /// Releases a live handle and the tables it owns. A handle that was
    /// released already, or never issued, is refused and nothing changes.
    pub fn close(&mut self, h: usize) -> (r: Result<(), Failure>)
        ensures
            r is Ok <==> old(self).live().contains_key(h as nat),
            final(self).issued() == old(self).issued(),
            r is Ok ==> final(self).live() == old(self).live().remove(h as nat),
            r is Err ==> r == Err::<(), Failure>(Failure::StaleHandle) && final(self).live()
                == old(self).live(),
    {
        if h >= self.slots.len() {
            return Err(Failure::StaleHandle);
        }
        let mut slot: Option<Tokenizer> = None;
        std::mem::swap(&mut slot, &mut self.slots[h]);
        match slot {
            Some(t) => {
                t.close();
                assert(self.live() =~= old(self).live().remove(h as nat));
                Ok(())
            },
            None => {
                assert(self.slots@ =~= old(self).slots@);
                Err(Failure::StaleHandle)
            },
        }
    }
}

/// A released handle stays released: `open` makes the live map
/// `live().insert(issued(), kind)` and `close` makes it `live().remove(other)`,
/// and neither brings back a handle that was issued and is not live.
pub proof fn lemma_released_stays_released(
    table: &HandleTable,
    h: nat,
    kind: Encoding,
    other: nat,
)
    requires
        h < table.issued(),
        !table.live().contains_key(h),
    ensures
        !table.live().insert(table.issued(), kind).contains_key(h),
        !table.live().remove(other).contains_key(h),
{
}

} // verus!
