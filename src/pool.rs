//! A fixed-size table of slots for deferred handlers: a request claims a free
//! slot for as long as its handler runs, and is refused when none is free.

use vstd::prelude::*;

verus! {

/// No slot of the pool is free.
#[derive(Debug, Clone, Copy, PartialEq, Eq)]
pub struct ResourceExhausted;

/// A pool of slots, each free or busy.
#[derive(Debug)]
pub struct TaskPool {
    busy: Vec<bool>,
}

impl TaskPool {
    /// Which slots are busy, by index.
    pub closed spec fn slots(self) -> Seq<bool> {
        self.busy@
    }

    /// Whether some slot is free.
    pub open spec fn has_free(self) -> bool {
        exists|i: int| 0 <= i < self.slots().len() && !self.slots()[i]
    }

    /// A pool of `size` free slots.
    pub fn new(size: usize) -> (r: TaskPool)
        ensures
            r.slots() == Seq::new(size as nat, |i: int| false),
    {
        let mut busy: Vec<bool> = Vec::new();
        let mut i: usize = 0;
        while i < size
            invariant
                i <= size,
                busy@ == Seq::new(i as nat, |j: int| false),
            decreases size - i,
        {
            busy.push(false);
            i = i + 1;
            assert(busy@ =~= Seq::new(i as nat, |j: int| false));
        }
        TaskPool { busy }
    }

    /// The number of slots.
    pub fn size(&self) -> (r: usize)
        ensures
            r == self.slots().len(),
    {
        self.busy.len()
    }

    /// Whether slot `i` is busy.
    pub fn is_busy(&self, i: usize) -> (r: bool)
        requires
            i < self.slots().len(),
        ensures
            r == self.slots()[i as int],
    {
        self.busy[i]
    }

    /// Claims a free slot, the lowest one; fails with `ResourceExhausted`
    /// when every slot is busy, leaving the pool as it was.
    pub fn claim(&mut self) -> (r: Result<usize, ResourceExhausted>)
        ensures
            old(self).has_free() <==> r is Ok,
            match r {
                Ok(i) => {
                    &&& i < old(self).slots().len()
                    &&& !old(self).slots()[i as int]
                    &&& forall|j: int| 0 <= j < i ==> old(self).slots()[j]
                    &&& final(self).slots() == old(self).slots().update(i as int, true)
                },
                Err(_) => final(self).slots() == old(self).slots(),
            },
    {
        let mut i: usize = 0;
        while i < self.busy.len()
            invariant
                i <= self.busy@.len(),
                self.busy@ == old(self).busy@,
                forall|j: int| 0 <= j < i ==> self.busy@[j],
            decreases self.busy@.len() - i,
        {
            if !self.busy[i] {
                self.busy.set(i, true);
                return Ok(i);
            }
            i = i + 1;
        }
        Err(ResourceExhausted)
    }

    /// Frees slot `i` once its handler has finished.
    pub fn release(&mut self, i: usize)
        requires
            i < old(self).slots().len(),
        ensures
            final(self).slots() == old(self).slots().update(i as int, false),
    {
        self.busy.set(i, false);
    }
}

} // verus!
