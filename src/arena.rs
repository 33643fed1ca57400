use vstd::prelude::*;

verus! {

/// A region of the arena: `len` slots from `start`, issued in generation
/// `generation`.
#[derive(Clone, Copy, Debug, PartialEq, Eq, Structural)]
pub struct ArenaHandle {
    start: usize,
    len: usize,
    generation: u64,
}

impl ArenaHandle {
    pub closed spec fn first(&self) -> nat {
        self.start as nat
    }

    pub closed spec fn size(&self) -> nat {
        self.len as nat
    }

    pub closed spec fn issued_in(&self) -> u64 {
        self.generation
    }

    /// The number of indices the region holds.
    pub fn len(&self) -> (r: usize)
        ensures
            r == self.size(),
    {
        self.len
    }
}

/// The generation that follows `g`.
pub open spec fn next_generation(g: u64) -> u64 {
    if g == u64::MAX {
        0
    } else {
        (g + 1) as u64
    }
}

/// Scratch storage for the short operand-index lists built during one
/// compilation. Regions stay valid until the next `reset`; a handle is
/// tagged with the generation it was issued in, so that a stale handle is
/// refused rather than read.
#[derive(Debug)]
pub struct IndexArena {
    slots: Vec<usize>,
    generation: u64,
}

impl IndexArena {
    /// The slots of all regions issued since the last reset, in order.
    pub closed spec fn contents(&self) -> Seq<usize> {
        self.slots@
    }

    /// The current generation.
    pub closed spec fn current_generation(&self) -> u64 {
        self.generation
    }

    /// `h` was issued since the last reset.
    pub open spec fn is_live(&self, h: ArenaHandle) -> bool {
        &&& h.issued_in() == self.current_generation()
        &&& h.first() + h.size() <= self.contents().len()
    }

    /// Creates an empty arena.
    pub fn new() -> (r: Self)
        ensures
            r.contents() == Seq::<usize>::empty(),
            r.current_generation() == 0,
    {
        IndexArena { slots: Vec::new(), generation: 0 }
    }

    /// Issues a fresh region of `n` indices, each set to 0.
    pub fn allocate(&mut self, n: usize) -> (r: ArenaHandle)
        requires
            old(self).contents().len() + n <= usize::MAX,
        ensures
            final(self).is_live(r),
            r.first() == old(self).contents().len(),
            r.size() == n,
            final(self).contents() == old(self).contents() + Seq::new(n as nat, |i: int| 0usize),
            final(self).current_generation() == old(self).current_generation(),
    {
        let start = self.slots.len();
        let mut k: usize = 0;
        while k < n
            invariant
                start == old(self).slots@.len(),
                k <= n,
                start + n <= usize::MAX,
                self.generation == old(self).generation,
                self.slots@ == old(self).slots@ + Seq::new(k as nat, |i: int| 0usize),
            decreases n - k,
        {
            self.slots.push(0);
            k += 1;
            assert(self.slots@ =~= old(self).slots@ + Seq::new(k as nat, |i: int| 0usize));
        }
        ArenaHandle { start, len: n, generation: self.generation }
    }

    /// Index `i` of region `h`; `None` when `h` is stale or `i` is outside it.
    pub fn get(&self, h: ArenaHandle, i: usize) -> (r: Option<usize>)
        ensures
            r == if self.is_live(h) && i < h.size() {
                Some(self.contents()[h.first() + i])
            } else {
                None::<usize>
            },
    {
        if h.generation == self.generation && h.start <= self.slots.len() && h.len
            <= self.slots.len() - h.start && i < h.len {
            Some(self.slots[h.start + i])
        } else {
            None
        }
    }

    /// Sets index `i` of region `h` to `value` and says whether it did; a
    /// stale handle or an index outside the region changes nothing.
    pub fn set(&mut self, h: ArenaHandle, i: usize, value: usize) -> (r: bool)
        ensures
            r == (old(self).is_live(h) && i < h.size()),
            final(self).contents() == if r {
                old(self).contents().update(h.first() + i, value)
            } else {
                old(self).contents()
            },
            final(self).current_generation() == old(self).current_generation(),
    {
        if h.generation == self.generation && h.start <= self.slots.len() && h.len
            <= self.slots.len() - h.start && i < h.len {
            self.slots.set(h.start + i, value);
            true
        } else {
            false
        }
    }

    /// Invalidates every region issued so far and empties the arena.
    pub fn reset(&mut self)
        ensures
            final(self).contents() == Seq::<usize>::empty(),
            final(self).current_generation() == next_generation(old(self).current_generation()),
            forall|h: ArenaHandle|
                h.issued_in() == old(self).current_generation() ==> !final(self).is_live(h),
    {
        self.slots.clear();
        self.generation = self.generation.wrapping_add(1);
    }
}

} // verus!
