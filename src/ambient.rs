use vstd::prelude::*;

use crate::arena::{next_generation, ArenaHandle, IndexArena};
use crate::context::Context;

verus! {

/// The state that one thread keeps for compilation: the slot that holds the
/// context of the compilation in progress, if any, and the scratch arena.
/// The front-end keeps one per thread and reaches it from any depth of the
/// user's program body; the context is moved in when a compilation starts
/// and moved out again when it ends, however it ends.
#[derive(Debug)]
pub struct Ambient<O, D> {
    current: Option<Context<O, D>>,
    arena: IndexArena,
}

impl<O, D> Ambient<O, D> {
    /// The context of the compilation in progress, if any.
    pub closed spec fn installed(&self) -> Option<Context<O, D>> {
        self.current
    }

    /// The scratch arena.
    pub closed spec fn scratch(&self) -> IndexArena {
        self.arena
    }

    /// The context of the compilation in progress, if any, is well formed.
    pub open spec fn well_formed(&self) -> bool {
        match self.installed() {
            Some(c) => c.well_formed(),
            None => true,
        }
    }

    /// No compilation is in progress and the arena holds no region.
    pub open spec fn is_clean(&self) -> bool {
        &&& self.installed() is None
        &&& self.scratch().contents().len() == 0
    }

    /// Creates the state of a thread that has not compiled anything.
    pub fn new() -> (r: Self)
        ensures
            r.is_clean(),
            r.well_formed(),
            r.scratch().current_generation() == 0,
    {
        Ambient { current: None, arena: IndexArena::new() }
    }

    /// Whether a compilation is in progress.
    pub fn is_active(&self) -> (r: bool)
        ensures
            r == self.installed() is Some,
    {
        self.current.is_some()
    }

    /// Starts a compilation with `context`. Compilations never nest: no other
    /// may be in progress.
    pub fn install(&mut self, context: Context<O, D>)
        requires
            old(self).installed() is None,
            context.well_formed(),
        ensures
            final(self).well_formed(),
            final(self).installed() == Some(context),
            final(self).scratch() == old(self).scratch(),
    {
        self.current = Some(context);
    }

    /// The context of the compilation in progress.
    pub fn current(&self) -> (r: &Context<O, D>)
        requires
            self.installed() is Some,
        ensures
            *r == self.installed()->0,
            self.well_formed() ==> r.well_formed(),
    {
        self.current.as_ref().unwrap()
    }

    /// Mutable access to the context of the compilation in progress, for the
    /// node-builder calls of the program body.
    pub fn current_mut(&mut self) -> (r: &mut Context<O, D>)
        requires
            old(self).installed() is Some,
        ensures
            *r == old(self).installed()->0,
            old(self).well_formed() ==> r.well_formed(),
            final(self).installed() == Some(*final(r)),
            final(self).scratch() == old(self).scratch(),
    {
        self.current.as_mut().unwrap()
    }

    /// Issues a region of `n` scratch indices for the compilation in
    /// progress.
    pub fn allocate_indices(&mut self, n: usize) -> (r: ArenaHandle)
        requires
            old(self).scratch().contents().len() + n <= usize::MAX,
        ensures
            final(self).scratch().is_live(r),
            r.first() == old(self).scratch().contents().len(),
            r.size() == n,
            final(self).scratch().contents() == old(self).scratch().contents() + Seq::new(
                n as nat,
                |i: int| 0usize,
            ),
            final(self).scratch().current_generation()
                == old(self).scratch().current_generation(),
            final(self).installed() == old(self).installed(),
    {
        self.arena.allocate(n)
    }

    /// The scratch arena.
    pub fn arena(&self) -> (r: &IndexArena)
        ensures
            *r == self.scratch(),
    {
        &self.arena
    }

    /// Mutable access to the scratch arena.
    pub fn arena_mut(&mut self) -> (r: &mut IndexArena)
        ensures
            *r == old(self).scratch(),
            final(self).scratch() == *final(r),
            final(self).installed() == old(self).installed(),
    {
        &mut self.arena
    }

    /// Clears the slot and hands back what it held; the arena is left as
    /// it is.
    pub fn uninstall(&mut self) -> (r: Option<Context<O, D>>)
        ensures
            r == old(self).installed(),
            final(self).well_formed(),
            final(self).installed() is None,
            final(self).scratch() == old(self).scratch(),
    {
        self.current.take()
    }

    /// Ends the compilation in progress, whether its body returned or failed:
    /// resets the arena, then clears the slot, and hands back the context the
    /// slot held. Afterwards no region issued before is live, and the next
    /// compilation on this thread starts from a clean state.
    pub fn teardown(&mut self) -> (r: Option<Context<O, D>>)
        ensures
            r == old(self).installed(),
            final(self).well_formed(),
            final(self).is_clean(),
            final(self).scratch().current_generation() == next_generation(
                old(self).scratch().current_generation(),
            ),
            forall|h: ArenaHandle|
                h.issued_in() == old(self).scratch().current_generation()
                    ==> !final(self).scratch().is_live(h),
    {
        self.arena.reset();
        self.current.take()
    }
}

} // verus!
