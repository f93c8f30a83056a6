//! Reference counting for a process-wide OS subsystem (a COM apartment, a
//! media-foundation runtime): the first acquisition initializes, later ones
//! only count, and teardown happens exactly on the last release. The caller
//! performs the actual initialization and teardown; this type decides when.

use vstd::prelude::*;

verus! {

/// The counter state of one process-wide subsystem.
pub struct SubsystemRefCount {
    initialized: bool,
    count: u64,
}

impl SubsystemRefCount {
    /// The counter invariant: the subsystem is initialized exactly while
    /// someone holds it.
    pub closed spec fn wf(&self) -> bool {
        self.initialized <==> self.count > 0
    }

    /// How many holders there are.
    pub closed spec fn spec_count(&self) -> u64 {
        self.count
    }

    /// Whether the subsystem is currently initialized.
    pub closed spec fn spec_initialized(&self) -> bool {
        self.initialized
    }

    /// An untouched subsystem: no holders, not initialized.
    pub fn new() -> (r: Self)
        ensures
            r.wf(),
            r.spec_count() == 0,
            !r.spec_initialized(),
    {
        SubsystemRefCount { initialized: false, count: 0 }
    }

    /// Registers one holder. Returns whether the caller must initialize the
    /// subsystem now — true exactly for the first holder.
    pub fn acquire(&mut self) -> (needs_init: bool)
        requires
            old(self).wf(),
            old(self).spec_count() < u64::MAX,
        ensures
            final(self).wf(),
            final(self).spec_count() == old(self).spec_count() + 1,
            final(self).spec_initialized(),
            needs_init <==> old(self).spec_count() == 0,
    {
        let needs_init = !self.initialized;
        self.initialized = true;
        self.count = self.count + 1;
        needs_init
    }

    /// Releases one holder. Returns whether the caller must tear the
    /// subsystem down now — true exactly for the last holder.
    pub fn release(&mut self) -> (needs_teardown: bool)
        requires
            old(self).wf(),
            old(self).spec_count() > 0,
        ensures
            final(self).wf(),
            final(self).spec_count() == old(self).spec_count() - 1,
            final(self).spec_initialized() <==> old(self).spec_count() > 1,
            needs_teardown <==> old(self).spec_count() == 1,
    {
        self.count = self.count - 1;
        if self.count == 0 {
            self.initialized = false;
            true
        } else {
            false
        }
    }

    /// How many holders there are, for callers.
    pub fn holders(&self) -> (r: u64)
        ensures
            r == self.spec_count(),
    {
        self.count
    }
}

} // verus!
