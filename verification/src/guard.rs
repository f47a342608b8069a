//! The reentrancy guard for a handle's mutable state.
//!
//! The host runtime is single-threaded per call sequence, but a callback run
//! from inside one operation may reenter the same handle. The guard is the
//! decision rule of a runtime-checked single-writer/multi-reader cell: any
//! number of read-only borrows may coexist, a mutating borrow only alone, and
//! a conflicting request is rejected with a distinct error rather than
//! corrupting state. The host-facing layer takes and releases the guard
//! around each operation on a handle.

use vstd::prelude::*;

verus! {

/// Rejected borrow: the handle is already in use in a conflicting way.
#[derive(Clone, Copy, Debug, PartialEq, Eq)]
pub struct BorrowError;

impl BorrowError {
    /// The message the host reports for a rejected borrow.
    pub fn message(&self) -> (r: String)
        ensures
            r@ == "already borrowed"@,
    {
        String::from_str("already borrowed")
    }
}

/// Borrow bookkeeping for one handle: how many read-only borrows are
/// outstanding, and whether a mutating borrow is. The state is a plain copyable
/// value, so a host layer can keep it in a cell beside the guarded state.
#[derive(Clone, Copy)]
pub struct ReentryGuard {
    pub readers: u64,
    pub writing: bool,
}

impl ReentryGuard {
    /// A mutating borrow never coexists with a read-only one.
    pub open spec fn wf(&self) -> bool {
        self.writing ==> self.readers == 0
    }

    /// A fresh guard: no borrow outstanding.
    pub fn new() -> (g: ReentryGuard)
        ensures
            g.wf(),
            g.readers == 0,
            !g.writing,
    {
        ReentryGuard { readers: 0, writing: false }
    }

    /// Requests a read-only borrow: granted exactly when no mutating borrow
    /// is outstanding (and the count has room); rejected requests change
    /// nothing.
    pub fn try_begin_read(&mut self) -> (r: Result<(), BorrowError>)
        requires
            old(self).wf(),
        ensures
            final(self).wf(),
            r is Ok <==> !old(self).writing && old(self).readers < u64::MAX,
            r is Ok ==> final(self).readers == old(self).readers + 1 && !final(self).writing,
            r is Err ==> *final(self) == *old(self),
    {
        if self.writing || self.readers == u64::MAX {
            Err(BorrowError)
        } else {
            self.readers = self.readers + 1;
            Ok(())
        }
    }

    /// Releases one read-only borrow.
    pub fn end_read(&mut self)
        requires
            old(self).wf(),
            old(self).readers > 0,
        ensures
            final(self).wf(),
            final(self).readers == old(self).readers - 1,
            final(self).writing == old(self).writing,
    {
        self.readers = self.readers - 1;
    }

    /// Requests a mutating borrow: granted exactly when no borrow of either
    /// kind is outstanding; rejected requests change nothing.
    pub fn try_begin_write(&mut self) -> (r: Result<(), BorrowError>)
        requires
            old(self).wf(),
        ensures
            final(self).wf(),
            r is Ok <==> !old(self).writing && old(self).readers == 0,
            r is Ok ==> final(self).writing && final(self).readers == 0,
            r is Err ==> *final(self) == *old(self),
    {
        if self.writing || self.readers > 0 {
            Err(BorrowError)
        } else {
            self.writing = true;
            Ok(())
        }
    }

    /// Releases the mutating borrow.
    pub fn end_write(&mut self)
        requires
            old(self).wf(),
            old(self).writing,
        ensures
            final(self).wf(),
            !final(self).writing,
            final(self).readers == 0,
    {
        self.writing = false;
    }
}

} // verus!
