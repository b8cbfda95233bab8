//! The bookkeeping of the fork-per-connection strategy: the bound on live
//! children, and the reading of `fork` and `waitpid` returns.
//!
//! The processes themselves are made and reaped outside the crate; the
//! governor here is what keeps the child count within its bound.

use vstd::prelude::*;

verus! {

/// What a `fork` return means.
#[derive(Clone, Copy, Debug, PartialEq, Eq, Structural)]
pub enum ForkOutcome {
    /// This is the child process.
    InChild,
    /// This is the parent; the child has this process id.
    Forked(i32),
    /// No child was made; the connection is dropped.
    Failed,
}

/// Reads a `fork` return: zero in the child, the child's pid in the parent,
/// negative on failure.
pub fn classify_fork(ret: i32) -> (r: ForkOutcome)
    ensures
        ret == 0 ==> r == ForkOutcome::InChild,
        ret > 0 ==> r == ForkOutcome::Forked(ret),
        ret < 0 ==> r == ForkOutcome::Failed,
{
    if ret == 0 {
        ForkOutcome::InChild
    } else if ret > 0 {
        ForkOutcome::Forked(ret)
    } else {
        ForkOutcome::Failed
    }
}

/// What a `waitpid` return means.
#[derive(Clone, Copy, Debug, PartialEq, Eq, Structural)]
pub enum WaitOutcome {
    /// No child has exited yet (non-blocking poll only).
    NoneReady,
    /// The call failed; errno explains it.
    Failed,
    /// A child with this pid was reaped.
    Reaped(i32),
}

/// Reads a `waitpid` return: zero when nothing is ready, minus one on
/// failure, otherwise the reaped child's pid.
pub fn classify_waitpid(ret: i32) -> (r: WaitOutcome)
    ensures
        ret == 0 ==> r == WaitOutcome::NoneReady,
        ret == -1 ==> r == WaitOutcome::Failed,
        ret != 0 && ret != -1 ==> r == WaitOutcome::Reaped(ret),
{
    if ret == 0 {
        WaitOutcome::NoneReady
    } else if ret == -1 {
        WaitOutcome::Failed
    } else {
        WaitOutcome::Reaped(ret)
    }
}

/// The bound on live children of a fork-per-connection server.
///
/// `live` never exceeds `max_children`: a fork is only recorded after
/// `has_slot` said there is room, and reaping is recorded as children exit.
pub struct ChildGovernor {
    live: usize,
    max_children: usize,
}

impl ChildGovernor {
    /// The bound is respected.
    pub closed spec fn bounded(&self) -> bool {
        self.live() <= self.max()
    }

    /// How many children are live.
    pub closed spec fn live(&self) -> nat {
        self.live as nat
    }

    /// The configured bound.
    pub closed spec fn max(&self) -> nat {
        self.max_children as nat
    }

    /// A governor for at most `max_children` live children.
    pub fn new(max_children: usize) -> (r: ChildGovernor)
        ensures
            r.live() == 0,
            r.max() == max_children,
            r.bounded(),
    {
        ChildGovernor { live: 0, max_children }
    }

    /// Whether another child may be forked now.
    pub fn has_slot(&self) -> (r: bool)
        ensures
            r <==> self.live() < self.max(),
    {
        self.live < self.max_children
    }

    /// Records a successful fork. Only a governor with a free slot admits
    /// one, and the bound still holds after.
    pub fn note_fork(&mut self)
        requires
            old(self).bounded(),
            old(self).live() < old(self).max(),
        ensures
            final(self).live() == old(self).live() + 1,
            final(self).max() == old(self).max(),
            final(self).bounded(),
    {
        self.live = self.live + 1;
    }

    /// Records a reaped child.
    pub fn note_exit(&mut self)
        requires
            old(self).bounded(),
            old(self).live() > 0,
        ensures
            final(self).live() == old(self).live() - 1,
            final(self).max() == old(self).max(),
            final(self).bounded(),
    {
        self.live = self.live - 1;
    }

    /// How many children are live, for logging.
    pub fn live_count(&self) -> (r: usize)
        ensures
            r == self.live(),
    {
        self.live
    }
}

} // verus!
