//! The worker pool's bookkeeping: how its default size is derived from the
//! CPUs the process may run on, and the queue discipline that guarantees
//! every submitted job runs exactly once.
//!
//! The pool's threads live outside the crate; they are driven by these
//! functions and by `WorkerPoolModel`, which pins down what the queue does.

use vstd::prelude::*;

verus! {

/// How many of the low `n` bits of `w` are set.
pub open spec fn spec_count_bits(w: u64, n: int) -> int
    decreases n,
{
    if n <= 0 {
        0
    } else {
        spec_count_bits(w, n - 1) + (if (w >> ((n - 1) as u64)) & 1 == 1 {
            1int
        } else {
            0int
        })
    }
}

/// Counts the set bits of one affinity-mask word.
pub fn popcount_u64(w: u64) -> (r: usize)
    ensures
        r == spec_count_bits(w, 64),
        r <= 64,
{
    let mut c: usize = 0;
    let mut i: u64 = 0;
    while i < 64
        invariant
            i <= 64,
            c == spec_count_bits(w, i as int),
            c <= i,
        decreases 64 - i,
    {
        if (w >> i) & 1 == 1 {
            c = c + 1;
        }
        i = i + 1;
    }
    c
}

/// How many CPUs a mask of `n` words allows.
pub open spec fn spec_mask_count(ws: Seq<u64>, n: int) -> int
    decreases n,
{
    if n <= 0 {
        0
    } else {
        spec_mask_count(ws, n - 1) + spec_count_bits(ws[n - 1], 64)
    }
}

/// Counts the CPUs a process's affinity mask allows, given the mask as
/// words of 64 bits each.
pub fn cpu_count_from_mask(words: &Vec<u64>) -> (r: usize)
    requires
        words@.len() <= 0x100000,
    ensures
        r == spec_mask_count(words@, words@.len() as int),
{
    let mut total: usize = 0;
    let mut i: usize = 0;
    while i < words.len()
        invariant
            i <= words@.len(),
            words@.len() <= 0x100000,
            total == spec_mask_count(words@, i as int),
            total <= 64 * i,
        decreases words@.len() - i,
    {
        total = total + popcount_u64(words[i]);
        i = i + 1;
    }
    total
}

/// The pool size when the affinity mask cannot be read: the number of online
/// processors the system reports, and at least one whatever it says.
pub fn cpu_count_fallback(nprocs: i64) -> (r: usize)
    requires
        nprocs <= 0xffff_ffff,
    ensures
        r >= 1,
        nprocs >= 1 ==> r == nprocs,
        nprocs < 1 ==> r == 1,
{
    if nprocs < 1 {
        1
    } else {
        nprocs as usize
    }
}

/// The default pool size: the affinity-mask CPU count when it could be read,
/// otherwise the online-processor fallback.
pub fn default_pool_size(affinity_count: Option<usize>, nprocs: i64) -> (r: usize)
    requires
        nprocs <= 0xffff_ffff,
    ensures
        match affinity_count {
            Some(c) => r == c,
            None => r >= 1 && (nprocs >= 1 ==> r == nprocs) && (nprocs < 1 ==> r == 1),
        },
{
    match affinity_count {
        Some(c) => c,
        None => cpu_count_fallback(nprocs),
    }
}

/// What the queue of a worker pool does, job ids standing for jobs.
///
/// Jobs enter at the back while the sender lives; workers take them from the
/// front, and a taken job counts as run whether or not it panicked. Closing
/// the queue is what the pool's shutdown does before joining its workers.
pub struct WorkerPoolModel {
    /// Submitted jobs not yet taken, front first.
    pub pending: Vec<u64>,
    /// Jobs that have run, in the order they ran.
    pub completed: Vec<u64>,
    /// Whether the sender was dropped; nothing can be submitted after.
    pub closed: bool,
}

impl WorkerPoolModel {
    /// A fresh pool: nothing submitted, nothing run, open for jobs.
    pub fn new() -> (r: WorkerPoolModel)
        ensures
            r.pending@ == Seq::<u64>::empty(),
            r.completed@ == Seq::<u64>::empty(),
            !r.closed,
    {
        WorkerPoolModel { pending: Vec::new(), completed: Vec::new(), closed: false }
    }

    /// Submits a job. Submitting to a closed queue is a programming error,
    /// so a closed pool admits no call.
    pub fn execute(&mut self, job: u64)
        requires
            !old(self).closed,
        ensures
            final(self).pending@ == old(self).pending@ + seq![job],
            final(self).completed@ == old(self).completed@,
            !final(self).closed,
    {
        self.pending.push(job);
    }

    /// Closes the queue: the first thing the pool's shutdown does.
    pub fn close(&mut self)
        ensures
            final(self).pending@ == old(self).pending@,
            final(self).completed@ == old(self).completed@,
            final(self).closed,
    {
        self.closed = true;
    }

    /// One worker takes the front job and runs it. The job counts as run
    /// even when it panicked: a panic is caught and logged, and neither the
    /// worker nor any later job is lost to it.
    pub fn run_next(&mut self, panicked: bool)
        requires
            old(self).pending@.len() > 0,
        ensures
            final(self).pending@ == old(self).pending@.drop_first(),
            final(self).completed@ == old(self).completed@ + seq![old(self).pending@[0]],
            final(self).closed == old(self).closed,
    {
        let job = self.pending.remove(0);
        self.completed.push(job);
        assert(self.pending@ =~= old(self).pending@.drop_first());
    }

    /// Shutdown after the close: workers drain the queue and only then stop.
    /// Every job that was ever submitted and not yet run now runs, exactly
    /// once each, in submission order — panicking jobs included.
    pub fn drain(&mut self)
        requires
            old(self).closed,
        ensures
            final(self).pending@ == Seq::<u64>::empty(),
            final(self).completed@ == old(self).completed@ + old(self).pending@,
            final(self).closed,
    {
        while self.pending.len() > 0
            invariant
                self.closed,
                self.completed@ + self.pending@ == old(self).completed@ + old(self).pending@,
            decreases self.pending@.len(),
        {
            let ghost before_completed = self.completed@;
            let ghost before_pending = self.pending@;
            self.run_next(false);
            assert(self.completed@ + self.pending@ =~= before_completed + before_pending);
        }
        assert(self.completed@ =~= old(self).completed@ + old(self).pending@);
    }
}

} // verus!
