use netkit::fork::{classify_fork, classify_waitpid, ChildGovernor, ForkOutcome, WaitOutcome};
use netkit::pool::{cpu_count_fallback, cpu_count_from_mask, default_pool_size, popcount_u64, WorkerPoolModel};

#[test]
fn test_pool_runs_every_job_once_in_order() {
    let mut pool = WorkerPoolModel::new();
    pool.execute(1);
    pool.execute(2);
    pool.execute(3);
    // The second job panics; the worker catches it and the later job still
    // runs.
    pool.run_next(false);
    pool.run_next(true);
    pool.close();
    pool.drain();
    assert_eq!(pool.completed, vec![1, 2, 3]);
    assert!(pool.pending.is_empty());
}

#[test]
fn test_pool_drop_without_jobs() {
    let mut pool = WorkerPoolModel::new();
    pool.close();
    pool.drain();
    assert!(pool.completed.is_empty());
}

#[test]
fn test_child_governor_bound() {
    let mut g = ChildGovernor::new(2);
    assert_eq!(g.live_count(), 0);
    assert!(g.has_slot());
    g.note_fork();
    assert!(g.has_slot());
    g.note_fork();
    assert_eq!(g.live_count(), 2);
    assert!(!g.has_slot()); // at the bound, the parent must reap first
    g.note_exit();
    assert!(g.has_slot());
    assert_eq!(g.live_count(), 1);
}

#[test]
fn test_classify_fork() {
    assert_eq!(classify_fork(0), ForkOutcome::InChild);
    assert_eq!(classify_fork(4242), ForkOutcome::Forked(4242));
    assert_eq!(classify_fork(-1), ForkOutcome::Failed);
}

#[test]
fn test_classify_waitpid() {
    assert_eq!(classify_waitpid(0), WaitOutcome::NoneReady);
    assert_eq!(classify_waitpid(-1), WaitOutcome::Failed);
    assert_eq!(classify_waitpid(4242), WaitOutcome::Reaped(4242));
}

#[test]
fn test_popcount() {
    assert_eq!(popcount_u64(0), 0);
    assert_eq!(popcount_u64(1), 1);
    assert_eq!(popcount_u64(0b1011), 3);
    assert_eq!(popcount_u64(u64::MAX), 64);
}

#[test]
fn test_cpu_count_from_mask() {
    assert_eq!(cpu_count_from_mask(&vec![0b1111, 0, 1]), 5);
    assert_eq!(cpu_count_from_mask(&Vec::new()), 0);
}

#[test]
fn test_cpu_count_fallback_clamps_to_one() {
    assert_eq!(cpu_count_fallback(8), 8);
    assert_eq!(cpu_count_fallback(1), 1);
    assert_eq!(cpu_count_fallback(0), 1);
    assert_eq!(cpu_count_fallback(-1), 1);
}

#[test]
fn test_default_pool_size_prefers_affinity() {
    assert_eq!(default_pool_size(Some(3), 8), 3);
    assert_eq!(default_pool_size(None, 8), 8);
    assert_eq!(default_pool_size(None, -1), 1);
}
