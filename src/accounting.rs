use vstd::prelude::*;
use std::sync::Arc;
use std::sync::atomic::{AtomicUsize, Ordering};

verus! {

/// One unit of busy time on a pool's busy counter. The count goes up when the
/// guard is acquired and down when it is dropped, on every way out of the
/// task it runs, unwinding included.
pub struct BusyGuard {
    busy_counter: Arc<AtomicUsize>,
}

impl Drop for BusyGuard {
    fn drop(&mut self)
        opens_invariants none
        no_unwind
    {
        release(&self.busy_counter);
    }
}

/// Relies on `AtomicUsize::fetch_sub`, which wraps on overflow and so never
/// panics: a destructor may call it.
#[verifier::external_body]
fn release(counter: &AtomicUsize)
    opens_invariants none
    no_unwind
{
    counter.fetch_sub(1, Ordering::Relaxed);
}

impl BusyGuard {
    /// Runs `task` while the guard is held, then releases it.
    pub fn execute<F: FnOnce()>(self, task: F)
        requires
            task.requires(()),
        ensures
            task.ensures((), ()),
    {
        task();
    }
}

/// The counters a pool shares with its workers: a source of worker ids and
/// the number of workers running a task.
pub struct WorkerCounter {
    id_counter: AtomicUsize,
    busy_counter: Arc<AtomicUsize>,
}

impl WorkerCounter {
    pub fn new() -> Self {
        WorkerCounter { id_counter: AtomicUsize::new(0), busy_counter: Arc::new(AtomicUsize::new(0)) }
    }

    /// A fresh worker id.
    pub fn next_id(&self) -> usize {
        self.id_counter.fetch_add(1, Ordering::Relaxed)
    }

    /// Counts one more busy worker until the returned guard is dropped.
    pub fn busy(&self) -> BusyGuard {
        self.busy_counter.fetch_add(1, Ordering::Relaxed);
        BusyGuard { busy_counter: Arc::clone(&self.busy_counter) }
    }

    /// A snapshot of the number of busy workers.
    pub fn busy_workers(&self) -> usize {
        self.busy_counter.load(Ordering::Relaxed)
    }
}

} // verus!
