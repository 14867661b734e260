use vstd::prelude::*;

verus! {

/// Maximum number of live workers a default builder allows.
pub const DEFAULT_MAX_WORKERS: usize = 8;

/// Number of standing idle workers a default builder asks for.
pub const DEFAULT_IDLE_WORKERS: usize = 1;

/// Sizing limits of a worker pool, gathered before the pool is built.
pub struct ThreadPoolBuilder {
    max_workers: usize,
    max_idle_workers: usize,
}

/// Why a set of pool limits cannot be used.
#[derive(PartialEq, Eq, Structural, Clone, Copy, Debug)]
pub enum PoolConfigError {
    /// A pool must be allowed at least one worker.
    ZeroMaxWorkers,
    /// The idle target exceeds the hard ceiling.
    IdleExceedsMax,
}

impl ThreadPoolBuilder {
    /// The ceiling this builder holds.
    pub closed spec fn spec_max_workers(&self) -> nat {
        self.max_workers as nat
    }

    /// The idle target this builder holds.
    pub closed spec fn spec_max_idle_workers(&self) -> nat {
        self.max_idle_workers as nat
    }

    /// A builder with the default limits.
    pub fn new() -> (r: Self)
        ensures
            r.spec_max_workers() == DEFAULT_MAX_WORKERS,
            r.spec_max_idle_workers() == DEFAULT_IDLE_WORKERS,
    {
        ThreadPoolBuilder { max_workers: DEFAULT_MAX_WORKERS, max_idle_workers: DEFAULT_IDLE_WORKERS }
    }

    /// Sets the hard ceiling on live workers. A zero ceiling is refused when
    /// the limits are validated.
    pub fn max_threads(self, val: usize) -> (r: Self)
        ensures
            r.spec_max_workers() == val,
            r.spec_max_idle_workers() == self.spec_max_idle_workers(),
    {
        let mut b = self;
        b.max_workers = val;
        b
    }

    /// Sets how many workers the pool keeps standing idle.
    pub fn idle_threads(self, val: usize) -> (r: Self)
        ensures
            r.spec_max_idle_workers() == val,
            r.spec_max_workers() == self.spec_max_workers(),
    {
        let mut b = self;
        b.max_idle_workers = val;
        b
    }

    pub fn max_workers(&self) -> (r: usize)
        ensures
            r == self.spec_max_workers(),
    {
        self.max_workers
    }

    pub fn max_idle_workers(&self) -> (r: usize)
        ensures
            r == self.spec_max_idle_workers(),
    {
        self.max_idle_workers
    }

    /// Checks the limits: a zero ceiling is refused first, then an idle
    /// target above the ceiling.
    pub fn validate(&self) -> (r: Result<(), PoolConfigError>)
        ensures
            r == Err::<(), PoolConfigError>(PoolConfigError::ZeroMaxWorkers)
                <==> self.spec_max_workers() == 0,
            r == Err::<(), PoolConfigError>(PoolConfigError::IdleExceedsMax) <==> (
            self.spec_max_workers() > 0 && self.spec_max_idle_workers() > self.spec_max_workers()),
            r is Ok <==> (0 < self.spec_max_workers() && self.spec_max_idle_workers()
                <= self.spec_max_workers()),
    {
        if self.max_workers == 0 {
            Err(PoolConfigError::ZeroMaxWorkers)
        } else if self.max_idle_workers > self.max_workers {
            Err(PoolConfigError::IdleExceedsMax)
        } else {
            Ok(())
        }
    }
}

} // verus!
