use vstd::prelude::*;
use crate::builder::{PoolConfigError, ThreadPoolBuilder};

verus! {

/// Limits that a pool can be built with.
pub open spec fn valid_limits(max: nat, target: nat) -> bool {
    0 < max && target <= max
}

/// A pool's size as its bookkeeping sees it.
pub struct SizingView {
    /// The hard ceiling on running worker threads.
    pub max_workers: nat,
    /// How many workers the pool keeps standing idle.
    pub max_idle_workers: nat,
    /// Worker threads started and not yet exited, retiring ones included.
    pub live: nat,
    /// Termination tasks sent whose worker has not exited yet.
    pub retiring: nat,
}

/// What happens to a pool between two looks at its size.
pub enum PoolEvent {
    /// A task was submitted while `busy` workers were running tasks.
    Submitted(nat),
    /// A worker took a termination task and exited.
    WorkerExited,
}

impl SizingView {
    /// The limits are valid, running threads stay within the ceiling, and the
    /// retiring workers leave room for the idle target.
    pub open spec fn wf(self) -> bool {
        &&& valid_limits(self.max_workers, self.max_idle_workers)
        &&& self.live <= self.max_workers
        &&& self.retiring <= self.live
        &&& self.retiring + self.max_idle_workers <= self.max_workers
    }

    /// Workers that will stay once every termination task has been taken.
    pub open spec fn remaining(self) -> nat {
        (self.live - self.retiring) as nat
    }

    /// Remaining workers not counted as busy; a busy count above them (a
    /// stale snapshot) leaves none idle.
    pub open spec fn idle(self, busy: nat) -> nat {
        if busy <= self.remaining() {
            (self.remaining() - busy) as nat
        } else {
            0
        }
    }

    /// Workers to start: enough to bring the idle count up to the target, but
    /// never more than the ceiling leaves room for beside the running threads.
    pub open spec fn spawn(self, busy: nat) -> nat {
        if self.idle(busy) < self.max_idle_workers {
            let wanted = (self.max_idle_workers - self.idle(busy)) as nat;
            let room = (self.max_workers - self.live) as nat;
            if wanted <= room { wanted } else { room }
        } else {
            0
        }
    }

    /// Workers to retire: once more than twice the target stand idle, all idle
    /// workers above the target.
    pub open spec fn retire(self, busy: nat) -> nat {
        if self.idle(busy) > 2 * self.max_idle_workers {
            (self.idle(busy) - self.max_idle_workers) as nat
        } else {
            0
        }
    }

    /// The size once the scaling decision for `busy` has been carried out.
    pub open spec fn after_rescale(self, busy: nat) -> SizingView {
        SizingView {
            live: self.live + self.spawn(busy),
            retiring: self.retiring + self.retire(busy),
            ..self
        }
    }

    /// The size once a retiring worker has exited.
    pub open spec fn after_exit(self) -> SizingView {
        SizingView { live: (self.live - 1) as nat, retiring: (self.retiring - 1) as nat, ..self }
    }

    /// The size after one event; an exit with no worker retiring changes nothing.
    pub open spec fn after_event(self, e: PoolEvent) -> SizingView {
        match e {
            PoolEvent::Submitted(busy) => self.after_rescale(busy),
            PoolEvent::WorkerExited => if self.retiring > 0 {
                self.after_exit()
            } else {
                self
            },
        }
    }

    /// The size after each event in turn.
    pub open spec fn after_events(self, events: Seq<PoolEvent>) -> SizingView
        decreases events.len(),
    {
        if events.len() == 0 {
            self
        } else {
            self.after_event(events[0]).after_events(events.drop_first())
        }
    }
}

/// `n` retiring workers exiting, one after another.
pub open spec fn exits(n: nat) -> Seq<PoolEvent> {
    Seq::new(n, |i: int| PoolEvent::WorkerExited)
}

/// What one scaling decision asks of the pool.
#[derive(PartialEq, Eq, Structural, Clone, Copy, Debug)]
pub struct ScalingPlan {
    /// Workers to start.
    pub spawn: usize,
    /// Termination tasks to enqueue, each of which ends one worker.
    pub retire: usize,
}

/// Bookkeeping of a pool's size: its limits, the worker threads it has
/// running and how many of those have been told to exit.
pub struct PoolSizing {
    max_workers: usize,
    max_idle_workers: usize,
    live_workers: usize,
    retiring_workers: usize,
}

impl View for PoolSizing {
    type V = SizingView;

    closed spec fn view(&self) -> SizingView {
        SizingView {
            max_workers: self.max_workers as nat,
            max_idle_workers: self.max_idle_workers as nat,
            live: self.live_workers as nat,
            retiring: self.retiring_workers as nat,
        }
    }
}

impl PoolSizing {
    /// The bookkeeping of a freshly built pool, which starts its idle target
    /// of workers at once; refused when the builder's limits are invalid.
    pub fn new(builder: &ThreadPoolBuilder) -> (r: Result<Self, PoolConfigError>)
        ensures
            r is Ok <==> valid_limits(builder.spec_max_workers(), builder.spec_max_idle_workers()),
            r matches Ok(s) ==> {
                &&& s@.wf()
                &&& s@.max_workers == builder.spec_max_workers()
                &&& s@.max_idle_workers == builder.spec_max_idle_workers()
                &&& s@.live == builder.spec_max_idle_workers()
                &&& s@.retiring == 0
            },
            r == Err::<Self, PoolConfigError>(PoolConfigError::ZeroMaxWorkers)
                <==> builder.spec_max_workers() == 0,
            r == Err::<Self, PoolConfigError>(PoolConfigError::IdleExceedsMax) <==> (
            builder.spec_max_workers() > 0 && builder.spec_max_idle_workers()
                > builder.spec_max_workers()),
    {
        match builder.validate() {
            Err(e) => Err(e),
            Ok(()) => {
                let max_idle_workers: usize = builder.max_idle_workers();
                Ok(
                    PoolSizing {
                        max_workers: builder.max_workers(),
                        max_idle_workers,
                        live_workers: max_idle_workers,
                        retiring_workers: 0,
                    },
                )
            },
        }
    }

    pub fn max_workers(&self) -> (r: usize)
        ensures
            r == self@.max_workers,
    {
        self.max_workers
    }

    pub fn max_idle_workers(&self) -> (r: usize)
        ensures
            r == self@.max_idle_workers,
    {
        self.max_idle_workers
    }

    /// Worker threads started and not yet exited.
    pub fn live_workers(&self) -> (r: usize)
        ensures
            r == self@.live,
    {
        self.live_workers
    }

    /// Workers told to exit that have not exited yet.
    pub fn retiring_workers(&self) -> (r: usize)
        ensures
            r == self@.retiring,
    {
        self.retiring_workers
    }

    /// The scaling decision for a snapshot of `busy` workers.
    pub fn plan(&self, busy: usize) -> (r: ScalingPlan)
        requires
            self@.wf(),
        ensures
            r.spawn == self@.spawn(busy as nat),
            r.retire == self@.retire(busy as nat),
    {
        let remaining: usize = self.live_workers - self.retiring_workers;
        let idle: usize = if busy <= remaining {
            remaining - busy
        } else {
            0
        };
        let spawn: usize = if idle < self.max_idle_workers {
            let wanted: usize = self.max_idle_workers - idle;
            let room: usize = self.max_workers - self.live_workers;
            if wanted <= room {
                wanted
            } else {
                room
            }
        } else {
            0
        };
        let retire: usize = if idle > self.max_idle_workers && idle - self.max_idle_workers
            > self.max_idle_workers {
            idle - self.max_idle_workers
        } else {
            0
        };
        ScalingPlan { spawn, retire }
    }

    /// Makes the scaling decision for a snapshot of `busy` workers and counts
    /// the workers it starts and tells to exit.
    pub fn rescale(&mut self, busy: usize) -> (r: ScalingPlan)
        requires
            old(self)@.wf(),
        ensures
            final(self)@ == old(self)@.after_rescale(busy as nat),
            final(self)@.wf(),
            r.spawn == old(self)@.spawn(busy as nat),
            r.retire == old(self)@.retire(busy as nat),
    {
        let p = self.plan(busy);
        proof {
            lemma_rescale_keeps_wf(self@, busy as nat);
        }
        self.live_workers = self.live_workers + p.spawn;
        self.retiring_workers = self.retiring_workers + p.retire;
        p
    }

    /// Counts the exit of a worker that took a termination task.
    pub fn retired(&mut self)
        requires
            old(self)@.wf(),
            old(self)@.retiring > 0,
        ensures
            final(self)@ == old(self)@.after_exit(),
            final(self)@.wf(),
    {
        self.live_workers = self.live_workers - 1;
        self.retiring_workers = self.retiring_workers - 1;
    }
}

/// One scaling decision keeps the bookkeeping well formed; in particular the
/// running threads stay within the ceiling.
pub proof fn lemma_rescale_keeps_wf(v: SizingView, busy: nat)
    requires
        v.wf(),
    ensures
        v.after_rescale(busy).wf(),
        v.after_rescale(busy).live <= v.max_workers,
{
}

/// Whatever tasks are submitted, whatever busy counts the pool observes and
/// however retiring workers exit in between, the running threads stay within
/// the ceiling.
pub proof fn lemma_ceiling_holds_for_every_sequence(v: SizingView, events: Seq<PoolEvent>)
    requires
        v.wf(),
    ensures
        v.after_events(events).wf(),
        v.after_events(events).live <= v.max_workers,
        v.after_events(events).max_workers == v.max_workers,
    decreases events.len(),
{
    if events.len() > 0 {
        match events[0] {
            PoolEvent::Submitted(busy) => lemma_rescale_keeps_wf(v, busy),
            PoolEvent::WorkerExited => {},
        }
        lemma_ceiling_holds_for_every_sequence(v.after_event(events[0]), events.drop_first());
    }
}

/// A scaling decision never leaves fewer workers than the idle target once
/// the retiring ones are gone, nor fewer running threads.
pub proof fn lemma_never_below_target(v: SizingView, busy: nat)
    requires
        v.wf(),
    ensures
        v.max_idle_workers <= v.after_rescale(busy).remaining(),
        v.max_idle_workers <= v.after_rescale(busy).live,
{
}

/// Once every task has been released, a single scaling decision brings the
/// workers that stay to between the idle target and twice it (straight to the
/// target when they stood outside that band, unchanged inside it), and once
/// the retiring workers have exited, exactly that many threads run.
pub proof fn lemma_idle_convergence(v: SizingView)
    requires
        v.wf(),
    ensures
        v.max_idle_workers <= v.after_rescale(0).remaining() <= 2 * v.max_idle_workers,
        (v.remaining() < v.max_idle_workers || v.remaining() > 2 * v.max_idle_workers)
            ==> v.after_rescale(0).remaining() == v.max_idle_workers,
        (v.max_idle_workers <= v.remaining() <= 2 * v.max_idle_workers)
            ==> v.after_rescale(0).remaining() == v.remaining(),
        v.after_rescale(0).after_events(exits(v.after_rescale(0).retiring)).live
            == v.after_rescale(0).remaining(),
        v.after_rescale(0).after_events(exits(v.after_rescale(0).retiring)).retiring == 0,
{
    lemma_exits_drain(v.after_rescale(0));
}

/// Each retiring worker that exits takes one running thread with it.
pub proof fn lemma_exits_drain(v: SizingView)
    requires
        v.retiring <= v.live,
    ensures
        v.after_events(exits(v.retiring)).live == v.remaining(),
        v.after_events(exits(v.retiring)).retiring == 0,
    decreases v.retiring,
{
    if v.retiring > 0 {
        let w = v.after_exit();
        assert(exits(v.retiring).drop_first() =~= exits(w.retiring));
        lemma_exits_drain(w);
    } else {
        assert(exits(0) =~= Seq::<PoolEvent>::empty());
    }
}

} // verus!
