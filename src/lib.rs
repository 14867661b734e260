//! A TCP relay built around an elastic worker pool.
//!
//! The verified part of the crate holds the pool's sizing policy, its busy
//! accounting, the byte bookkeeping of one forwarding direction and the
//! coordinated teardown of a proxied connection.
mod accounting;
mod builder;
mod connection;
mod forward;
mod poison;
mod relay;
mod sizing;

pub use accounting::{BusyGuard, WorkerCounter};
pub use builder::{PoolConfigError, ThreadPoolBuilder, DEFAULT_IDLE_WORKERS, DEFAULT_MAX_WORKERS};
pub use connection::{
    finished, lemma_teardown_reaches_reverse, Connection, ConnectionView, Direction, Endpoint,
};
pub use forward::{
    action_for, lemma_delivered_in_order, CloseReason, ForwardAction, Forwarder, ForwarderView,
    CHUNK_SIZE,
};
pub use poison::IgnorePoisoned;
pub use relay::{Ready, Running};
pub use sizing::{
    exits, lemma_ceiling_holds_for_every_sequence, lemma_exits_drain, lemma_idle_convergence,
    lemma_never_below_target, lemma_rescale_keeps_wf, valid_limits, PoolEvent, PoolSizing,
    ScalingPlan, SizingView,
};
