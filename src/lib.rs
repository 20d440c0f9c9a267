//! A lock-contention microbenchmark, verified core.
//!
//! A simulating thread alternates between holding a shared lock and running
//! released from it, doing a burst of synthetic work in each phase. The
//! length of each burst is drawn from a Poisson process by the caller; this
//! crate decides, from the elapsed time and the budget, whether to run the
//! next burst or finish, performs the burst, and keeps the work counter.
pub mod phase;
pub mod work;
pub mod toggle;
