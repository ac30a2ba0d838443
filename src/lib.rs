//! Timeout-bounded blocking reads and writes.
//!
//! Before each read or write on a descriptor, the caller waits until the
//! descriptor is ready for that direction, bounded by a budget in whole
//! milliseconds; if the budget runs out first, the operation fails with a
//! distinguished "timed out" error instead of blocking forever.
//!
//! `budget` turns a duration into that millisecond budget, saturating on
//! overflow. `readiness` waits for the descriptor with one `poll` call and
//! runs the operation only once the descriptor is ready.

pub mod budget;
pub mod readiness;

pub use budget::duration_to_ms;
pub use readiness::{
    ready_from_poll, run_if_ready, run_when_ready, wait_until_ready, ReadyError,
    TIMED_OUT_MESSAGE,
};
