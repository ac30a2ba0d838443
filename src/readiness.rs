//! Waiting for readiness: wait, bounded by the budget, until a descriptor
//! is ready for reading or writing, and only then run the operation.

use nix::errno::Errno;
use nix::poll::{PollFd, PollFlags};
use vstd::prelude::*;

verus! {

/// `nix::errno::Errno`, the error that a failed `poll` reports; carried
/// through as it is.
#[verifier::external_type_specification]
#[verifier::external_body]
pub struct ExErrno(Errno);

/// `nix::poll::PollFlags`, the events to wait for; handed to `poll` as it is.
#[verifier::external_type_specification]
#[verifier::external_body]
pub struct ExPollFlags(PollFlags);

/// `nix::poll::PollFd`, one entry of a `poll` call.
#[verifier::external_type_specification]
#[verifier::external_body]
pub struct ExPollFd(PollFd);

/// Relies on `nix::poll::PollFd::new`: the entry that watches one
/// descriptor for the given events. Nothing is claimed of the entry.
pub assume_specification[ PollFd::new ](fd: i32, events: PollFlags) -> PollFd;

/// Relies on `nix::poll::poll`: one `poll(2)` call over the entries, which
/// blocks at most `timeout` milliseconds when `timeout` is not negative
/// (a negative one would wait without end), and returns the count of
/// entries that became ready, which poll(2) bounds by the number of
/// entries, or the error that the call reported.
pub assume_specification[ nix::poll::poll ](
    fds: &mut [PollFd],
    timeout: nix::libc::c_int,
) -> (r: nix::Result<nix::libc::c_int>)
    requires
        timeout >= 0,
    ensures
        r matches Ok(n) ==> 0 <= n <= old(fds)@.len(),
;

/// The message that goes with a timed-out wait.
pub const TIMED_OUT_MESSAGE: &'static str = "timed out waiting for fd to be ready";

/// Why a descriptor was not found ready.
#[derive(Clone, Copy, Debug, PartialEq, Eq)]
pub enum ReadyError {
    /// The budget ran out before the descriptor became ready.
    TimedOut,
    /// The wait itself failed, with this error.
    Wait(Errno),
}

/// What follows from what `poll` returned: no entry ready means
/// the budget ran out; a failed call is passed on; otherwise the
/// descriptor is ready.
pub open spec fn poll_verdict(ret: Result<i32, Errno>) -> Result<(), ReadyError> {
    match ret {
        Ok(n) => if n == 0 {
            Err(ReadyError::TimedOut)
        } else {
            Ok(())
        },
        Err(e) => Err(ReadyError::Wait(e)),
    }
}

/// Decides, from what one `poll` call over the descriptor returned,
/// whether the descriptor is ready.
pub fn ready_from_poll(ret: Result<i32, Errno>) -> (r: Result<(), ReadyError>)
    ensures
        r == poll_verdict(ret),
{
    match ret {
        Ok(n) => if n == 0 {
            Err(ReadyError::TimedOut)
        } else {
            Ok(())
        },
        Err(e) => Err(ReadyError::Wait(e)),
    }
}

/// Waits until `fd` signals one of `events`, for at most `timeout`
/// milliseconds. Without a budget it returns at once, without waiting:
/// the operation that follows is then free to block on its own. With a
/// budget it makes one `poll` call over `fd` and `events` with the budget
/// as its timeout, and `ready_from_poll` decides from what came back;
/// which outcome that is depends on the descriptor and on time.
pub fn wait_until_ready(timeout: Option<i32>, fd: i32, events: PollFlags) -> (r: Result<
    (),
    ReadyError,
>)
    requires
        timeout matches Some(ms) ==> ms >= 0,
    ensures
        timeout is None ==> r == Ok::<(), ReadyError>(()),
{
    match timeout {
        None => Ok(()),
        Some(ms) => {
            let mut fds = [PollFd::new(fd, events)];
            let ret = nix::poll::poll(&mut fds, ms);
            ready_from_poll(ret)
        },
    }
}

/// Runs `op` only on a passing wait: when `ready` is an error, that error
/// comes back unchanged and `op` is not run; when `ready` is `Ok`, `op`
/// runs once and its result comes back unchanged.
pub fn run_if_ready<T, E, F>(ready: Result<(), ReadyError>, op: F) -> (r: Result<
    Result<T, E>,
    ReadyError,
>) where F: FnOnce() -> Result<T, E>
    requires
        op.requires(()),
    ensures
        ready matches Err(e) ==> r == Err::<Result<T, E>, ReadyError>(e),
        ready is Ok ==> (r matches Ok(res) && op.ensures((), res)),
{
    match ready {
        Ok(()) => Ok(op()),
        Err(e) => Err(e),
    }
}

/// Waits as `wait_until_ready` does, then hands the outcome to
/// `run_if_ready`: only once the descriptor is ready does `op` run, once,
/// and its result comes back unchanged; when the wait fails or runs out,
/// that error comes back and `op` is not run. Without a budget the wait
/// never fails, so `op` always runs.
pub fn run_when_ready<T, E, F>(timeout: Option<i32>, fd: i32, events: PollFlags, op: F) -> (r:
    Result<Result<T, E>, ReadyError>) where F: FnOnce() -> Result<T, E>
    requires
        timeout matches Some(ms) ==> ms >= 0,
        op.requires(()),
    ensures
        r matches Ok(res) ==> op.ensures((), res),
        r is Err ==> timeout is Some,
        timeout is None ==> r is Ok,
{
    run_if_ready(wait_until_ready(timeout, fd, events), op)
}

} // verus!
