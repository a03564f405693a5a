//! Composable wrappers over a process command builder, with lifecycle
//! enforcers that let a whole tree of child processes be observed,
//! signalled, reaped and terminated as one unit.
//!
//! The core is [`compose::CommandWrap`]: a [`command::Command`] builder
//! plus a registry of wrappers, each registered at most once per kind.
//! A spawn runs a deterministic pipeline — every wrapper's `pre_spawn`
//! hook rewrites the command in registration order, the host performs
//! the one spawn, and every wrapper's `wrap_child` hook layers the
//! returned [`child::ChildHandle`], outermost last. The enforcers —
//! the Unix process group and session, and the Windows job object —
//! attach the child to a kernel grouping primitive and replace the
//! handle with one whose wait, kill and signal address the whole
//! group; shim wrappers record creation flags and kill-on-drop intent
//! where sibling wrappers can read them.
//!
//! Every handle memoizes the exit status once a wait observes it, so
//! `wait` and `try_wait` answer the same status forever after without
//! touching the OS, and a group wait reaps every group member so that
//! no zombie outlives the handle. What must touch the host's process
//! facilities — the spawn itself, pipe I/O, the Win32 job calls — sits
//! at the edge, behind the command model and the step functions that
//! decide each move here.

use vstd::prelude::*;

pub mod child;
pub mod command;
pub mod compose;
pub mod creation_flags;
pub mod job_object;
pub mod kill_on_drop;
pub mod output;
pub mod process_group;
pub mod process_session;
pub mod registry;
pub mod reset_sigmask;
pub mod sys;
pub mod wrapper;

verus! {

/// Exit status of a child process, as the kernel reports it: either a
/// normal exit with a code, or termination by a signal.
#[derive(Clone, Copy, Debug, PartialEq, Eq, Structural)]
pub enum ExitStatus {
    /// The process called `exit` with the given code.
    Exited(i32),
    /// The process was terminated by the given signal.
    Signaled(i32),
}

impl ExitStatus {
    /// Whether the status reports success (a normal exit with code zero).
    pub fn success(&self) -> (r: bool)
        ensures
            r == (*self == ExitStatus::Exited(0)),
    {
        match self {
            ExitStatus::Exited(code) => *code == 0,
            ExitStatus::Signaled(_) => false,
        }
    }

    /// The exit code, if the process exited normally.
    pub fn code(&self) -> (r: Option<i32>)
        ensures
            r == (match *self {
                ExitStatus::Exited(c) => Some(c),
                ExitStatus::Signaled(_) => None::<i32>,
            }),
    {
        match self {
            ExitStatus::Exited(code) => Some(*code),
            ExitStatus::Signaled(_) => None,
        }
    }

    /// The signal that terminated the process, if any.
    pub fn signal(&self) -> (r: Option<i32>)
        ensures
            r == (match *self {
                ExitStatus::Exited(_) => None::<i32>,
                ExitStatus::Signaled(s) => Some(s),
            }),
    {
        match self {
            ExitStatus::Exited(_) => None,
            ExitStatus::Signaled(sig) => Some(*sig),
        }
    }
}

/// Memoization of the exit status of a child process: once a wait
/// observes the exit, every later wait returns the same status without
/// touching the operating system again.
#[derive(Clone, Copy, Debug, PartialEq, Eq, Structural)]
pub enum ChildExitStatus {
    /// The child has not been observed to exit yet.
    Running,
    /// The child exited with this status, now memoized.
    Exited(ExitStatus),
}

/// An error from waiting on, reaping, or signalling a child.
#[derive(Clone, Copy, Debug, PartialEq, Eq, Structural)]
pub enum Error {
    /// The OS reports no remaining child process to await.
    NoChild,
    /// An OS call failed with this errno.
    Os(i32),
    /// A reaping loop used up its iteration budget — large beyond any
    /// population a process group can reach — without the kernel
    /// reporting the group empty.
    Exhausted,
}

/// The signal that terminates a process unconditionally.
pub const SIGKILL: i32 = 9;

} // verus!
