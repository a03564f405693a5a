//! Wrapper which places the command in a job object.
//!
//! Only meaningful on Windows. A job object groups a process and all
//! its descendants, the way process groups do on Unix. The enforcer
//! spawns the child suspended, associates it to a fresh job whose state
//! changes are observed through a completion port, and resumes it only
//! afterwards, so that no grandchild can escape the job. The decisions
//! of that procedure are made here; the host performs the kernel calls
//! they prescribe.

use vstd::prelude::*;
use crate::{ChildExitStatus, Error, ExitStatus};
use crate::child::ChildHandle;
use crate::creation_flags::CREATE_SUSPENDED;

verus! {

/// Wrapper which creates a job object for the command and makes the
/// child handle address the whole job.
#[derive(Clone, Copy, Debug, PartialEq, Eq, Structural)]
pub struct JobObject;

/// A job object and its associated completion port, as raw handle
/// values owned by the job child handle.
#[derive(Clone, Copy, Debug, PartialEq, Eq, Structural)]
pub struct JobPort {
    /// The job object handle.
    pub job: u64,
    /// The completion port associated to the job.
    pub completion_port: u64,
}

/// The limit flag that makes closing the job handle terminate every
/// process in the job.
pub const JOB_OBJECT_LIMIT_KILL_ON_JOB_CLOSE: u32 = 0x00002000;

/// The flags the job enforcer sets on the command before the spawn:
/// the user's own creation flags, if the creation-flags shim recorded
/// any, with `CREATE_SUSPENDED` forced in.
pub open spec fn job_pre_spawn_flags(user_flags: Option<u32>) -> u32 {
    match user_flags {
        Some(f) => CREATE_SUSPENDED | f,
        None => CREATE_SUSPENDED,
    }
}

/// Combine the user's recorded creation flags with `CREATE_SUSPENDED`,
/// as the job enforcer sets them on the command before the spawn.
pub fn combine_job_flags(user_flags: Option<u32>) -> (r: u32)
    ensures
        r == job_pre_spawn_flags(user_flags),
{
    match user_flags {
        Some(f) => CREATE_SUSPENDED | f,
        None => CREATE_SUSPENDED,
    }
}

/// The limit flags a job is created with: kill-on-close exactly when
/// the kill-on-drop shim asked for it.
pub fn job_limit_flags(kill_on_drop: bool) -> (r: u32)
    ensures
        r == (if kill_on_drop { JOB_OBJECT_LIMIT_KILL_ON_JOB_CLOSE } else { 0u32 }),
{
    if kill_on_drop {
        JOB_OBJECT_LIMIT_KILL_ON_JOB_CLOSE
    } else {
        0
    }
}

/// Child handle layered by the job enforcer: waits and kills address
/// every process in the job, and the exit status of the primary
/// process, once observed, is memoized.
///
/// The kernel side of its lifecycle — terminating the job, polling the
/// completion port — runs at the host's edge; this handle holds the
/// state and makes every decision through [`JobObjectChild::wait_step`]
/// and its siblings, and is verified for every outcome the kernel can
/// report.
#[derive(Debug)]
pub struct JobObjectChild {
    /// The wrapped handle.
    pub inner: Box<ChildHandle>,
    /// The memoized exit status of the primary process.
    pub exit_status: ChildExitStatus,
    /// The job and completion port owned by this handle.
    pub job_port: JobPort,
    /// How many residual completion notifications the current wait has
    /// drained without seeing the job become empty.
    pub drain_attempts: u32,
}

impl JobObjectChild {
    /// Wrap a handle into a job handle owning these job resources.
    pub(crate) fn new(inner: Box<ChildHandle>, job_port: JobPort) -> (r: JobObjectChild)
        ensures
            r.inner == inner,
            r.exit_status == ChildExitStatus::Running,
            r.job_port == job_port,
            r.drain_attempts == 0,
    {
        JobObjectChild {
            inner,
            exit_status: ChildExitStatus::Running,
            job_port,
            drain_attempts: 0,
        }
    }
}


/// What the job enforcer must do after the spawn: whether the job is
/// created with the kill-on-close limit, and whether the suspended
/// child's threads are then resumed.
#[derive(Clone, Copy, Debug, PartialEq, Eq, Structural)]
pub struct JobPlan {
    /// Create the job with the kill-on-close limit.
    pub kill_on_drop: bool,
    /// Resume the child's threads once the job is associated.
    pub resume: bool,
}

/// Which threads of a tool-help snapshot the job enforcer resumes: in
/// snapshot order, exactly the threads owned by the child process.
///
/// The child is spawned with `CREATE_SUSPENDED`, so after the job is
/// associated its threads must be resumed, unless the user asked for a
/// suspended child.
pub fn threads_to_resume(entries: &Vec<(u32, u32)>, pid: u32) -> (r: Vec<u32>)
    ensures
        r@ == entries@.filter(|e: (u32, u32)| e.1 == pid).map_values(|e: (u32, u32)| e.0),
{
    let mut r: Vec<u32> = Vec::new();
    let mut i: usize = 0;
    proof {
        assert(entries@.take(0int).filter(|e: (u32, u32)| e.1 == pid)
            =~= Seq::<(u32, u32)>::empty());
        assert(r@ =~= entries@.take(0int).filter(|e: (u32, u32)| e.1 == pid)
            .map_values(|e: (u32, u32)| e.0));
    }
    while i < entries.len()
        invariant
            i <= entries@.len(),
            r@ == entries@.take(i as int).filter(|e: (u32, u32)| e.1 == pid)
                .map_values(|e: (u32, u32)| e.0),
        decreases entries@.len() - i,
    {
        let e = entries[i];
        proof {
            assert(entries@.take(i + 1int).drop_last() =~= entries@.take(i as int));
            assert(entries@.take(i + 1int).last() == entries@[i as int]);
            reveal_with_fuel(Seq::filter, 2);
        }
        if e.1 == pid {
            r.push(e.0);
        }
        proof {
            assert(r@ =~= entries@.take(i + 1int).filter(|x: (u32, u32)| x.1 == pid)
                .map_values(|x: (u32, u32)| x.0));
        }
        i = i + 1;
    }
    proof {
        assert(entries@.take(entries@.len() as int) =~= entries@);
    }
    r
}


/// What one completion-port poll says about the job: a notification
/// arrived and there is nothing more to drain; or the poll timed out
/// with members remaining; or the port call itself failed.
#[derive(Clone, Copy, Debug, PartialEq, Eq, Structural)]
pub enum JobFlow {
    /// The port reported: nothing more to drain for this wait.
    Drained,
    /// The poll timed out without a notification; members remain.
    Pending,
}

/// The decision taken on one `GetQueuedCompletionStatus` outcome,
/// where `error` is the OS error code if the call failed: a successful
/// call delivered a notification and ends the drain; a failed call with
/// a finite timeout and no pending overlapped result merely timed out;
/// any other failure — a failed dequeue, or any failure of a wait that
/// was to block until a notification — is a reap failure and is
/// surfaced.
pub fn job_poll_flow(timeout_finite: bool, error: Option<i32>, overlapped_null: bool) -> (r: Result<JobFlow, Error>)
    ensures
        r == (match error {
            None => Ok::<JobFlow, Error>(JobFlow::Drained),
            Some(e) => if timeout_finite && overlapped_null {
                Ok::<JobFlow, Error>(JobFlow::Pending)
            } else {
                Err::<JobFlow, Error>(Error::Os(e))
            },
        }),
{
    match error {
        None => Ok(JobFlow::Drained),
        Some(e) => {
            if timeout_finite && overlapped_null {
                Ok(JobFlow::Pending)
            } else {
                Err(Error::Os(e))
            }
        }
    }
}

/// How many non-blocking drain polls one wait makes before it blocks on
/// the completion port.
pub const MAX_DRAIN_POLLS: u32 = 10;

/// What the host must do next to carry a wait on the job handle
/// forward.
#[derive(Clone, Copy, Debug, PartialEq, Eq)]
pub enum JobWaitAction {
    /// The wait is complete: hand this result to the caller.
    Return(Result<ExitStatus, Error>),
    /// Await the wrapped handle's exit, then report what it said.
    AwaitInner,
    /// Poll the completion port without blocking, then report.
    Poll,
    /// Block on the completion port until the job drains, then report.
    Block,
}

/// What the host reports back while a wait on the job handle runs.
#[derive(Clone, Copy, Debug, PartialEq, Eq, Structural)]
pub enum JobWaitEvent {
    /// A wait begins.
    Start,
    /// The wrapped handle's wait returned this status.
    InnerExited(ExitStatus),
    /// The wrapped handle's wait failed with this errno.
    InnerFailed(i32),
    /// A completion-port poll said this.
    Polled(JobFlow),
    /// A completion-port call failed with this errno.
    PollFailed(i32),
}

impl JobObjectChild {
    /// The memoized exit status, if a wait has observed the exit.
    pub fn memoized(&self) -> (r: Option<ExitStatus>)
        ensures
            r == (match self.exit_status {
                ChildExitStatus::Exited(s) => Some(s),
                ChildExitStatus::Running => None::<ExitStatus>,
            }),
    {
        match self.exit_status {
            ChildExitStatus::Exited(s) => Some(s),
            ChildExitStatus::Running => None,
        }
    }

    /// Record an exit of the primary process observed by a non-blocking
    /// wait: every later wait returns this status without touching the
    /// kernel. An already memoized status is never overwritten, so the
    /// answer stays the same however the host drives the handle.
    pub fn observe_exit(&mut self, status: ExitStatus)
        ensures
            final(self).exit_status == (match old(self).exit_status {
                ChildExitStatus::Running => ChildExitStatus::Exited(status),
                ChildExitStatus::Exited(s) => ChildExitStatus::Exited(s),
            }),
            final(self).inner == old(self).inner,
            final(self).job_port == old(self).job_port,
            final(self).drain_attempts == old(self).drain_attempts,
    {
        if let ChildExitStatus::Running = self.exit_status {
            self.exit_status = ChildExitStatus::Exited(status);
        }
    }

    /// What `start_kill` does on a job handle: terminate the job — the
    /// job handle to terminate, and the exit code its processes get.
    pub fn kill_params(&self) -> (r: (u64, u32))
        ensures
            r == (self.job_port.job, 1u32),
    {
        (self.job_port.job, 1)
    }

    /// One step of the wait algorithm: from the handle's state and the
    /// host's report, decide what happens next.
    ///
    /// A wait first answers from the memoized status if there is one;
    /// otherwise it awaits the primary process and memoizes its status;
    /// then it drains residual completion notifications, a bounded
    /// number of non-blocking polls first and a blocking wait on the
    /// port if they are used up; a drained port ends the wait with the
    /// memoized status. Errors of the inner wait and of the completion
    /// port surface; the memoization never hides one, it only
    /// short-circuits successes.
    pub fn wait_step(&mut self, ev: JobWaitEvent) -> (r: JobWaitAction)
        ensures
            final(self).inner == old(self).inner,
            final(self).job_port == old(self).job_port,
            match ev {
                JobWaitEvent::Start => final(self).exit_status == old(self).exit_status
                    && final(self).drain_attempts == 0
                    && r == (match old(self).exit_status {
                        ChildExitStatus::Exited(s) => JobWaitAction::Return(Ok(s)),
                        ChildExitStatus::Running => JobWaitAction::AwaitInner,
                    }),
                JobWaitEvent::InnerExited(s) => final(self).exit_status
                    == ChildExitStatus::Exited(s)
                    && final(self).drain_attempts == 0
                    && r == JobWaitAction::Poll,
                JobWaitEvent::InnerFailed(e) => *final(self) == *old(self)
                    && r == JobWaitAction::Return(Err(Error::Os(e))),
                JobWaitEvent::Polled(flow) => match flow {
                    JobFlow::Drained => *final(self) == *old(self)
                        && r == JobWaitAction::Return(match old(self).exit_status {
                            ChildExitStatus::Exited(s) => Ok(s),
                            ChildExitStatus::Running => Err(Error::NoChild),
                        }),
                    JobFlow::Pending => final(self).exit_status == old(self).exit_status
                        && (if old(self).drain_attempts + 1 < MAX_DRAIN_POLLS {
                            final(self).drain_attempts == old(self).drain_attempts + 1
                                && r == JobWaitAction::Poll
                        } else {
                            final(self).drain_attempts == old(self).drain_attempts
                                && r == JobWaitAction::Block
                        }),
                },
                JobWaitEvent::PollFailed(e) => *final(self) == *old(self)
                    && r == JobWaitAction::Return(Err(Error::Os(e))),
            },
    {
        match ev {
            JobWaitEvent::Start => {
                self.drain_attempts = 0;
                match self.exit_status {
                    ChildExitStatus::Exited(s) => JobWaitAction::Return(Ok(s)),
                    ChildExitStatus::Running => JobWaitAction::AwaitInner,
                }
            }
            JobWaitEvent::InnerExited(s) => {
                self.exit_status = ChildExitStatus::Exited(s);
                self.drain_attempts = 0;
                JobWaitAction::Poll
            }
            JobWaitEvent::InnerFailed(e) => JobWaitAction::Return(Err(Error::Os(e))),
            JobWaitEvent::PollFailed(e) => JobWaitAction::Return(Err(Error::Os(e))),
            JobWaitEvent::Polled(flow) => match flow {
                JobFlow::Drained => match self.exit_status {
                    ChildExitStatus::Exited(s) => JobWaitAction::Return(Ok(s)),
                    ChildExitStatus::Running => JobWaitAction::Return(Err(Error::NoChild)),
                },
                JobFlow::Pending => {
                    if self.drain_attempts < MAX_DRAIN_POLLS - 1 {
                        self.drain_attempts = self.drain_attempts + 1;
                        JobWaitAction::Poll
                    } else {
                        JobWaitAction::Block
                    }
                }
            },
        }
    }

    /// Consume the job layer and return the wrapped handle, together
    /// with the completion-port handle the host must now close. The job
    /// handle is deliberately left open — and leaked — because closing
    /// a job created with kill-on-close would terminate the very child
    /// being handed back.
    pub fn into_inner(self) -> (r: (Box<ChildHandle>, u64))
        ensures
            r.0 == self.inner,
            r.1 == self.job_port.completion_port,
    {
        (self.inner, self.job_port.completion_port)
    }
}

} // verus!
