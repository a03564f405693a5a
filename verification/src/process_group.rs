//! Wrapper which sets the process group of the command.
//!
//! Only meaningful on Unix. It makes the child join a process group
//! between fork and exec, either as the leader of a new group or as a
//! member of an existing one. Signals sent to the group reach every
//! member, which is what lets the whole process tree be terminated and
//! reaped as one unit.

use vstd::prelude::*;
use crate::{ChildExitStatus, Error, ExitStatus, SIGKILL};
use crate::child::ChildHandle;
use crate::sys::{WaitPoll, sys_killpg, sys_waitpid};

verus! {

/// How many non-blocking reap attempts a wait makes before it falls
/// back to a blocking reap of the remaining group members.
pub const MAX_REAP_RETRIES: usize = 10;

/// Wrapper which sets the process group of the command: either a new
/// group with the child as leader, or an existing group by its id.
#[derive(Clone, Copy, Debug, PartialEq, Eq, Structural)]
pub struct ProcessGroup {
    leader: i32,
}

impl ProcessGroup {
    /// Target group: 0 means a new group with the child as leader, a
    /// positive value is the id of an existing group to join.
    pub closed spec fn leader_spec(&self) -> i32 {
        self.leader
    }

    #[verifier::type_invariant]
    spec fn inv(self) -> bool {
        0 <= self.leader
    }

    /// Set up a new process group with the command as the leader.
    pub fn leader() -> (r: ProcessGroup)
        ensures
            r.leader_spec() == 0,
    {
        ProcessGroup { leader: 0 }
    }

    /// Attach the command to the existing process group with this id.
    pub fn attach_to(leader: u32) -> (r: ProcessGroup)
        requires
            0 < leader <= i32::MAX,
        ensures
            r.leader_spec() == leader as i32,
    {
        ProcessGroup { leader: leader as i32 }
    }

    /// The target group: 0 for a new group with the child as leader,
    /// a positive id of an existing group to join. Never negative.
    pub fn leader_value(&self) -> (r: i32)
        ensures
            r == self.leader_spec(),
            0 <= r,
    {
        proof {
            use_type_invariant(self);
        }
        self.leader
    }
}



/// What one reap poll on the group decides: the step function of the
/// reaping loop.
#[derive(Clone, Copy, Debug, PartialEq, Eq, Structural)]
pub enum ReapStep {
    /// A member was reaped, or changed state without exiting: keep
    /// looping, with the parent's status accumulated so far.
    KeepGoing(Option<ExitStatus>),
    /// Nothing is reapable yet; only a non-blocking poll says this.
    NothingReady,
    /// No group member remains: reaping is complete, with the parent's
    /// status if it was among the reaped.
    Finished(Option<ExitStatus>),
    /// The wait failed with this errno.
    Failed(i32),
}

/// The decision the reaping loop takes on one `waitpid` outcome, where
/// `pid` is the original pid of the parent — the process this handle
/// spawned, which need not equal the group id when the child joined an
/// existing group — and `acc` the parent status collected so far:
/// a reaped member keeps the loop going, recording the status only when
/// the member is the parent and discarding reaped zombie grandchildren;
/// a non-exit state change keeps the loop going unchanged; an empty
/// poll ends a non-blocking reap; the group running out of members
/// finishes the reap with whatever parent status was collected; an
/// error fails it.
pub open spec fn reap_step_spec(poll: WaitPoll, pid: i32, acc: Option<ExitStatus>) -> ReapStep {
    match poll {
        WaitPoll::StillAlive => ReapStep::NothingReady,
        WaitPoll::Reaped(p, s) => ReapStep::KeepGoing(
            if p == pid {
                Some(s)
            } else {
                acc
            },
        ),
        WaitPoll::Changed(_) => ReapStep::KeepGoing(acc),
        WaitPoll::NoChildren => ReapStep::Finished(acc),
        WaitPoll::Failed(e) => ReapStep::Failed(e),
    }
}

/// Decide what the reaping loop does with one `waitpid` outcome.
pub fn reap_step(poll: WaitPoll, pid: i32, acc: Option<ExitStatus>) -> (r: ReapStep)
    ensures
        r == reap_step_spec(poll, pid, acc),
{
    match poll {
        WaitPoll::StillAlive => ReapStep::NothingReady,
        WaitPoll::Reaped(p, s) => ReapStep::KeepGoing(
            if p == pid {
                Some(s)
            } else {
                acc
            },
        ),
        WaitPoll::Changed(_) => ReapStep::KeepGoing(acc),
        WaitPoll::NoChildren => ReapStep::Finished(acc),
        WaitPoll::Failed(e) => ReapStep::Failed(e),
    }
}

/// The result of one round of group reaping.
#[derive(Clone, Copy, Debug, PartialEq, Eq, Structural)]
pub enum ReapOutcome {
    /// Nothing was reapable yet; only a non-blocking round says this.
    NothingReady,
    /// Every reapable group member was reaped; the parent's status if
    /// it was among them.
    Finished(Option<ExitStatus>),
}

/// Reap members of the process group `pgid` until none is left (or, in
/// a non-blocking round, until nothing is reapable yet): zombie
/// grandchildren are discarded, and only the status of the parent —
/// the process with the original pid `pid` — is kept. The loop carries
/// an iteration budget no real group can use up, one reaped member per
/// iteration.
pub fn reap_group(pgid: i32, pid: i32, nohang: bool) -> (r: Result<ReapOutcome, Error>)
    requires
        0 < pgid <= i32::MAX,
    ensures
        !nohang ==> r != Ok::<ReapOutcome, Error>(ReapOutcome::NothingReady),
{
    let mut acc: Option<ExitStatus> = None;
    let mut budget: u64 = u64::MAX;
    while budget > 0
        invariant
            0 < pgid <= i32::MAX,
        decreases budget,
    {
        let poll = sys_waitpid(0 - pgid, nohang);
        match reap_step(poll, pid, acc) {
            ReapStep::KeepGoing(a) => {
                acc = a;
            }
            ReapStep::NothingReady => {
                proof {
                    assert(poll == WaitPoll::StillAlive);
                    assert(nohang);
                }
                return Ok(ReapOutcome::NothingReady);
            }
            ReapStep::Finished(a) => {
                return Ok(ReapOutcome::Finished(a));
            }
            ReapStep::Failed(e) => {
                return Err(Error::Os(e));
            }
        }
        budget = budget - 1;
    }
    Err(Error::Exhausted)
}

/// Child handle layered by the process-group and process-session
/// enforcers: signals and kills address the whole group, waits reap
/// every group member so that no zombie outlives the handle, and the
/// parent's exit status, once observed, is memoized.
#[derive(Debug)]
pub struct ProcessGroupChild {
    /// The wrapped handle.
    pub inner: Box<ChildHandle>,
    /// The memoized exit status of the parent process.
    pub exit_status: ChildExitStatus,
    /// The id of the process group the child leads or joined.
    pub pgid: i32,
}

impl ProcessGroupChild {
    /// Wrap a handle into a group handle for the group `pgid`.
    pub(crate) fn new(inner: Box<ChildHandle>, pgid: i32) -> (r: ProcessGroupChild)
        requires
            0 < pgid <= i32::MAX,
        ensures
            r.inner == inner,
            r.exit_status == ChildExitStatus::Running,
            r.pgid == pgid,
    {
        ProcessGroupChild { inner, exit_status: ChildExitStatus::Running, pgid }
    }

    /// The id of the process group of this child.
    pub fn pgid(&self) -> (r: u32)
        requires
            0 < self.pgid,
        ensures
            r == self.pgid as u32,
    {
        self.pgid as u32
    }

    /// Deliver a signal to every member of the group.
    pub fn signal(&self, sig: i32) -> (r: Result<(), Error>)
        requires
            0 < self.pgid <= i32::MAX,
    {
        match sys_killpg(self.pgid, sig) {
            Ok(()) => Ok(()),
            Err(e) => Err(Error::Os(e)),
        }
    }

    /// Initiate termination of the whole group without awaiting exits:
    /// deliver `SIGKILL` to the group.
    pub fn start_kill(&mut self) -> (r: Result<(), Error>)
        requires
            0 < old(self).pgid <= i32::MAX,
        ensures
            *final(self) == *old(self),
    {
        self.signal(SIGKILL)
    }

    /// Block until the parent exits, then reap the remaining group
    /// members: first a bounded number of non-blocking rounds, then a
    /// blocking one if members remain. Once the parent's exit has been
    /// observed the memoized status is returned without touching the
    /// OS.
    pub fn wait(&mut self) -> (r: Result<ExitStatus, Error>)
        requires
            old(self).wf(),
            old(self).inner.unix_chain(),
        ensures
            final(self).wf(),
            final(self).inner.unix_chain(),
            final(self).inner.layers() == old(self).inner.layers(),
            final(self).inner.raw_pid_spec() == old(self).inner.raw_pid_spec(),
            final(self).pgid == old(self).pgid,
            old(self).exit_status matches ChildExitStatus::Exited(s)
                ==> r == Ok::<ExitStatus, Error>(s) && *final(self) == *old(self),
            r matches Ok(s) ==> final(self).exit_status == ChildExitStatus::Exited(s),
            old(self).exit_status matches ChildExitStatus::Running ==> (r matches Ok(s)
                ==> final(self).inner.status_spec() == ChildExitStatus::Exited(s)),
        decreases old(self).inner.layers(), 1nat,
    {
        if let ChildExitStatus::Exited(s) = self.exit_status {
            return Ok(s);
        }

        // always wait for the parent to exit first: by the time it
        // does, its children have likely been reaped already
        let status = match self.inner.wait() {
            Ok(s) => s,
            Err(e) => {
                return Err(e);
            }
        };
        self.exit_status = ChildExitStatus::Exited(status);

        // nevertheless, now reap every remaining group member,
        // identifying the parent by its own pid: a few non-blocking
        // rounds first...
        let pgid = self.pgid;
        proof {
            self.inner.lemma_wf_raw_pid();
        }
        let pid = self.inner.id();
        let mut attempt: usize = 1;
        while attempt < MAX_REAP_RETRIES
            invariant
                0 < pgid <= i32::MAX,
                self.wf(),
                self.inner.unix_chain(),
                self.inner.layers() == old(self).inner.layers(),
                self.inner.raw_pid_spec() == old(self).inner.raw_pid_spec(),
                self.inner.status_spec() == ChildExitStatus::Exited(status),
                self.pgid == old(self).pgid,
                self.exit_status == ChildExitStatus::Exited(status),
                old(self).exit_status == ChildExitStatus::Running,
            decreases MAX_REAP_RETRIES - attempt,
        {
            match reap_group(pgid, pid as i32, true) {
                Ok(ReapOutcome::Finished(_)) => {
                    return Ok(status);
                }
                Ok(ReapOutcome::NothingReady) => {}
                Err(e) => {
                    return Err(e);
                }
            }
            attempt = attempt + 1;
        }

        // ...and a blocking one if members remain
        match reap_group(pgid, pid as i32, false) {
            Ok(_) => Ok(status),
            Err(e) => Err(e),
        }
    }

    /// Check without blocking whether the parent has exited: one
    /// non-blocking reap round over the group, falling through to the
    /// wrapped handle when nothing was reapable. Once the exit has been
    /// observed the memoized status is returned without touching the
    /// OS.
    pub fn try_wait(&mut self) -> (r: Result<Option<ExitStatus>, Error>)
        requires
            old(self).wf(),
            old(self).inner.unix_chain(),
        ensures
            final(self).wf(),
            final(self).inner.unix_chain(),
            final(self).inner.layers() == old(self).inner.layers(),
            final(self).inner.raw_pid_spec() == old(self).inner.raw_pid_spec(),
            final(self).pgid == old(self).pgid,
            old(self).exit_status matches ChildExitStatus::Exited(s)
                ==> r == Ok::<Option<ExitStatus>, Error>(Some(s)) && *final(self) == *old(self),
            r matches Ok(o) ==> (o matches Some(s)
                ==> final(self).exit_status == ChildExitStatus::Exited(s)),
            r == Ok::<Option<ExitStatus>, Error>(None) ==> final(self).exit_status
                == old(self).exit_status,
        decreases old(self).inner.layers(), 1nat,
    {
        if let ChildExitStatus::Exited(s) = self.exit_status {
            return Ok(Some(s));
        }

        proof {
            self.inner.lemma_wf_raw_pid();
        }
        let pid = self.inner.id();
        match reap_group(self.pgid, pid as i32, true) {
            Ok(ReapOutcome::Finished(res)) => {
                if let Some(status) = res {
                    self.exit_status = ChildExitStatus::Exited(status);
                    Ok(Some(status))
                } else {
                    Ok(None)
                }
            }
            Ok(ReapOutcome::NothingReady) => {
                let exited = match self.inner.try_wait() {
                    Ok(o) => o,
                    Err(e) => {
                        return Err(e);
                    }
                };
                if let Some(status) = exited {
                    self.exit_status = ChildExitStatus::Exited(status);
                    Ok(Some(status))
                } else {
                    Ok(None)
                }
            }
            Err(e) => Err(e),
        }
    }

    /// Well-formed: the group id is a positive pid value and the
    /// wrapped chain is well-formed.
    pub open spec fn wf(&self) -> bool {
        0 < self.pgid <= i32::MAX && self.inner.wf()
    }
}

} // verus!
