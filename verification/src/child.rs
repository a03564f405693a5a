//! The child handle abstraction.
//!
//! A handle is either the raw platform child or an enforcer's handle
//! wrapping another handle. Every layer memoizes the exit status once a
//! wait observes it, which is what makes `wait` and `try_wait`
//! idempotent after exit; and every layer reports the pid of the
//! top-level spawned process, however deep the wrapping.

use vstd::prelude::*;
use crate::{ChildExitStatus, Error, ExitStatus, SIGKILL};
use crate::job_object::JobObjectChild;
use crate::process_group::ProcessGroupChild;
use crate::sys::{WaitPoll, sys_kill, sys_waitpid};

verus! {

/// The raw platform child: the spawned process itself, addressed by
/// pid, with its memoized exit status.
#[derive(Debug)]
pub struct RawChild {
    /// The pid of the spawned process.
    pub pid: u32,
    /// The memoized exit status.
    pub status: ChildExitStatus,
}

impl RawChild {
    /// Well-formed: the pid is positive and fits a pid value of the
    /// kernel. A spawn reporting a pid above `i32::MAX` is a
    /// programming-impossible condition, refused up front rather than
    /// truncated.
    pub open spec fn wf(&self) -> bool {
        0 < self.pid <= i32::MAX
    }

    /// A handle for the freshly spawned process with this pid.
    pub fn new(pid: u32) -> (r: RawChild)
        requires
            0 < pid <= i32::MAX,
        ensures
            r.pid == pid,
            r.status == ChildExitStatus::Running,
            r.wf(),
    {
        RawChild { pid, status: ChildExitStatus::Running }
    }

    /// Block until the process exits and return its status; once the
    /// exit has been observed the memoized status is returned without
    /// touching the OS.
    pub fn wait(&mut self) -> (r: Result<ExitStatus, Error>)
        requires
            old(self).wf(),
        ensures
            final(self).wf(),
            final(self).pid == old(self).pid,
            old(self).status matches ChildExitStatus::Exited(s)
                ==> r == Ok::<ExitStatus, Error>(s) && *final(self) == *old(self),
            r matches Ok(s) ==> final(self).status == ChildExitStatus::Exited(s),
            r matches Err(_) ==> *final(self) == *old(self),
    {
        if let ChildExitStatus::Exited(s) = self.status {
            return Ok(s);
        }
        match sys_waitpid(self.pid as i32, false) {
            WaitPoll::Reaped(_, s) => {
                self.status = ChildExitStatus::Exited(s);
                Ok(s)
            }
            WaitPoll::StillAlive => {
                proof {
                    assert(false);
                }
                Err(Error::NoChild)
            }
            WaitPoll::Changed(_) => {
                proof {
                    assert(false);
                }
                Err(Error::NoChild)
            }
            WaitPoll::NoChildren => Err(Error::NoChild),
            WaitPoll::Failed(e) => Err(Error::Os(e)),
        }
    }

    /// Check without blocking whether the process has exited; once the
    /// exit has been observed the memoized status is returned without
    /// touching the OS.
    pub fn try_wait(&mut self) -> (r: Result<Option<ExitStatus>, Error>)
        requires
            old(self).wf(),
        ensures
            final(self).wf(),
            final(self).pid == old(self).pid,
            old(self).status matches ChildExitStatus::Exited(s)
                ==> r == Ok::<Option<ExitStatus>, Error>(Some(s)) && *final(self) == *old(self),
            r matches Ok(o) ==> match o {
                Some(s) => final(self).status == ChildExitStatus::Exited(s),
                None => final(self).status == old(self).status,
            },
            r matches Err(_) ==> *final(self) == *old(self),
    {
        if let ChildExitStatus::Exited(s) = self.status {
            return Ok(Some(s));
        }
        match sys_waitpid(self.pid as i32, true) {
            WaitPoll::Reaped(_, s) => {
                self.status = ChildExitStatus::Exited(s);
                Ok(Some(s))
            }
            WaitPoll::StillAlive => Ok(None),
            WaitPoll::Changed(_) => {
                proof {
                    assert(false);
                }
                Ok(None)
            }
            WaitPoll::NoChildren => Err(Error::NoChild),
            WaitPoll::Failed(e) => Err(Error::Os(e)),
        }
    }

    /// Deliver a signal to the process.
    pub fn signal(&self, sig: i32) -> (r: Result<(), Error>)
        requires
            self.wf(),
    {
        match sys_kill(self.pid as i32, sig) {
            Ok(()) => Ok(()),
            Err(e) => Err(Error::Os(e)),
        }
    }

    /// Initiate termination of the process without awaiting its exit:
    /// deliver `SIGKILL`.
    pub fn start_kill(&mut self) -> (r: Result<(), Error>)
        requires
            old(self).wf(),
        ensures
            *final(self) == *old(self),
    {
        self.signal(SIGKILL)
    }
}

/// A child handle: the raw platform child, or an enforcer's handle
/// owning the next handle down.
#[derive(Debug)]
pub enum ChildHandle {
    /// The raw platform child.
    Raw(RawChild),
    /// The handle layered by the process-group or process-session
    /// enforcer: waits and signals address the whole group.
    Group(ProcessGroupChild),
    /// The handle layered by the job-object enforcer: waits and kills
    /// address the whole job.
    Job(JobObjectChild),
}

impl ChildHandle {
    /// The number of enforcer layers over the raw child.
    pub open spec fn layers(&self) -> nat
        decreases *self,
    {
        match *self {
            ChildHandle::Raw(_) => 0,
            ChildHandle::Group(g) => 1 + g.inner.layers(),
            ChildHandle::Job(j) => 1 + j.inner.layers(),
        }
    }

    /// The pid of the top-level spawned process, read through every
    /// layer of wrapping.
    pub open spec fn raw_pid_spec(&self) -> u32
        decreases self.layers(),
    {
        match *self {
            ChildHandle::Raw(r) => r.pid,
            ChildHandle::Group(g) => g.inner.raw_pid_spec(),
            ChildHandle::Job(j) => j.inner.raw_pid_spec(),
        }
    }

    /// The raw child at the bottom of the handle chain.
    pub open spec fn raw_spec(&self) -> RawChild
        decreases self.layers(),
    {
        match *self {
            ChildHandle::Raw(r) => r,
            ChildHandle::Group(g) => g.inner.raw_spec(),
            ChildHandle::Job(j) => j.inner.raw_spec(),
        }
    }

    /// The memoized exit status at the outermost layer: what the next
    /// wait on this handle answers from without touching the OS.
    pub open spec fn status_spec(&self) -> ChildExitStatus {
        match *self {
            ChildHandle::Raw(r) => r.status,
            ChildHandle::Group(g) => g.exit_status,
            ChildHandle::Job(j) => j.exit_status,
        }
    }

    /// Well-formed: pids and group ids are positive and within the
    /// kernel's range, at every layer.
    pub open spec fn wf(&self) -> bool
        decreases self.layers(),
    {
        match *self {
            ChildHandle::Raw(r) => r.wf(),
            ChildHandle::Group(g) => 0 < g.pgid <= i32::MAX && g.inner.wf(),
            ChildHandle::Job(j) => j.inner.wf(),
        }
    }

    /// Whether the chain holds only handles whose blocking operations
    /// this library runs directly: the raw child and group handles. The
    /// job handle's kernel side is driven through its step functions
    /// instead.
    pub open spec fn unix_chain(&self) -> bool
        decreases self.layers(),
    {
        match *self {
            ChildHandle::Raw(_) => true,
            ChildHandle::Group(g) => g.inner.unix_chain(),
            ChildHandle::Job(_) => false,
        }
    }

    /// The pid of the top-level spawned process. Wrapping never changes
    /// it: a handle reports the same id however many layers are over
    /// the raw child.
    pub fn id(&self) -> (r: u32)
        ensures
            r == self.raw_pid_spec(),
        decreases self.layers(),
    {
        match self {
            ChildHandle::Raw(raw) => raw.pid,
            ChildHandle::Group(g) => g.inner.id(),
            ChildHandle::Job(j) => j.inner.id(),
        }
    }

    /// The raw pid of any handle equals the pid of the raw child at the
    /// bottom of its chain, however many layers wrap it.
    pub proof fn lemma_id_through_layers(&self)
        ensures
            self.raw_pid_spec() == self.raw_spec().pid,
        decreases self.layers(),
    {
        match *self {
            ChildHandle::Raw(_) => {}
            ChildHandle::Group(g) => {
                g.inner.lemma_id_through_layers();
            }
            ChildHandle::Job(j) => {
                j.inner.lemma_id_through_layers();
            }
        }
    }

    /// A well-formed chain reports a pid in the kernel's range.
    pub proof fn lemma_wf_raw_pid(&self)
        requires
            self.wf(),
        ensures
            0 < self.raw_pid_spec() <= i32::MAX,
        decreases self.layers(),
    {
        match *self {
            ChildHandle::Raw(_) => {}
            ChildHandle::Group(g) => {
                g.inner.lemma_wf_raw_pid();
            }
            ChildHandle::Job(j) => {
                j.inner.lemma_wf_raw_pid();
            }
        }
    }

    /// A reference to the next handle down; a raw child is its own
    /// inner handle.
    pub fn inner(&self) -> (r: &ChildHandle)
        ensures
            *r == (match *self {
                ChildHandle::Raw(_) => *self,
                ChildHandle::Group(g) => *g.inner,
                ChildHandle::Job(j) => *j.inner,
            }),
    {
        match self {
            ChildHandle::Raw(_) => self,
            ChildHandle::Group(g) => &g.inner,
            ChildHandle::Job(j) => &j.inner,
        }
    }

    /// A reference to the raw child at the bottom of the chain.
    pub fn inner_child(&self) -> (r: &RawChild)
        ensures
            *r == self.raw_spec(),
        decreases self.layers(),
    {
        match self {
            ChildHandle::Raw(raw) => raw,
            ChildHandle::Group(g) => g.inner.inner_child(),
            ChildHandle::Job(j) => j.inner.inner_child(),
        }
    }

    /// Whether `b` is `a` with the raw child at the bottom of its chain
    /// replaced by `raw`, every layer above kept as it was.
    pub open spec fn same_but_raw(a: ChildHandle, b: ChildHandle, raw: RawChild) -> bool
        decreases a.layers(),
    {
        match a {
            ChildHandle::Raw(_) => b == ChildHandle::Raw(raw),
            ChildHandle::Group(ga) => match b {
                ChildHandle::Group(gb) => gb.exit_status == ga.exit_status
                    && gb.pgid == ga.pgid
                    && ChildHandle::same_but_raw(*ga.inner, *gb.inner, raw),
                _ => false,
            },
            ChildHandle::Job(ja) => match b {
                ChildHandle::Job(jb) => jb.exit_status == ja.exit_status
                    && jb.job_port == ja.job_port
                    && jb.drain_attempts == ja.drain_attempts
                    && ChildHandle::same_but_raw(*ja.inner, *jb.inner, raw),
                _ => false,
            },
        }
    }

    /// A mutable reference to the raw child at the bottom of the chain.
    /// Writing through it changes nothing else: the handle afterwards
    /// is the handle before with only its raw child replaced.
    pub fn inner_child_mut(&mut self) -> (r: &mut RawChild)
        ensures
            *r == old(self).raw_spec(),
            ChildHandle::same_but_raw(*old(self), *final(self), *final(r)),
        decreases old(self).layers(),
    {
        match self {
            ChildHandle::Raw(raw) => raw,
            ChildHandle::Group(g) => g.inner.inner_child_mut(),
            ChildHandle::Job(j) => j.inner.inner_child_mut(),
        }
    }

    /// Consume this layer and return the next handle down; a raw child
    /// is returned unchanged. The job handle is not peeled here: it
    /// owns kernel handles whose cleanup the host must perform, so it
    /// is unwrapped through its own `into_inner`.
    pub fn into_inner(self) -> (r: ChildHandle)
        requires
            !(self matches ChildHandle::Job(_)),
        ensures
            r == (match self {
                ChildHandle::Raw(_) => self,
                ChildHandle::Group(g) => *g.inner,
                ChildHandle::Job(j) => *j.inner,
            }),
    {
        match self {
            ChildHandle::Raw(_) => self,
            ChildHandle::Group(g) => *g.inner,
            ChildHandle::Job(j) => *j.inner,
        }
    }

    /// Consume every layer and return the raw child.
    pub fn into_inner_child(self) -> (r: RawChild)
        requires
            self.unix_chain(),
        ensures
            r == self.raw_spec(),
        decreases self.layers(),
    {
        match self {
            ChildHandle::Raw(raw) => raw,
            ChildHandle::Group(g) => g.inner.into_inner_child(),
            ChildHandle::Job(j) => j.inner.into_inner_child(),
        }
    }

    /// Block until exit and return the status; idempotent once the
    /// exit has been observed.
    pub fn wait(&mut self) -> (r: Result<ExitStatus, Error>)
        requires
            old(self).wf(),
            old(self).unix_chain(),
        ensures
            final(self).wf(),
            final(self).unix_chain(),
            final(self).layers() == old(self).layers(),
            final(self).raw_pid_spec() == old(self).raw_pid_spec(),
            old(self).status_spec() matches ChildExitStatus::Exited(s)
                ==> r == Ok::<ExitStatus, Error>(s) && *final(self) == *old(self),
            r matches Ok(s) ==> final(self).status_spec() == ChildExitStatus::Exited(s),
        decreases old(self).layers(), 0nat,
    {
        match self {
            ChildHandle::Raw(raw) => raw.wait(),
            ChildHandle::Group(g) => g.wait(),
            ChildHandle::Job(_) => {
                proof {
                    assert(false);
                }
                Err(Error::NoChild)
            }
        }
    }

    /// Check without blocking whether the child has exited; idempotent
    /// once the exit has been observed.
    pub fn try_wait(&mut self) -> (r: Result<Option<ExitStatus>, Error>)
        requires
            old(self).wf(),
            old(self).unix_chain(),
        ensures
            final(self).wf(),
            final(self).unix_chain(),
            final(self).layers() == old(self).layers(),
            final(self).raw_pid_spec() == old(self).raw_pid_spec(),
            old(self).status_spec() matches ChildExitStatus::Exited(s)
                ==> r == Ok::<Option<ExitStatus>, Error>(Some(s)) && *final(self) == *old(self),
            r matches Ok(o) ==> (o matches Some(s)
                ==> final(self).status_spec() == ChildExitStatus::Exited(s)),
            r == Ok::<Option<ExitStatus>, Error>(None) ==> final(self).status_spec()
                == old(self).status_spec(),
        decreases old(self).layers(), 0nat,
    {
        match self {
            ChildHandle::Raw(raw) => raw.try_wait(),
            ChildHandle::Group(g) => g.try_wait(),
            ChildHandle::Job(_) => {
                proof {
                    assert(false);
                }
                Err(Error::NoChild)
            }
        }
    }

    /// Initiate termination without awaiting exit: `SIGKILL` to the
    /// process for a raw handle, to the whole group for a group handle.
    pub fn start_kill(&mut self) -> (r: Result<(), Error>)
        requires
            old(self).wf(),
            old(self).unix_chain(),
        ensures
            *final(self) == *old(self),
    {
        match self {
            ChildHandle::Raw(raw) => raw.start_kill(),
            ChildHandle::Group(g) => g.start_kill(),
            ChildHandle::Job(_) => {
                proof {
                    assert(false);
                }
                Err(Error::NoChild)
            }
        }
    }

    /// Deliver a signal: to the process for a raw handle, to the whole
    /// group for a group handle.
    pub fn signal(&self, sig: i32) -> (r: Result<(), Error>)
        requires
            self.wf(),
            self.unix_chain(),
    {
        match self {
            ChildHandle::Raw(raw) => raw.signal(sig),
            ChildHandle::Group(g) => g.signal(sig),
            ChildHandle::Job(_) => {
                proof {
                    assert(false);
                }
                Err(Error::NoChild)
            }
        }
    }

    /// Kill the child and wait for it to exit: initiate termination,
    /// then reap. Once the exit has been observed, further kills keep
    /// returning the same memoized status through `wait`.
    pub fn kill(&mut self) -> (r: Result<(), Error>)
        requires
            old(self).wf(),
            old(self).unix_chain(),
        ensures
            final(self).wf(),
            final(self).unix_chain(),
            final(self).raw_pid_spec() == old(self).raw_pid_spec(),
            r matches Ok(_) ==> final(self).status_spec() matches ChildExitStatus::Exited(_),
            old(self).status_spec() matches ChildExitStatus::Exited(_) ==> *final(self) == *old(self),
    {
        match self.start_kill() {
            Ok(()) => {}
            Err(e) => {
                return Err(e);
            }
        }
        match self.wait() {
            Ok(_) => Ok(()),
            Err(e) => Err(e),
        }
    }
}

} // verus!
