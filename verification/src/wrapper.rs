//! The wrapper instances and their hooks.
//!
//! A wrapper is identified by its kind: each kind appears at most once
//! in a registry. The hooks of a spawn pipeline run in registration
//! order; `pre_spawn` rewrites the command, `wrap_child` layers a new
//! handle over the child. A second registration of the same kind is
//! given to the extant instance's `extend` hook, which by default
//! absorbs nothing, so the newcomer is discarded.

use vstd::prelude::*;
use crate::ChildExitStatus;
use crate::child::ChildHandle;
use crate::command::{Command, CommandView};
use crate::creation_flags::CreationFlags;
use crate::job_object::{JobObject, JobPort, job_pre_spawn_flags, combine_job_flags};
use crate::kill_on_drop::KillOnDrop;
use crate::process_group::ProcessGroup;
use crate::process_session::ProcessSession;
use crate::reset_sigmask::ResetSigmask;

verus! {

/// The identity of a wrapper: its concrete kind. Each kind has at most
/// one instance in a registry.
#[derive(Clone, Copy, Debug, PartialEq, Eq, Hash, Structural)]
pub enum WrapperKind {
    /// The process-group enforcer.
    ProcessGroup,
    /// The process-session enforcer.
    ProcessSession,
    /// The job-object enforcer.
    JobObject,
    /// The creation-flags shim.
    CreationFlags,
    /// The kill-on-drop shim.
    KillOnDrop,
    /// The signal-mask reset wrapper.
    ResetSigmask,
}

/// One registered wrapper instance, carrying its parameters.
#[derive(Clone, Copy, Debug, PartialEq, Eq, Structural)]
pub enum Wrapper {
    /// The process-group enforcer.
    ProcessGroup(ProcessGroup),
    /// The process-session enforcer.
    ProcessSession(ProcessSession),
    /// The job-object enforcer.
    JobObject(JobObject),
    /// The creation-flags shim.
    CreationFlags(CreationFlags),
    /// The kill-on-drop shim.
    KillOnDrop(KillOnDrop),
    /// The signal-mask reset wrapper.
    ResetSigmask(ResetSigmask),
}

impl Wrapper {
    /// The kind of this instance.
    pub open spec fn kind_spec(&self) -> WrapperKind {
        match *self {
            Wrapper::ProcessGroup(_) => WrapperKind::ProcessGroup,
            Wrapper::ProcessSession(_) => WrapperKind::ProcessSession,
            Wrapper::JobObject(_) => WrapperKind::JobObject,
            Wrapper::CreationFlags(_) => WrapperKind::CreationFlags,
            Wrapper::KillOnDrop(_) => WrapperKind::KillOnDrop,
            Wrapper::ResetSigmask(_) => WrapperKind::ResetSigmask,
        }
    }

    /// The kind of this instance.
    pub fn kind(&self) -> (r: WrapperKind)
        ensures
            r == self.kind_spec(),
    {
        match *self {
            Wrapper::ProcessGroup(_) => WrapperKind::ProcessGroup,
            Wrapper::ProcessSession(_) => WrapperKind::ProcessSession,
            Wrapper::JobObject(_) => WrapperKind::JobObject,
            Wrapper::CreationFlags(_) => WrapperKind::CreationFlags,
            Wrapper::KillOnDrop(_) => WrapperKind::KillOnDrop,
            Wrapper::ResetSigmask(_) => WrapperKind::ResetSigmask,
        }
    }

    /// Called on the extant instance when a second wrapper of the same
    /// kind is registered, with the newcomer as argument. It may absorb
    /// all or part of the newcomer; by default it absorbs nothing, and
    /// the newcomer is discarded.
    pub fn extend(&mut self, other: Wrapper)
        ensures
            *final(self) == *old(self),
    {
    }
}

/// No two wrappers in the sequence have the same kind.
pub open spec fn unique_kinds(ws: Seq<Wrapper>) -> bool {
    forall|i: int, j: int| 0 <= i < j < ws.len()
        ==> ws[i].kind_spec() != ws[j].kind_spec()
}

/// The flags carried by a creation-flags shim instance, if this is one.
pub open spec fn as_creation_flags(w: Wrapper) -> Option<u32> {
    match w {
        Wrapper::CreationFlags(cf) => Some(cf.0),
        _ => None,
    }
}

/// The creation flags recorded by the first creation-flags shim in the
/// sequence, if any: what the job enforcer reads from its siblings.
pub open spec fn user_creation_flags(ws: Seq<Wrapper>) -> Option<u32>
    decreases ws.len(),
{
    if ws.len() == 0 {
        None
    } else {
        match ws[0] {
            Wrapper::CreationFlags(cf) => Some(cf.0),
            _ => user_creation_flags(ws.drop_first()),
        }
    }
}

/// In a sequence without two wrappers of one kind, the recorded
/// creation flags are those of whichever member is the shim.
pub proof fn lemma_user_flags_at(ws: Seq<Wrapper>, i: int)
    requires
        unique_kinds(ws),
        0 <= i < ws.len(),
        as_creation_flags(ws[i]) is Some,
    ensures
        user_creation_flags(ws) == as_creation_flags(ws[i]),
    decreases ws.len(),
{
    if i == 0 {
    } else {
        assert(ws[0].kind_spec() != ws[i].kind_spec());
        assert(as_creation_flags(ws[0]) is None);
        assert(ws.drop_first()[i - 1] == ws[i]);
        lemma_user_flags_at(ws.drop_first(), i - 1);
    }
}

/// A sequence without a creation-flags shim records no flags.
pub proof fn lemma_user_flags_none(ws: Seq<Wrapper>)
    requires
        forall|i: int| 0 <= i < ws.len() ==> #[trigger] as_creation_flags(ws[i]) is None,
    ensures
        user_creation_flags(ws) is None,
    decreases ws.len(),
{
    if ws.len() == 0 {
    } else {
        assert(as_creation_flags(ws[0]) is None);
        assert(forall|i: int| 0 <= i < ws.drop_first().len()
            ==> #[trigger] as_creation_flags(ws.drop_first()[i]) is None);
        lemma_user_flags_none(ws.drop_first());
    }
}


/// Whether some wrapper in the sequence has this kind.
pub open spec fn seq_has_kind(ws: Seq<Wrapper>, kind: WrapperKind) -> bool {
    exists|i: int| 0 <= i < ws.len() && #[trigger] ws[i].kind_spec() == kind
}

/// What a sequence of registered wrappers becomes when one more is
/// registered: unchanged when its kind is already present — the extant
/// instance's `extend` hook absorbs nothing by default, so the newcomer
/// is discarded — and grown by the newcomer, last in order, otherwise.
pub open spec fn registered(ws: Seq<Wrapper>, w: Wrapper) -> Seq<Wrapper> {
    if seq_has_kind(ws, w.kind_spec()) {
        ws
    } else {
        ws.push(w)
    }
}

/// Registering two wrappers of one kind is the same as registering the
/// first: the second registration leaves the sequence unchanged, and
/// exactly one wrapper of that kind remains — it is present, and no two
/// members share a kind.
pub proof fn lemma_register_twice(ws: Seq<Wrapper>, w1: Wrapper, w2: Wrapper)
    requires
        unique_kinds(ws),
        w1.kind_spec() == w2.kind_spec(),
    ensures
        registered(registered(ws, w1), w2) == registered(ws, w1),
        seq_has_kind(registered(ws, w1), w2.kind_spec()),
        unique_kinds(registered(ws, w1)),
{
    let k = w1.kind_spec();
    if seq_has_kind(ws, k) {
        assert(registered(ws, w1) == ws);
    } else {
        let r1 = ws.push(w1);
        assert(r1[ws.len() as int].kind_spec() == k);
        assert(seq_has_kind(r1, k));
        assert forall|i: int, j: int| 0 <= i < j < r1.len()
            implies r1[i].kind_spec() != r1[j].kind_spec() by {
            if j == ws.len() as int {
                assert(r1[i] == ws[i]);
                if ws[i].kind_spec() == k {
                    assert(seq_has_kind(ws, k));
                }
            } else {
                assert(r1[i] == ws[i] && r1[j] == ws[j]);
            }
        }
    }
}

/// How one wrapper's `pre_spawn` hook rewrites the command.
/// `user_flags` is the sibling information the job enforcer reads from
/// the registry snapshot: the recorded creation flags, if any.
pub open spec fn pre_spawn_view(w: Wrapper, c: CommandView, user_flags: Option<u32>) -> CommandView {
    match w {
        Wrapper::ProcessGroup(pg) => CommandView { process_group: Some(pg.leader_spec() as int), ..c },
        Wrapper::ProcessSession(_) => CommandView { new_session: true, ..c },
        Wrapper::JobObject(_) => CommandView { creation_flags: job_pre_spawn_flags(user_flags), ..c },
        Wrapper::CreationFlags(cf) => CommandView { creation_flags: cf.0, ..c },
        Wrapper::KillOnDrop(_) => CommandView { kill_on_drop: true, ..c },
        Wrapper::ResetSigmask(_) => CommandView { reset_sigmask: true, ..c },
    }
}

/// How a whole sequence of wrappers rewrites the command: each
/// `pre_spawn` hook applied in registration order, every hook seeing
/// the same registry snapshot through `user_flags`.
pub open spec fn pre_spawn_all_view(ws: Seq<Wrapper>, c: CommandView, user_flags: Option<u32>) -> CommandView
    decreases ws.len(),
{
    if ws.len() == 0 {
        c
    } else {
        pre_spawn_all_view(ws.drop_first(), pre_spawn_view(ws[0], c, user_flags), user_flags)
    }
}


/// Appending a wrapper to the sequence applies its `pre_spawn` hook
/// after all the others: hooks run in registration order.
pub proof fn lemma_pre_spawn_all_snoc(ws: Seq<Wrapper>, x: Wrapper, c: CommandView, user_flags: Option<u32>)
    ensures
        pre_spawn_all_view(ws.push(x), c, user_flags)
            == pre_spawn_view(x, pre_spawn_all_view(ws, c, user_flags), user_flags),
    decreases ws.len(),
{
    if ws.len() == 0 {
        assert(ws.push(x)[0] == x);
        assert(ws.push(x).drop_first() =~= Seq::<Wrapper>::empty());
        assert(pre_spawn_all_view(ws.push(x), c, user_flags)
            == pre_spawn_all_view(Seq::<Wrapper>::empty(), pre_spawn_view(x, c, user_flags), user_flags));
        assert(pre_spawn_all_view(Seq::<Wrapper>::empty(), pre_spawn_view(x, c, user_flags), user_flags)
            == pre_spawn_view(x, c, user_flags));
        assert(pre_spawn_all_view(ws, c, user_flags) == c);
    } else {
        assert(ws.push(x)[0] == ws[0]);
        assert(ws.push(x).drop_first() =~= ws.drop_first().push(x));
        assert(pre_spawn_all_view(ws.push(x), c, user_flags)
            == pre_spawn_all_view(ws.drop_first().push(x), pre_spawn_view(ws[0], c, user_flags), user_flags));
        lemma_pre_spawn_all_snoc(ws.drop_first(), x, pre_spawn_view(ws[0], c, user_flags), user_flags);
        assert(pre_spawn_all_view(ws, c, user_flags)
            == pre_spawn_all_view(ws.drop_first(), pre_spawn_view(ws[0], c, user_flags), user_flags));
    }
}

/// Run one wrapper's `pre_spawn` hook on the command. `user_flags` is
/// the snapshot information read from sibling wrappers.
pub fn apply_pre_spawn(w: &Wrapper, cmd: &mut Command, user_flags: Option<u32>)
    ensures
        final(cmd)@ == pre_spawn_view(*w, old(cmd)@, user_flags),
{
    match w {
        Wrapper::ProcessGroup(pg) => {
            cmd.process_group = Some(pg.leader_value());
            proof {
                assert(final(cmd)@ =~= pre_spawn_view(*w, old(cmd)@, user_flags));
            }
        }
        Wrapper::ProcessSession(_) => {
            cmd.new_session = true;
            proof {
                assert(final(cmd)@ =~= pre_spawn_view(*w, old(cmd)@, user_flags));
            }
        }
        Wrapper::JobObject(_) => {
            cmd.creation_flags = combine_job_flags(user_flags);
            proof {
                assert(final(cmd)@ =~= pre_spawn_view(*w, old(cmd)@, user_flags));
            }
        }
        Wrapper::CreationFlags(cf) => {
            cmd.creation_flags = cf.0;
            proof {
                assert(final(cmd)@ =~= pre_spawn_view(*w, old(cmd)@, user_flags));
            }
        }
        Wrapper::KillOnDrop(_) => {
            cmd.kill_on_drop = true;
            proof {
                assert(final(cmd)@ =~= pre_spawn_view(*w, old(cmd)@, user_flags));
            }
        }
        Wrapper::ResetSigmask(_) => {
            cmd.reset_sigmask = true;
            proof {
                assert(final(cmd)@ =~= pre_spawn_view(*w, old(cmd)@, user_flags));
            }
        }
    }
}


/// How one wrapper's `wrap_child` hook layers the handle: whether `r`
/// is the handle the hook returns for the input `child`, where `pid` is
/// the pid of the raw child and `job` the job resources the host
/// created, if any. The group enforcer records the child's own pid as
/// the group id when it asked for a new group, and keeps its parameter
/// when it attached to an existing one; the session enforcer's group id
/// is always the child's pid; the shims leave the handle alone.
pub open spec fn is_wrap_child(w: Wrapper, child: ChildHandle, pid: u32, job: Option<JobPort>, r: ChildHandle) -> bool {
    match w {
        Wrapper::ProcessGroup(pg) => r matches ChildHandle::Group(g)
            && *g.inner == child
            && g.exit_status == ChildExitStatus::Running
            && g.pgid == (if pg.leader_spec() == 0 { pid as i32 } else { pg.leader_spec() }),
        Wrapper::ProcessSession(_) => r matches ChildHandle::Group(g)
            && *g.inner == child
            && g.exit_status == ChildExitStatus::Running
            && g.pgid == pid as i32,
        Wrapper::JobObject(_) => r matches ChildHandle::Job(j)
            && *j.inner == child
            && j.exit_status == ChildExitStatus::Running
            && Some(j.job_port) == job,
        Wrapper::CreationFlags(_) => r == child,
        Wrapper::KillOnDrop(_) => r == child,
        Wrapper::ResetSigmask(_) => r == child,
    }
}

/// How a whole sequence of wrappers layers the raw child: the hooks run
/// in registration order, each wrapping the handle the previous one
/// returned, so the last registered wrapper is the outermost layer.
pub open spec fn is_wrap_children(ws: Seq<Wrapper>, child: ChildHandle, pid: u32, job: Option<JobPort>, r: ChildHandle) -> bool
    decreases ws.len(),
{
    if ws.len() == 0 {
        r == child
    } else {
        exists|mid: ChildHandle| #[trigger] is_wrap_child(ws[0], child, pid, job, mid)
            && is_wrap_children(ws.drop_first(), mid, pid, job, r)
    }
}

/// Appending a wrapper to the sequence applies its `wrap_child` hook
/// over the handle the others built: the newcomer is the outermost.
pub proof fn lemma_wrap_children_snoc(ws: Seq<Wrapper>, x: Wrapper, child: ChildHandle, pid: u32, job: Option<JobPort>, mid: ChildHandle, r: ChildHandle)
    requires
        is_wrap_children(ws, child, pid, job, mid),
        is_wrap_child(x, mid, pid, job, r),
    ensures
        is_wrap_children(ws.push(x), child, pid, job, r),
    decreases ws.len(),
{
    if ws.len() == 0 {
        assert(mid == child);
        assert(ws.push(x)[0] == x);
        assert(ws.push(x).drop_first() =~= Seq::<Wrapper>::empty());
        assert(is_wrap_child(ws.push(x)[0], child, pid, job, r));
        assert(is_wrap_children(ws.push(x).drop_first(), r, pid, job, r));
    } else {
        let m1 = choose|m1: ChildHandle| #[trigger] is_wrap_child(ws[0], child, pid, job, m1)
            && is_wrap_children(ws.drop_first(), m1, pid, job, mid);
        lemma_wrap_children_snoc(ws.drop_first(), x, m1, pid, job, mid, r);
        assert(ws.push(x)[0] == ws[0]);
        assert(ws.push(x).drop_first() =~= ws.drop_first().push(x));
        assert(is_wrap_child(ws.push(x)[0], child, pid, job, m1));
        assert(is_wrap_children(ws.push(x).drop_first(), m1, pid, job, r));
    }
}


/// However many layers the wrappers stack over the raw child, the
/// resulting handle reports the raw child's own pid.
pub proof fn lemma_wrap_children_keep_raw_pid(ws: Seq<Wrapper>, child: ChildHandle, pid: u32, job: Option<JobPort>, r: ChildHandle)
    requires
        is_wrap_children(ws, child, pid, job, r),
    ensures
        r.raw_pid_spec() == child.raw_pid_spec(),
    decreases ws.len(),
{
    if ws.len() == 0 {
    } else {
        let mid = choose|mid: ChildHandle| #[trigger] is_wrap_child(ws[0], child, pid, job, mid)
            && is_wrap_children(ws.drop_first(), mid, pid, job, r);
        assert(mid.raw_pid_spec() == child.raw_pid_spec());
        lemma_wrap_children_keep_raw_pid(ws.drop_first(), mid, pid, job, r);
    }
}

/// Run one wrapper's `wrap_child` hook: layer the handle as the wrapper
/// asks, leaving it alone for the shims.
pub fn apply_wrap_child(w: &Wrapper, child: ChildHandle, pid: u32, job: Option<JobPort>) -> (r: ChildHandle)
    requires
        child.wf(),
        child.status_spec() == ChildExitStatus::Running,
        0 < pid <= i32::MAX,
        (*w matches Wrapper::JobObject(_)) ==> job is Some,
    ensures
        is_wrap_child(*w, child, pid, job, r),
        r.wf(),
        r.status_spec() == ChildExitStatus::Running,
        r.raw_pid_spec() == child.raw_pid_spec(),
        child.unix_chain() && !(*w matches Wrapper::JobObject(_)) ==> r.unix_chain(),
    {
    match w {
        Wrapper::ProcessGroup(pg) => {
            let leader = pg.leader_value();
            let pgid: i32 = if leader == 0 {
                pid as i32
            } else {
                leader
            };
            ChildHandle::Group(crate::process_group::ProcessGroupChild::new(Box::new(child), pgid))
        }
        Wrapper::ProcessSession(_) => {
            ChildHandle::Group(crate::process_group::ProcessGroupChild::new(Box::new(child), pid as i32))
        }
        Wrapper::JobObject(_) => {
            let jp = match job {
                Some(jp) => jp,
                None => {
                    proof {
                        assert(false);
                    }
                    JobPort { job: 0, completion_port: 0 }
                }
            };
            ChildHandle::Job(crate::job_object::JobObjectChild::new(Box::new(child), jp))
        }
        Wrapper::CreationFlags(_) => child,
        Wrapper::KillOnDrop(_) => child,
        Wrapper::ResetSigmask(_) => child,
    }
}

} // verus!
