//! The wrapper composition core: a command builder plus an
//! insertion-ordered registry of wrappers, and the deterministic spawn
//! pipeline that runs the wrappers' hooks over the command.

use vstd::prelude::*;
use crate::ChildExitStatus;
use crate::child::{ChildHandle, RawChild};
use crate::command::{Command, CommandView};
use crate::job_object::{JobPlan, JobPort};
use crate::creation_flags::CreationFlags;
use crate::registry::Registry;
use crate::wrapper::{
    Wrapper, WrapperKind, apply_pre_spawn, apply_wrap_child, as_creation_flags,
    is_wrap_children, lemma_pre_spawn_all_snoc, lemma_user_flags_at, lemma_user_flags_none,
    lemma_wrap_children_snoc, pre_spawn_all_view, pre_spawn_view, unique_kinds,
    user_creation_flags,
};

verus! {

/// A command builder wrapped with a registry of lifecycle wrappers.
///
/// Wrappers are registered with [`wrap`](CommandWrap::wrap) and applied,
/// in registration order, by the spawn pipeline. The pipeline's phases
/// are strictly ordered: every `pre_spawn` hook rewrites the command
/// before the host spawns it; the host performs the one spawn; then the
/// `wrap_child` hooks layer the child handle. None of the wrappers here
/// needs a hook on the moment between the spawn and the layering, so
/// the pipeline goes straight from one to the other. The command
/// builder is never consumed by a spawn, so a failed spawn leaves it
/// reusable.
#[derive(Debug)]
pub struct CommandWrap {
    command: Command,
    wrappers: Registry,
}

impl CommandWrap {
    /// The command held by the builder, as a value.
    pub closed spec fn command_spec(&self) -> Command {
        self.command
    }

    /// The registered wrappers, in registration order.
    pub closed spec fn wrappers_spec(&self) -> Seq<Wrapper> {
        self.wrappers.wrappers()
    }

    /// Well-formed: the registry holds at most one wrapper per kind,
    /// each under its own kind.
    pub closed spec fn wf(&self) -> bool {
        self.wrappers.wf()
    }

    /// Whether some registered wrapper has this kind.
    pub open spec fn has_kind(&self, kind: WrapperKind) -> bool {
        crate::wrapper::seq_has_kind(self.wrappers_spec(), kind)
    }

    /// In a well-formed builder no two registered wrappers share a
    /// kind: what makes a second registration of a kind keep the
    /// registry at exactly one instance of it.
    pub proof fn lemma_wf_unique_kinds(&self)
        requires
            self.wf(),
        ensures
            unique_kinds(self.wrappers_spec()),
    {
        self.wrappers.lemma_wf_unique_kinds();
    }

    /// Create from a program name and an initializer that configures
    /// the fresh command, with an empty wrapper registry.
    pub fn with_new<F: FnOnce(Command) -> Command>(program: &str, init: F) -> (r: CommandWrap)
        requires
            forall|c: Command| c@ == CommandView::new_for(program@) ==> #[trigger] call_requires(init, (c,)),
        ensures
            r.wf(),
            r.wrappers_spec() == Seq::<Wrapper>::empty(),
            exists|c: Command| c@ == CommandView::new_for(program@)
                && #[trigger] call_ensures(init, (c,), r.command_spec()),
    {
        let command = Command::new(program);
        let command = init(command);
        let r = CommandWrap { command, wrappers: Registry::new() };
        proof {
            assert(r.wrappers_spec() =~= Seq::<Wrapper>::empty());
        }
        r
    }

    /// Adopt an existing command builder, with an empty wrapper
    /// registry.
    pub fn from_command(command: Command) -> (r: CommandWrap)
        ensures
            r.wf(),
            r.command_spec() == command,
            r.wrappers_spec() == Seq::<Wrapper>::empty(),
    {
        let r = CommandWrap { command, wrappers: Registry::new() };
        proof {
            assert(r.wrappers_spec() =~= Seq::<Wrapper>::empty());
        }
        r
    }

    /// A reference to the wrapped command.
    pub fn command(&self) -> (r: &Command)
        ensures
            *r == self.command_spec(),
    {
        &self.command
    }

    /// A mutable reference to the wrapped command.
    pub fn command_mut(&mut self) -> (r: &mut Command)
        ensures
            *r == old(self).command_spec(),
            final(self).command_spec() == *final(r),
            final(self).wrappers_spec() == old(self).wrappers_spec(),
            final(self).wf() == old(self).wf(),
    {
        &mut self.command
    }

    /// The wrapped command, the registry discarded.
    pub fn into_command(self) -> (r: Command)
        ensures
            r == self.command_spec(),
    {
        self.command
    }

    /// Register a wrapper.
    ///
    /// Registration is lazy: nothing is applied until the spawn
    /// pipeline runs. Only one wrapper of a given kind can be
    /// registered; a second registration of the same kind is offered to
    /// the extant instance's `extend` hook and otherwise discarded, so
    /// the registry is unchanged. Returns `&mut self` for chaining.
    pub fn wrap(&mut self, w: Wrapper) -> (r: &mut CommandWrap)
        requires
            old(self).wf(),
        ensures
            *final(self) == *final(r),
            r.wf(),
            r.command_spec() == old(self).command_spec(),
            r.wrappers_spec() == crate::wrapper::registered(old(self).wrappers_spec(), w),
            old(self).has_kind(w.kind_spec()) ==> r.wrappers_spec() == old(self).wrappers_spec(),
            !old(self).has_kind(w.kind_spec()) ==> r.wrappers_spec()
                == old(self).wrappers_spec().push(w),
    {
        self.wrappers.register(w);
        proof {
            if old(self).has_kind(w.kind_spec()) {
                assert(self.wrappers_spec() =~= old(self).wrappers_spec());
            } else {
                assert(self.wrappers_spec() =~= old(self).wrappers_spec().push(w));
            }
        }
        self
    }

    /// Whether a wrapper of this kind is registered: true if and only
    /// if some registered wrapper has the kind.
    pub fn has_wrap(&self, kind: WrapperKind) -> (r: bool)
        requires
            self.wf(),
        ensures
            r == self.has_kind(kind),
    {
        self.wrappers.contains(kind)
    }

    /// The registered wrapper of this kind, if any. The lookup is
    /// sound: only an instance of the requested kind is returned.
    pub fn get_wrap(&self, kind: WrapperKind) -> (r: Option<&Wrapper>)
        requires
            self.wf(),
        ensures
            match r {
                Some(w) => w.kind_spec() == kind
                    && exists|i: int| 0 <= i < self.wrappers_spec().len()
                        && #[trigger] self.wrappers_spec()[i] == *w,
                None => !self.has_kind(kind),
            },
    {
        let r = self.wrappers.get(kind);
        proof {
            if let Some(w) = r {
                let i = choose|i: int| 0 <= i < self.wrappers.wrappers().len()
                    && #[trigger] self.wrappers.wrappers()[i] == *w;
                assert(self.wrappers_spec()[i] == *w);
            }
        }
        r
    }

    /// The creation flags the creation-flags shim recorded, if it is
    /// registered: the sibling information the job enforcer reads.
    pub fn recorded_creation_flags(&self) -> (r: Option<u32>)
        requires
            self.wf(),
        ensures
            r == user_creation_flags(self.wrappers_spec()),
    {
        proof {
            self.wrappers.lemma_wf_unique_kinds();
        }
        match self.get_wrap(WrapperKind::CreationFlags) {
            Some(w) => {
                match *w {
                    Wrapper::CreationFlags(cf) => {
                        proof {
                            let i = choose|i: int| 0 <= i < self.wrappers_spec().len()
                                && #[trigger] self.wrappers_spec()[i] == *w;
                            lemma_user_flags_at(self.wrappers_spec(), i);
                        }
                        Some(cf.0)
                    }
                    _ => {
                        proof {
                            assert(false);
                        }
                        None
                    }
                }
            }
            None => {
                proof {
                    assert forall|i: int| 0 <= i < self.wrappers_spec().len()
                        implies #[trigger] as_creation_flags(self.wrappers_spec()[i]) is None by {
                        if as_creation_flags(self.wrappers_spec()[i]) is Some {
                            assert(self.wrappers_spec()[i].kind_spec() == WrapperKind::CreationFlags);
                        }
                    }
                    lemma_user_flags_none(self.wrappers_spec());
                }
                None
            }
        }
    }

    /// Run the `pre_spawn` phase of the spawn pipeline: every
    /// registered wrapper's hook rewrites the command, in registration
    /// order, each hook reading the same registry snapshot. The
    /// registry is untouched and the builder stays usable whatever the
    /// host's spawn then does.
    pub fn prepare(&mut self)
        requires
            old(self).wf(),
        ensures
            final(self).wf(),
            final(self).wrappers_spec() == old(self).wrappers_spec(),
            final(self).command_spec()@ == pre_spawn_all_view(
                old(self).wrappers_spec(),
                old(self).command_spec()@,
                user_creation_flags(old(self).wrappers_spec()),
            ),
    {
        let user_flags = self.recorded_creation_flags();
        let ghost ws = self.wrappers_spec();
        let ghost c0 = self.command_spec()@;
        let n = self.wrappers.len();
        proof {
            assert(ws.take(0int) =~= Seq::<Wrapper>::empty());
        }
        let mut i: usize = 0;
        while i < n
            invariant
                i <= n,
                n == ws.len(),
                self.wf(),
                self.wrappers_spec() == ws,
                user_flags == user_creation_flags(ws),
                self.command_spec()@ == pre_spawn_all_view(ws.take(i as int), c0, user_flags),
            decreases n - i,
        {
            let w = match self.wrappers.get_index(i) {
                Some(w) => w,
                None => {
                    proof {
                        assert(false);
                    }
                    return;
                }
            };
            apply_pre_spawn(&w, &mut self.command, user_flags);
            proof {
                assert(ws.take(i + 1int) =~= ws.take(i as int).push(ws[i as int]));
                lemma_pre_spawn_all_snoc(ws.take(i as int), ws[i as int], c0, user_flags);
            }
            i = i + 1;
        }
        proof {
            assert(ws.take(n as int) =~= ws);
        }
    }


    /// The plan the job-object enforcer follows after the spawn, read
    /// from its sibling wrappers: the job is created with kill-on-close
    /// exactly when the kill-on-drop shim is registered, and the
    /// suspended child is resumed unless the user's own recorded
    /// creation flags asked for `CREATE_SUSPENDED`.
    pub fn job_spawn_plan(&self) -> (r: JobPlan)
        requires
            self.wf(),
        ensures
            r.kill_on_drop == self.has_kind(WrapperKind::KillOnDrop),
            r.resume == (match user_creation_flags(self.wrappers_spec()) {
                Some(f) => f & crate::creation_flags::CREATE_SUSPENDED == 0,
                None => true,
            }),
    {
        let kill_on_drop = self.has_wrap(WrapperKind::KillOnDrop);
        let resume = match self.recorded_creation_flags() {
            Some(f) => f & crate::creation_flags::CREATE_SUSPENDED == 0,
            None => true,
        };
        JobPlan { kill_on_drop, resume }
    }

    /// Run the `wrap_child` phase of the spawn pipeline over the child
    /// the host spawned: every registered wrapper layers the handle, in
    /// registration order, so the last registered wrapper is the
    /// outermost layer. `pid` is the pid the spawn reported; `job` is
    /// the job resources the host created for the job-object enforcer,
    /// required exactly when that enforcer is registered. The handle
    /// reports the spawned pid through every layer, and no layer starts
    /// with an exit memoized.
    pub fn wrap_spawned(&self, pid: u32, job: Option<JobPort>) -> (r: ChildHandle)
        requires
            self.wf(),
            0 < pid <= i32::MAX,
            self.has_kind(WrapperKind::JobObject) ==> job is Some,
        ensures
            is_wrap_children(
                self.wrappers_spec(),
                ChildHandle::Raw(RawChild { pid, status: ChildExitStatus::Running }),
                pid,
                job,
                r,
            ),
            r.wf(),
            r.status_spec() == ChildExitStatus::Running,
            r.raw_pid_spec() == pid,
            !self.has_kind(WrapperKind::JobObject) ==> r.unix_chain(),
    {
        let mut handle = ChildHandle::Raw(RawChild::new(pid));
        let ghost raw0 = handle;
        let ghost ws = self.wrappers_spec();
        let n = self.wrappers.len();
        proof {
            assert(ws.take(0int) =~= Seq::<Wrapper>::empty());
        }
        let mut i: usize = 0;
        while i < n
            invariant
                i <= n,
                n == ws.len(),
                self.wf(),
                self.wrappers_spec() == ws,
                0 < pid <= i32::MAX,
                self.has_kind(WrapperKind::JobObject) ==> job is Some,
                raw0 == ChildHandle::Raw(RawChild { pid, status: ChildExitStatus::Running }),
                is_wrap_children(ws.take(i as int), raw0, pid, job, handle),
                handle.wf(),
                handle.status_spec() == ChildExitStatus::Running,
                handle.raw_pid_spec() == pid,
                !self.has_kind(WrapperKind::JobObject) ==> handle.unix_chain(),
            decreases n - i,
        {
            let w = match self.wrappers.get_index(i) {
                Some(w) => w,
                None => {
                    proof {
                        assert(false);
                    }
                    return handle;
                }
            };
            proof {
                if w matches Wrapper::JobObject(_) {
                    assert(self.wrappers_spec()[i as int].kind_spec() == WrapperKind::JobObject);
                    assert(self.has_kind(WrapperKind::JobObject));
                }
            }
            let ghost mid = handle;
            handle = apply_wrap_child(&w, handle, pid, job);
            proof {
                lemma_wrap_children_snoc(ws.take(i as int), ws[i as int], raw0, pid, job, mid, handle);
                assert(ws.take(i + 1int) =~= ws.take(i as int).push(ws[i as int]));
            }
            i = i + 1;
        }
        proof {
            assert(ws.take(n as int) =~= ws);
        }
        handle
    }
}

} // verus!
