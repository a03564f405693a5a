//! The composition pipeline on its own: registration, lookup, the
//! pre-spawn phase, and the handle layering, without any process.

use process_wrap::ChildExitStatus;
use process_wrap::child::ChildHandle;
use process_wrap::command::{Command, StdioCfg};
use process_wrap::compose::CommandWrap;
use process_wrap::creation_flags::{CREATE_NO_WINDOW, CREATE_SUSPENDED, CreationFlags};
use process_wrap::job_object::{JobObject, JobPort};
use process_wrap::kill_on_drop::KillOnDrop;
use process_wrap::process_group::ProcessGroup;
use process_wrap::process_session::ProcessSession;
use process_wrap::reset_sigmask::ResetSigmask;
use process_wrap::wrapper::{Wrapper, WrapperKind};

#[test]
fn retrieve_flags() {
    let mut wrap = CommandWrap::with_new("powershell.exe", |mut c: Command| {
        c.arg("/C");
        c.arg("echo hello");
        c.stdout(StdioCfg::Piped);
        c
    });
    wrap.wrap(Wrapper::CreationFlags(CreationFlags(CREATE_NO_WINDOW)));
    wrap.prepare();

    let spied = match wrap.get_wrap(WrapperKind::CreationFlags) {
        Some(Wrapper::CreationFlags(CreationFlags(flags))) => *flags,
        _ => 0,
    };
    assert_eq!(spied, CREATE_NO_WINDOW);
}

#[test]
fn has_wrap_reports_each_registered_kind() {
    let mut wrap = CommandWrap::with_new("true", |c: Command| c);
    assert!(!wrap.has_wrap(WrapperKind::ProcessGroup));
    assert!(!wrap.has_wrap(WrapperKind::KillOnDrop));

    wrap.wrap(Wrapper::ProcessGroup(ProcessGroup::leader()));
    wrap.wrap(Wrapper::KillOnDrop(KillOnDrop));
    assert!(wrap.has_wrap(WrapperKind::ProcessGroup));
    assert!(wrap.has_wrap(WrapperKind::KillOnDrop));
    assert!(!wrap.has_wrap(WrapperKind::ProcessSession));
    assert!(!wrap.has_wrap(WrapperKind::JobObject));
    assert!(!wrap.has_wrap(WrapperKind::CreationFlags));
    assert!(!wrap.has_wrap(WrapperKind::ResetSigmask));
}

#[test]
fn wrapping_twice_keeps_one_instance() {
    let mut wrap = CommandWrap::with_new("true", |c: Command| c);
    wrap.wrap(Wrapper::ProcessGroup(ProcessGroup::leader()));
    wrap.wrap(Wrapper::ProcessGroup(ProcessGroup::attach_to(42)));

    // the second registration was discarded: one instance, the first
    assert!(wrap.has_wrap(WrapperKind::ProcessGroup));
    match wrap.get_wrap(WrapperKind::ProcessGroup) {
        Some(Wrapper::ProcessGroup(pg)) => assert_eq!(pg.leader_value(), 0),
        _ => panic!("process group wrapper missing"),
    }

    // and the pipeline still produces a single group layer
    let handle = wrap.wrap_spawned(1234, None);
    match handle {
        ChildHandle::Group(g) => {
            assert_eq!(g.pgid(), 1234);
            assert!(matches!(*g.inner, ChildHandle::Raw(_)));
        }
        _ => panic!("expected a group handle"),
    }
}

#[test]
fn from_command_into_command_round_trip() {
    let mut cmd = Command::new("echo");
    cmd.arg("hello");
    cmd.env("KEY", "VALUE");
    cmd.stdin(StdioCfg::Null);
    cmd.stdout(StdioCfg::Piped);

    let wrap = CommandWrap::from_command(cmd);
    let back = wrap.into_command();
    assert_eq!(back.program, "echo");
    assert_eq!(back.args, vec!["hello".to_owned()]);
    assert_eq!(back.envs, vec![("KEY".to_owned(), "VALUE".to_owned())]);
    assert!(matches!(back.stdin, StdioCfg::Null));
    assert!(matches!(back.stdout, StdioCfg::Piped));
    assert!(matches!(back.stderr, StdioCfg::Inherit));
    assert_eq!(back.process_group, None);
    assert!(!back.new_session);
    assert!(!back.reset_sigmask);
    assert_eq!(back.creation_flags, 0);
    assert!(!back.kill_on_drop);
}

#[test]
fn pre_spawn_records_group_session_sigmask_and_kill_on_drop() {
    let mut wrap = CommandWrap::with_new("true", |c: Command| c);
    wrap.wrap(Wrapper::ProcessGroup(ProcessGroup::attach_to(7)));
    wrap.wrap(Wrapper::ResetSigmask(ResetSigmask));
    wrap.wrap(Wrapper::KillOnDrop(KillOnDrop));
    wrap.prepare();
    let cmd = wrap.command();
    assert_eq!(cmd.process_group, Some(7));
    assert!(cmd.reset_sigmask);
    assert!(cmd.kill_on_drop);
    assert!(!cmd.new_session);

    let mut wrap = CommandWrap::with_new("true", |c: Command| c);
    wrap.wrap(Wrapper::ProcessSession(ProcessSession));
    wrap.prepare();
    assert!(wrap.command().new_session);
    assert_eq!(wrap.command().process_group, None);
}

#[test]
fn job_object_forces_suspended_spawn_and_keeps_user_flags() {
    // flags shim registered before the job enforcer: the job enforcer
    // reads them from the snapshot and folds in CREATE_SUSPENDED
    let mut wrap = CommandWrap::with_new("powershell.exe", |c: Command| c);
    wrap.wrap(Wrapper::CreationFlags(CreationFlags(CREATE_NO_WINDOW)));
    wrap.wrap(Wrapper::JobObject(JobObject));
    wrap.prepare();
    assert_eq!(wrap.command().creation_flags, CREATE_SUSPENDED | CREATE_NO_WINDOW);

    // without the shim, only CREATE_SUSPENDED is set
    let mut wrap = CommandWrap::with_new("powershell.exe", |c: Command| c);
    wrap.wrap(Wrapper::JobObject(JobObject));
    wrap.prepare();
    assert_eq!(wrap.command().creation_flags, CREATE_SUSPENDED);

    // the shim registered after the job enforcer overwrites the flags,
    // erasing CREATE_SUSPENDED unless the user folded it in themselves
    let mut wrap = CommandWrap::with_new("powershell.exe", |c: Command| c);
    wrap.wrap(Wrapper::JobObject(JobObject));
    wrap.wrap(Wrapper::CreationFlags(CreationFlags(CREATE_NO_WINDOW)));
    wrap.prepare();
    assert_eq!(wrap.command().creation_flags, CREATE_NO_WINDOW);
}

#[test]
fn job_plan_reads_sibling_shims() {
    let mut wrap = CommandWrap::with_new("powershell.exe", |c: Command| c);
    wrap.wrap(Wrapper::JobObject(JobObject));
    let plan = wrap.job_spawn_plan();
    assert!(!plan.kill_on_drop);
    assert!(plan.resume);

    wrap.wrap(Wrapper::KillOnDrop(KillOnDrop));
    let plan = wrap.job_spawn_plan();
    assert!(plan.kill_on_drop);
    assert!(plan.resume);

    let mut wrap = CommandWrap::with_new("powershell.exe", |c: Command| c);
    wrap.wrap(Wrapper::CreationFlags(CreationFlags(CREATE_SUSPENDED)));
    wrap.wrap(Wrapper::JobObject(JobObject));
    let plan = wrap.job_spawn_plan();
    assert!(!plan.resume);
}

#[test]
fn wrap_spawned_layers_in_registration_order() {
    // with registrations [session, job], the job layer is outermost
    let mut wrap = CommandWrap::with_new("true", |c: Command| c);
    wrap.wrap(Wrapper::ProcessSession(ProcessSession));
    wrap.wrap(Wrapper::JobObject(JobObject));
    let port = JobPort { job: 11, completion_port: 22 };
    let handle = wrap.wrap_spawned(4321, Some(port));
    assert_eq!(handle.id(), 4321);
    match handle {
        ChildHandle::Job(j) => {
            assert_eq!(j.job_port, port);
            assert!(matches!(j.exit_status, ChildExitStatus::Running));
            match *j.inner {
                ChildHandle::Group(g) => {
                    assert_eq!(g.pgid(), 4321);
                    assert!(matches!(*g.inner, ChildHandle::Raw(_)));
                }
                _ => panic!("expected the group layer under the job layer"),
            }
        }
        _ => panic!("expected the job layer outermost"),
    }
}

#[test]
fn group_wrap_records_parameter_or_child_pid() {
    // a new-group enforcer records the child's own pid as the group id
    let mut wrap = CommandWrap::with_new("true", |c: Command| c);
    wrap.wrap(Wrapper::ProcessGroup(ProcessGroup::leader()));
    match wrap.wrap_spawned(555, None) {
        ChildHandle::Group(g) => assert_eq!(g.pgid(), 555),
        _ => panic!("expected a group handle"),
    }

    // an attaching enforcer keeps its parameter
    let mut wrap = CommandWrap::with_new("true", |c: Command| c);
    wrap.wrap(Wrapper::ProcessGroup(ProcessGroup::attach_to(99)));
    match wrap.wrap_spawned(555, None) {
        ChildHandle::Group(g) => assert_eq!(g.pgid(), 99),
        _ => panic!("expected a group handle"),
    }

    // the session enforcer always uses the child's pid
    let mut wrap = CommandWrap::with_new("true", |c: Command| c);
    wrap.wrap(Wrapper::ProcessSession(ProcessSession));
    match wrap.wrap_spawned(556, None) {
        ChildHandle::Group(g) => assert_eq!(g.pgid(), 556),
        _ => panic!("expected a group handle"),
    }
}

#[test]
fn shims_leave_the_handle_unwrapped() {
    let mut wrap = CommandWrap::with_new("true", |c: Command| c);
    wrap.wrap(Wrapper::CreationFlags(CreationFlags(0)));
    wrap.wrap(Wrapper::KillOnDrop(KillOnDrop));
    wrap.wrap(Wrapper::ResetSigmask(ResetSigmask));
    let handle = wrap.wrap_spawned(777, None);
    assert!(matches!(handle, ChildHandle::Raw(_)));
    assert_eq!(handle.id(), 777);
}

#[test]
fn command_mut_edits_the_held_command() {
    let mut wrap = CommandWrap::with_new("echo", |c: Command| c);
    wrap.command_mut().arg("hello");
    wrap.command_mut().stdout(StdioCfg::Piped);
    assert_eq!(wrap.command().args, vec!["hello".to_owned()]);
    assert!(matches!(wrap.command().stdout, StdioCfg::Piped));
}

#[test]
fn peeling_layers_reaches_the_raw_child() {
    let mut wrap = CommandWrap::with_new("true", |c: Command| c);
    wrap.wrap(Wrapper::ProcessSession(ProcessSession));
    let mut handle = wrap.wrap_spawned(888, None);

    assert_eq!(handle.inner_child().pid, 888);
    assert_eq!(handle.inner_child_mut().pid, 888);
    assert_eq!(handle.inner().id(), 888);

    // one layer down is the raw child; peeling it again is the identity
    let peeled = handle.into_inner();
    assert!(matches!(peeled, ChildHandle::Raw(_)));
    let again = peeled.into_inner();
    assert_eq!(again.id(), 888);
    assert_eq!(again.into_inner_child().pid, 888);
}
