use std::time::Duration;

use process_wrap::child::ChildHandle;
use process_wrap::command::{Command, StdioCfg};
use process_wrap::compose::CommandWrap;
use process_wrap::process_group::ProcessGroup;
use process_wrap::process_session::ProcessSession;
use process_wrap::wrapper::Wrapper;

#[allow(dead_code)]
const DIE_TIME: Duration = Duration::from_millis(250);

fn runtime() -> tokio::runtime::Runtime {
    tokio::runtime::Builder::new_current_thread()
        .enable_all()
        .build()
        .unwrap()
}

#[allow(dead_code)]
fn nap(rt: &tokio::runtime::Runtime) {
    rt.block_on(async {
        tokio::time::sleep(DIE_TIME).await;
    });
}

/// Hand the prepared command to the host's spawn facility and layer the
/// library's handle over the reported pid. Stdout goes to the null
/// device when the command asks for it. A new session is approximated
/// by a new process group, which carries the group semantics these
/// tests exercise; real session creation needs a between-fork-and-exec
/// hook the host applies.
fn spawn_null(wrap: &mut CommandWrap, rt: &tokio::runtime::Runtime) -> ChildHandle {
    wrap.prepare();
    let cmd = wrap.command();
    let mut tc = tokio::process::Command::new(&cmd.program);
    for a in &cmd.args {
        tc.arg(a);
    }
    if let Some(pg) = cmd.process_group {
        tc.process_group(pg);
    } else if cmd.new_session {
        tc.process_group(0);
    }
    if matches!(cmd.stdout, StdioCfg::Null) {
        let null = nix::fcntl::open(
            "/dev/null",
            nix::fcntl::OFlag::O_WRONLY,
            nix::sys::stat::Mode::empty(),
        )
        .unwrap();
        tc.stdout(null);
    }
    let guard = rt.enter();
    let child = tc.spawn().unwrap();
    drop(guard);
    drop(tc);
    let pid = child.id().unwrap();
    std::mem::forget(child);
    wrap.wrap_spawned(pid, None)
}

#[test]
fn signals_nowrap() {
    let rt = runtime();
    let mut wrap = CommandWrap::with_new("yes", |mut c: Command| {
        c.stdout(StdioCfg::Null);
        c
    });
    let mut child = spawn_null(&mut wrap, &rt);

    child.signal(18).unwrap();
    nap(&rt);
    assert!(child.try_wait().unwrap().is_none(), "not exited with sigcont");

    child.signal(15).unwrap();
    nap(&rt);
    let status = child.try_wait().unwrap();
    assert!(status.is_some(), "exited with sigterm");
    assert_eq!(status.unwrap().signal(), Some(15));
}

#[test]
fn signals_process_group() {
    let rt = runtime();
    let mut wrap = CommandWrap::with_new("yes", |mut c: Command| {
        c.stdout(StdioCfg::Null);
        c
    });
    wrap.wrap(Wrapper::ProcessGroup(ProcessGroup::leader()));
    let mut child = spawn_null(&mut wrap, &rt);

    child.signal(18).unwrap();
    nap(&rt);
    assert!(child.try_wait().unwrap().is_none(), "not exited with sigcont");

    child.signal(15).unwrap();
    nap(&rt);
    let status = child.try_wait().unwrap();
    assert!(status.is_some(), "exited with sigterm");
    assert_eq!(status.unwrap().signal(), Some(15));
}

#[test]
fn signals_process_session() {
    let rt = runtime();
    let mut wrap = CommandWrap::with_new("yes", |mut c: Command| {
        c.stdout(StdioCfg::Null);
        c
    });
    wrap.wrap(Wrapper::ProcessSession(ProcessSession));
    let mut child = spawn_null(&mut wrap, &rt);

    child.signal(18).unwrap();
    nap(&rt);
    assert!(child.try_wait().unwrap().is_none(), "not exited with sigcont");

    child.signal(15).unwrap();
    nap(&rt);
    let status = child.try_wait().unwrap();
    assert!(status.is_some(), "exited with sigterm");
    assert_eq!(status.unwrap().signal(), Some(15));
}
