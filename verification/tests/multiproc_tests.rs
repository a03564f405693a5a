use std::time::Duration;

use process_wrap::child::ChildHandle;
use process_wrap::command::{Command, StdioCfg};
use process_wrap::compose::CommandWrap;
use process_wrap::process_group::ProcessGroup;
use process_wrap::process_session::ProcessSession;
use process_wrap::wrapper::Wrapper;

const DIE_TIME: Duration = Duration::from_millis(250);

fn runtime() -> tokio::runtime::Runtime {
    tokio::runtime::Builder::new_current_thread()
        .enable_all()
        .build()
        .unwrap()
}

fn nap(rt: &tokio::runtime::Runtime) {
    rt.block_on(async {
        tokio::time::sleep(DIE_TIME).await;
    });
}

/// Whether the process still runs: it exists and is not a zombie
/// awaiting its reap.
fn pid_alive(pid: i32) -> bool {
    let path = format!("/proc/{}/stat", pid);
    let fd = match nix::fcntl::open(
        path.as_str(),
        nix::fcntl::OFlag::O_RDONLY,
        nix::sys::stat::Mode::empty(),
    ) {
        Ok(fd) => fd,
        Err(_) => return false,
    };
    let mut buf = [0u8; 512];
    let n = nix::unistd::read(&fd, &mut buf).unwrap_or(0);
    let stat = String::from_utf8_lossy(&buf[..n]).into_owned();
    // the state letter follows the parenthesised command name
    match stat.rsplit_once(") ") {
        Some((_, rest)) => !rest.starts_with('Z'),
        None => false,
    }
}

/// Spawn a shell whose job is to start one grandchild, print
/// "parent_pid:child_pid" on stdout, and stay alive; return the layered
/// handle and the printed line.
fn spawn_multiproc(wrap: &mut CommandWrap, rt: &tokio::runtime::Runtime) -> (ChildHandle, String) {
    wrap.prepare();
    let cmd = wrap.command();
    let mut tc = tokio::process::Command::new(&cmd.program);
    for a in &cmd.args {
        tc.arg(a);
    }
    if let Some(pg) = cmd.process_group {
        tc.process_group(pg);
    } else if cmd.new_session {
        tc.process_group(0);
    }
    let (pipe_r, pipe_w) = nix::unistd::pipe2(nix::fcntl::OFlag::O_CLOEXEC).unwrap();
    tc.stdout(pipe_w);
    let guard = rt.enter();
    let child = tc.spawn().unwrap();
    drop(guard);
    drop(tc);
    let pid = child.id().unwrap();
    std::mem::forget(child);
    let handle = wrap.wrap_spawned(pid, None);

    let mut line: Vec<u8> = Vec::new();
    let mut buf = [0u8; 256];
    loop {
        let n = nix::unistd::read(&pipe_r, &mut buf).unwrap();
        if n == 0 {
            break;
        }
        line.extend_from_slice(&buf[..n]);
        if line.contains(&b'\n') {
            break;
        }
    }
    (handle, String::from_utf8(line).unwrap())
}

fn helper_wrap() -> CommandWrap {
    CommandWrap::with_new("sh", |mut c: Command| {
        c.arg("-c");
        c.arg("sleep 10 & echo \"$$:$!\"; sleep 10");
        c.stdout(StdioCfg::Piped);
        c
    })
}

fn parse_pids(line: &str) -> (i32, i32) {
    let trimmed = line.trim();
    let (parent, child) = match trimmed.split_once(':') {
        Some(pair) => pair,
        None => panic!("expected line with parent and child pids"),
    };
    (parent.parse::<i32>().unwrap(), child.parse::<i32>().unwrap())
}

#[test]
fn process_group_kill_leader() {
    let rt = runtime();
    let mut wrap = helper_wrap();
    wrap.wrap(Wrapper::ProcessGroup(ProcessGroup::leader()));
    let (mut leader, line) = spawn_multiproc(&mut wrap, &rt);
    assert!(leader.try_wait().unwrap().is_none(), "leader: pre kill");

    let (parent, child) = parse_pids(&line);
    assert_eq!(parent, leader.id() as i32);
    assert!(pid_alive(parent), "parent process should be alive");
    assert!(pid_alive(child), "child process should be alive");

    leader.kill().unwrap();
    nap(&rt);
    assert!(!pid_alive(parent), "parent process should be dead");
    assert!(!pid_alive(child), "child process should be dead");
}

#[test]
fn process_group_kill_group() {
    let rt = runtime();
    let mut wrap = helper_wrap();
    wrap.wrap(Wrapper::ProcessGroup(ProcessGroup::leader()));
    let (mut leader, line) = spawn_multiproc(&mut wrap, &rt);
    assert!(leader.try_wait().unwrap().is_none(), "leader: pre kill");

    let (parent, child) = parse_pids(&line);
    assert_eq!(parent, leader.id() as i32);
    assert!(pid_alive(parent), "parent process should be alive");
    assert!(pid_alive(child), "child process should be alive");

    nix::sys::signal::killpg(
        nix::unistd::Pid::from_raw(parent),
        nix::sys::signal::Signal::SIGKILL,
    )
    .unwrap();
    nap(&rt);
    assert!(!pid_alive(child), "child process should be dead");
    leader.wait().unwrap();
    assert!(!pid_alive(parent), "parent process should be dead");
}

#[test]
fn process_session_kill_leader() {
    let rt = runtime();
    let mut wrap = helper_wrap();
    wrap.wrap(Wrapper::ProcessSession(ProcessSession));
    let (mut leader, line) = spawn_multiproc(&mut wrap, &rt);
    assert!(leader.try_wait().unwrap().is_none(), "leader: pre kill");

    let (parent, child) = parse_pids(&line);
    assert_eq!(parent, leader.id() as i32);
    assert!(pid_alive(parent), "parent process should be alive");
    assert!(pid_alive(child), "child process should be alive");

    leader.kill().unwrap();
    nap(&rt);
    assert!(!pid_alive(parent), "parent process should be dead");
    assert!(!pid_alive(child), "child process should be dead");
}

#[test]
fn process_session_kill_group() {
    let rt = runtime();
    let mut wrap = helper_wrap();
    wrap.wrap(Wrapper::ProcessSession(ProcessSession));
    let (mut leader, line) = spawn_multiproc(&mut wrap, &rt);
    assert!(leader.try_wait().unwrap().is_none(), "leader: pre kill");

    let (parent, child) = parse_pids(&line);
    assert_eq!(parent, leader.id() as i32);
    assert!(pid_alive(parent), "parent process should be alive");
    assert!(pid_alive(child), "child process should be alive");

    nix::sys::signal::killpg(
        nix::unistd::Pid::from_raw(parent),
        nix::sys::signal::Signal::SIGKILL,
    )
    .unwrap();
    nap(&rt);
    assert!(!pid_alive(child), "child process should be dead");
    leader.wait().unwrap();
    assert!(!pid_alive(parent), "parent process should be dead");
}
