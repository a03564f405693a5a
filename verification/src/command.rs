//! The command builder model: everything a spawn needs, held as plain
//! values so that the wrapper hooks that read and rewrite it are
//! verifiable. The process-spawning facility of the host consumes this
//! description at the edge of the library.

use vstd::prelude::*;

verus! {

/// Configuration of one standard I/O slot of the child.
#[derive(Clone, Copy, Debug, PartialEq, Eq, Structural)]
pub enum StdioCfg {
    /// Inherit the corresponding stream of the parent.
    Inherit,
    /// Connect the stream to the null device.
    Null,
    /// Connect the stream to a new pipe.
    Piped,
}

/// Mathematical view of a [`Command`].
pub ghost struct CommandView {
    /// The program to run.
    pub program: Seq<char>,
    /// Arguments, in order.
    pub args: Seq<Seq<char>>,
    /// Environment variables set for the child, in insertion order.
    pub envs: Seq<(Seq<char>, Seq<char>)>,
    /// Stdin configuration.
    pub stdin: StdioCfg,
    /// Stdout configuration.
    pub stdout: StdioCfg,
    /// Stderr configuration.
    pub stderr: StdioCfg,
    /// Unix: process group the child joins between fork and exec.
    /// `Some(0)` makes it the leader of a new group.
    pub process_group: Option<int>,
    /// Unix: whether the child calls `setsid` between fork and exec.
    pub new_session: bool,
    /// Unix: whether the child unblocks all signals between fork and exec.
    pub reset_sigmask: bool,
    /// Windows: process creation flags.
    pub creation_flags: u32,
    /// Whether dropping the child handle kills the process.
    pub kill_on_drop: bool,
}

/// A command builder: the program, its arguments and environment, the
/// stdio configuration, and the platform-specific spawn settings that
/// the wrappers manipulate. Mutable until handed to the host's spawn
/// facility.
#[derive(Debug)]
pub struct Command {
    /// The program to run.
    pub program: String,
    /// Arguments, in order.
    pub args: Vec<String>,
    /// Environment variables set for the child, in insertion order.
    pub envs: Vec<(String, String)>,
    /// Stdin configuration.
    pub stdin: StdioCfg,
    /// Stdout configuration.
    pub stdout: StdioCfg,
    /// Stderr configuration.
    pub stderr: StdioCfg,
    /// Unix: process group the child joins between fork and exec.
    /// `Some(0)` makes it the leader of a new group.
    pub process_group: Option<i32>,
    /// Unix: whether the child calls `setsid` between fork and exec.
    pub new_session: bool,
    /// Unix: whether the child unblocks all signals between fork and exec.
    pub reset_sigmask: bool,
    /// Windows: process creation flags.
    pub creation_flags: u32,
    /// Whether dropping the child handle kills the process.
    pub kill_on_drop: bool,
}

impl View for Command {
    type V = CommandView;

    open spec fn view(&self) -> CommandView {
        CommandView {
            program: self.program@,
            args: self.args@.map_values(|a: String| a@),
            envs: self.envs@.map_values(|e: (String, String)| (e.0@, e.1@)),
            stdin: self.stdin,
            stdout: self.stdout,
            stderr: self.stderr,
            process_group: match self.process_group {
                Some(g) => Some(g as int),
                None => None,
            },
            new_session: self.new_session,
            reset_sigmask: self.reset_sigmask,
            creation_flags: self.creation_flags,
            kill_on_drop: self.kill_on_drop,
        }
    }
}

impl CommandView {
    /// The view of a freshly created command for `program`: no
    /// arguments, no environment overrides, inherited stdio, and no
    /// platform-specific settings.
    pub open spec fn new_for(program: Seq<char>) -> CommandView {
        CommandView {
            program: program,
            args: Seq::empty(),
            envs: Seq::empty(),
            stdin: StdioCfg::Inherit,
            stdout: StdioCfg::Inherit,
            stderr: StdioCfg::Inherit,
            process_group: None,
            new_session: false,
            reset_sigmask: false,
            creation_flags: 0,
            kill_on_drop: false,
        }
    }
}

impl Command {
    /// Create a command for `program` with no arguments, no environment
    /// overrides, inherited stdio, and no platform-specific settings.
    pub fn new(program: &str) -> (r: Command)
        ensures
            r@ == CommandView::new_for(program@),
    {
        let r = Command {
            program: program.to_owned(),
            args: Vec::new(),
            envs: Vec::new(),
            stdin: StdioCfg::Inherit,
            stdout: StdioCfg::Inherit,
            stderr: StdioCfg::Inherit,
            process_group: None,
            new_session: false,
            reset_sigmask: false,
            creation_flags: 0,
            kill_on_drop: false,
        };
        proof {
            assert(r@.args =~= Seq::<Seq<char>>::empty());
            assert(r@.envs =~= Seq::<(Seq<char>, Seq<char>)>::empty());
            assert(r@ =~= CommandView::new_for(program@));
        }
        r
    }

    /// Append one argument.
    pub fn arg(&mut self, a: &str)
        ensures
            final(self)@ == (CommandView { args: old(self)@.args.push(a@), ..old(self)@ }),
    {
        self.args.push(a.to_owned());
        proof {
            assert(final(self)@.args =~= old(self)@.args.push(a@));
            assert(final(self)@ =~= (CommandView { args: old(self)@.args.push(a@), ..old(self)@ }));
        }
    }

    /// Set one environment variable for the child.
    pub fn env(&mut self, key: &str, value: &str)
        ensures
            final(self)@ == (CommandView { envs: old(self)@.envs.push((key@, value@)), ..old(self)@ }),
    {
        self.envs.push((key.to_owned(), value.to_owned()));
        proof {
            assert(final(self)@.envs =~= old(self)@.envs.push((key@, value@)));
            assert(final(self)@ =~= (CommandView { envs: old(self)@.envs.push((key@, value@)), ..old(self)@ }));
        }
    }

    /// Configure stdin.
    pub fn stdin(&mut self, cfg: StdioCfg)
        ensures
            final(self)@ == (CommandView { stdin: cfg, ..old(self)@ }),
    {
        self.stdin = cfg;
        proof {
            assert(final(self)@ =~= (CommandView { stdin: cfg, ..old(self)@ }));
        }
    }

    /// Configure stdout.
    pub fn stdout(&mut self, cfg: StdioCfg)
        ensures
            final(self)@ == (CommandView { stdout: cfg, ..old(self)@ }),
    {
        self.stdout = cfg;
        proof {
            assert(final(self)@ =~= (CommandView { stdout: cfg, ..old(self)@ }));
        }
    }

    /// Configure stderr.
    pub fn stderr(&mut self, cfg: StdioCfg)
        ensures
            final(self)@ == (CommandView { stderr: cfg, ..old(self)@ }),
    {
        self.stderr = cfg;
        proof {
            assert(final(self)@ =~= (CommandView { stderr: cfg, ..old(self)@ }));
        }
    }
}

} // verus!
