use vstd::prelude::*;

verus! {

/// How a subprocess that is no longer running came to an end.
#[derive(Clone, Copy, Debug, PartialEq, Eq, Structural)]
pub enum ExitCause {
    /// It exited by itself with this exit code.
    Code(i32),
    /// It was ended by a signal.
    Signal,
}

/// The answer of a non-blocking liveness query on the subprocess.
#[derive(Clone, Copy, Debug, PartialEq, Eq, Structural)]
pub enum ProcessStatus {
    Running,
    Exited(ExitCause),
    /// The operating system could not say.
    QueryFailed,
}

impl ProcessStatus {
    pub open spec fn is_alive(self) -> bool {
        self is Running
    }
}

/// The program that runs every command line: the command is handed to it
/// after [`SHELL_FLAG`], so pipes and redirections in it take effect.
pub const SHELL: &'static str = "sh";

pub const SHELL_FLAG: &'static str = "-c";

/// What to launch: `program` with `args`, stdin, stdout and stderr each
/// connected to a pipe, in the caller's working directory.
#[derive(Clone, Debug)]
pub struct LaunchPlan {
    pub program: String,
    pub args: Vec<String>,
}

impl LaunchPlan {
    /// The plan runs `cmd` through the shell and nothing else.
    pub open spec fn runs(self, cmd: Seq<char>) -> bool {
        &&& self.program@ == SHELL@
        &&& self.args@.len() == 2
        &&& self.args@[0]@ == SHELL_FLAG@
        &&& self.args@[1]@ == cmd
    }

    pub fn shell(cmd: &str) -> (r: LaunchPlan)
        ensures
            r.runs(cmd@),
    {
        let mut args: Vec<String> = Vec::new();
        args.push(SHELL_FLAG.to_owned());
        args.push(cmd.to_owned());
        LaunchPlan { program: SHELL.to_owned(), args }
    }
}

/// The two-phase shutdown of a running subprocess: close its input, wait
/// `exit_wait_ns` nanoseconds for it to leave by itself, send it SIGHUP,
/// then block until it has exited and reap it, and finally wait for the
/// stderr drain to finish.
#[derive(Clone, Copy, Debug, PartialEq, Eq, Structural)]
pub struct ShutdownPlan {
    pub exit_wait_ns: u64,
}

} // verus!
