//! The command builder and its spawn policy.
//!
//! A [`Command`] accumulates configuration for a child process in an
//! `async_process::Command` delegate, and records beside it the three
//! facts the spawn policy turns on: whether each standard stream was
//! explicitly configured, whether a pre-exec composition has already been
//! installed, and which user pre-exec hook, if any, is pending.

use vstd::prelude::*;

use crate::delegate::{
    arg0_of, args_of, cmd_arg, cmd_arg0, cmd_current_dir, cmd_env, cmd_env_clear, cmd_env_remove,
    cmd_gid, cmd_new, cmd_spawn, cmd_stderr, cmd_stdin, cmd_stdout, cmd_uid, cwd_of,
    empty_env_plan, env_cleared_of, env_plan_of, gid_of, program_of, same_env, same_invocation,
    same_setup, same_streams, stderr_of, stdin_of, stdout_of, uid_of,
};
use crate::hook::{Composition, PreExecHook};

verus! {

/// A pseudo-terminal, reduced to the one thing the spawn policy reads of
/// it: the descriptor of its terminal side, the side handed to the child.
pub struct Pty {
    pts_fd: i32,
}

impl Pty {
    /// The descriptor of the pty's terminal side.
    pub closed spec fn pts_fd(self) -> i32 {
        self.pts_fd
    }

    /// Wraps the descriptor of a pty's terminal side.
    pub fn new(pts_fd: i32) -> (p: Pty)
        ensures
            p.pts_fd() == pts_fd,
    {
        Pty { pts_fd }
    }

    /// Hands out the descriptor of the terminal side.
    pub fn pts(&self) -> (fd: i32)
        ensures
            fd == self.pts_fd(),
    {
        self.pts_fd
    }
}

/// Why a spawn failed.
#[derive(Debug)]
pub enum SpawnError {
    /// Deriving the child's stream handles from the pty descriptor
    /// failed; no process was created and the builder is unchanged.
    SetupStdio(std::io::Error),
    /// The delegate failed to fork or exec the program.
    Spawn(std::io::Error),
}

/// The operating-system layer the spawn policy is parameterized over: it
/// derives the child's stream handles from the pty descriptor, and it
/// installs the composed pre-exec function into the delegate.
pub trait OsLayer<H: PreExecHook> {
    /// Produce three owned, inheritable stream handles connected to the
    /// pty whose terminal side is `pts_fd`, in the order stdin, stdout,
    /// stderr, or the I/O error that duplicating the descriptor gave.
    fn derive_stdio(
        &mut self,
        pts_fd: i32,
    ) -> Result<(async_process::Stdio, async_process::Stdio, async_process::Stdio), std::io::Error>;

    /// Install into `delegate` the one pre-exec function of this spawn:
    /// first the session-leader setup for `pts_fd`, then, if present,
    /// `user_hook`. The installed function runs in the child between
    /// fork and exec and must decide as
    /// [`spec_after_session_leader`](crate::hook::spec_after_session_leader)
    /// says.
    ///
    /// The contract below is a demand on every implementation, which the
    /// verifier takes on trust: installing the function leaves the rest
    /// of the delegate's configuration — streams, invocation,
    /// environment, directory, ids and argv[0] — exactly as it was, so
    /// that what the spawn policy configured is what the delegate forks
    /// with.
    fn install_pre_exec(
        &mut self,
        delegate: &mut async_process::Command,
        pts_fd: i32,
        user_hook: Option<H>,
    )
        ensures
            same_streams(*old(delegate), *final(delegate)),
            same_invocation(*old(delegate), *final(delegate)),
            same_env(*old(delegate), *final(delegate)),
            same_setup(*old(delegate), *final(delegate)),
    ;
}

/// The environment plan after recording each of `pairs` in order on top
/// of `plan`: every pair sets its variable, later pairs overriding
/// earlier ones.
pub open spec fn env_plan_with(
    plan: Map<Seq<char>, Option<Seq<char>>>,
    pairs: Seq<(Seq<char>, Seq<char>)>,
) -> Map<Seq<char>, Option<Seq<char>>>
    decreases pairs.len(),
{
    if pairs.len() == 0 {
        plan
    } else {
        env_plan_with(plan, pairs.drop_last()).insert(pairs.last().0, Some(pairs.last().1))
    }
}

/// A not-yet-spawned child process attached to a pty.
pub struct Command<H: PreExecHook> {
    delegate: async_process::Command,
    stdin_set: bool,
    stdout_set: bool,
    stderr_set: bool,
    pre_exec_composed: bool,
    user_pre_exec: Option<H>,
}

impl<H: PreExecHook> Command<H> {
    /// The delegate builder holding the accumulated configuration.
    pub closed spec fn delegate(self) -> async_process::Command {
        self.delegate
    }

    /// Whether the caller explicitly configured standard input.
    pub closed spec fn stdin_is_set(self) -> bool {
        self.stdin_set
    }

    /// Whether the caller explicitly configured standard output.
    pub closed spec fn stdout_is_set(self) -> bool {
        self.stdout_set
    }

    /// Whether the caller explicitly configured standard error.
    pub closed spec fn stderr_is_set(self) -> bool {
        self.stderr_set
    }

    /// Whether a spawn call has already installed a pre-exec
    /// composition into the delegate.
    pub closed spec fn composed(self) -> bool {
        self.pre_exec_composed
    }

    /// The pending user pre-exec hook, if one is registered.
    pub closed spec fn registered_hook(self) -> Option<H> {
        self.user_pre_exec
    }

    /// The stream flags and the pre-exec state of `b` are those of `a`.
    pub open spec fn same_policy_state(a: Command<H>, b: Command<H>) -> bool {
        &&& b.stdin_is_set() == a.stdin_is_set()
        &&& b.stdout_is_set() == a.stdout_is_set()
        &&& b.stderr_is_set() == a.stderr_is_set()
        &&& b.composed() == a.composed()
        &&& b.registered_hook() == a.registered_hook()
    }

    /// A builder for `program`, with no arguments, no stream configured,
    /// no pre-exec composition installed and no user hook pending.
    pub fn new(program: &str) -> (c: Command<H>)
        ensures
            program_of(c.delegate()) == program@,
            args_of(c.delegate()) == Seq::<Seq<char>>::empty(),
            stdin_of(c.delegate()) is None,
            stdout_of(c.delegate()) is None,
            stderr_of(c.delegate()) is None,
            env_plan_of(c.delegate()) == empty_env_plan(),
            !env_cleared_of(c.delegate()),
            cwd_of(c.delegate()) is None,
            uid_of(c.delegate()) is None,
            gid_of(c.delegate()) is None,
            arg0_of(c.delegate()) is None,
            !c.stdin_is_set(),
            !c.stdout_is_set(),
            !c.stderr_is_set(),
            !c.composed(),
            c.registered_hook() is None,
    {
        Command {
            delegate: cmd_new(program),
            stdin_set: false,
            stdout_set: false,
            stderr_set: false,
            pre_exec_composed: false,
            user_pre_exec: None,
        }
    }

    /// Appends one argument.
    pub fn arg(&mut self, arg: &str) -> (r: &mut Self)
        ensures
            args_of(r.delegate()) == args_of(old(self).delegate()).push(arg@),
            program_of(r.delegate()) == program_of(old(self).delegate()),
            same_streams(old(self).delegate(), r.delegate()),
            same_env(old(self).delegate(), r.delegate()),
            same_setup(old(self).delegate(), r.delegate()),
            Self::same_policy_state(*old(self), *r),
            *final(self) == *final(r),
    {
        cmd_arg(&mut self.delegate, arg);
        self
    }

    /// Appends each of `list` as one argument, in order.
    pub fn args(&mut self, list: &Vec<String>) -> (r: &mut Self)
        ensures
            args_of(r.delegate())
                == args_of(old(self).delegate()) + list@.map_values(|s: String| s@),
            program_of(r.delegate()) == program_of(old(self).delegate()),
            same_streams(old(self).delegate(), r.delegate()),
            same_env(old(self).delegate(), r.delegate()),
            same_setup(old(self).delegate(), r.delegate()),
            Self::same_policy_state(*old(self), *r),
            *final(self) == *final(r),
    {
        let ghost mapped = list@.map_values(|s: String| s@);
        let mut i: usize = 0;
        while i < list.len()
            invariant
                i <= list@.len(),
                mapped == list@.map_values(|s: String| s@),
                args_of(self.delegate())
                    == args_of(old(self).delegate()) + mapped.take(i as int),
                program_of(self.delegate()) == program_of(old(self).delegate()),
                same_streams(old(self).delegate(), self.delegate()),
                same_env(old(self).delegate(), self.delegate()),
                same_setup(old(self).delegate(), self.delegate()),
                Self::same_policy_state(*old(self), *self),
            decreases list@.len() - i,
        {
            self.arg(list[i].as_str());
            proof {
                assert(mapped.take(i + 1 as int) =~= mapped.take(i as int).push(list@[i as int]@));
            }
            i = i + 1;
        }
        proof {
            assert(mapped.take(list@.len() as int) =~= mapped);
        }
        self
    }

    /// Records one environment variable for the child, replacing any
    /// earlier entry for the same name.
    pub fn env(&mut self, key: &str, val: &str) -> (r: &mut Self)
        ensures
            env_plan_of(r.delegate())
                == env_plan_of(old(self).delegate()).insert(key@, Some(val@)),
            env_cleared_of(r.delegate()) == env_cleared_of(old(self).delegate()),
            same_invocation(old(self).delegate(), r.delegate()),
            same_streams(old(self).delegate(), r.delegate()),
            same_setup(old(self).delegate(), r.delegate()),
            Self::same_policy_state(*old(self), *r),
            *final(self) == *final(r),
    {
        cmd_env(&mut self.delegate, key, val);
        self
    }

    /// Records each of `vars` as an environment variable for the child,
    /// in order, later pairs overriding earlier ones.
    pub fn envs(&mut self, vars: &Vec<(String, String)>) -> (r: &mut Self)
        ensures
            env_plan_of(r.delegate()) == env_plan_with(
                env_plan_of(old(self).delegate()),
                vars@.map_values(|p: (String, String)| (p.0@, p.1@)),
            ),
            env_cleared_of(r.delegate()) == env_cleared_of(old(self).delegate()),
            same_invocation(old(self).delegate(), r.delegate()),
            same_streams(old(self).delegate(), r.delegate()),
            same_setup(old(self).delegate(), r.delegate()),
            Self::same_policy_state(*old(self), *r),
            *final(self) == *final(r),
    {
        let ghost mapped = vars@.map_values(|p: (String, String)| (p.0@, p.1@));
        let ghost base = env_plan_of(old(self).delegate());
        let mut i: usize = 0;
        while i < vars.len()
            invariant
                i <= vars@.len(),
                mapped == vars@.map_values(|p: (String, String)| (p.0@, p.1@)),
                base == env_plan_of(old(self).delegate()),
                env_plan_of(self.delegate()) == env_plan_with(base, mapped.take(i as int)),
                env_cleared_of(self.delegate()) == env_cleared_of(old(self).delegate()),
                same_invocation(old(self).delegate(), self.delegate()),
                same_streams(old(self).delegate(), self.delegate()),
                same_setup(old(self).delegate(), self.delegate()),
                Self::same_policy_state(*old(self), *self),
            decreases vars@.len() - i,
        {
            let pair = &vars[i];
            self.env(pair.0.as_str(), pair.1.as_str());
            proof {
                assert(mapped.take(i + 1 as int).drop_last() =~= mapped.take(i as int));
                assert(mapped.take(i + 1 as int).last() == mapped[i as int]);
            }
            i = i + 1;
        }
        proof {
            assert(mapped.take(vars@.len() as int) =~= mapped);
        }
        self
    }

    /// Ensures the child will not see the environment variable `key`:
    /// while the environment is inherited, a removal marker is recorded;
    /// once it has been cleared, nothing is inherited to block, so the
    /// key's own entry is simply dropped.
    pub fn env_remove(&mut self, key: &str) -> (r: &mut Self)
        ensures
            !env_cleared_of(old(self).delegate())
                ==> env_plan_of(r.delegate())
                    == env_plan_of(old(self).delegate()).insert(key@, None),
            env_cleared_of(old(self).delegate())
                ==> env_plan_of(r.delegate())
                    == env_plan_of(old(self).delegate()).remove(key@),
            env_cleared_of(r.delegate()) == env_cleared_of(old(self).delegate()),
            same_invocation(old(self).delegate(), r.delegate()),
            same_streams(old(self).delegate(), r.delegate()),
            same_setup(old(self).delegate(), r.delegate()),
            Self::same_policy_state(*old(self), *r),
            *final(self) == *final(r),
    {
        cmd_env_remove(&mut self.delegate, key);
        self
    }

    /// Clears the environment: the child inherits nothing, and every
    /// explicit entry recorded so far is dropped too.
    pub fn env_clear(&mut self) -> (r: &mut Self)
        ensures
            env_plan_of(r.delegate()) == empty_env_plan(),
            env_cleared_of(r.delegate()),
            same_invocation(old(self).delegate(), r.delegate()),
            same_streams(old(self).delegate(), r.delegate()),
            same_setup(old(self).delegate(), r.delegate()),
            Self::same_policy_state(*old(self), *r),
            *final(self) == *final(r),
    {
        cmd_env_clear(&mut self.delegate);
        self
    }

    /// Records the child's working directory.
    pub fn current_dir(&mut self, dir: &str) -> (r: &mut Self)
        ensures
            cwd_of(r.delegate()) == Some(dir@),
            uid_of(r.delegate()) == uid_of(old(self).delegate()),
            gid_of(r.delegate()) == gid_of(old(self).delegate()),
            arg0_of(r.delegate()) == arg0_of(old(self).delegate()),
            same_invocation(old(self).delegate(), r.delegate()),
            same_streams(old(self).delegate(), r.delegate()),
            same_env(old(self).delegate(), r.delegate()),
            Self::same_policy_state(*old(self), *r),
            *final(self) == *final(r),
    {
        cmd_current_dir(&mut self.delegate, dir);
        self
    }

    /// Records the user id the child will run under.
    pub fn uid(&mut self, id: u32) -> (r: &mut Self)
        ensures
            uid_of(r.delegate()) == Some(id),
            cwd_of(r.delegate()) == cwd_of(old(self).delegate()),
            gid_of(r.delegate()) == gid_of(old(self).delegate()),
            arg0_of(r.delegate()) == arg0_of(old(self).delegate()),
            same_invocation(old(self).delegate(), r.delegate()),
            same_streams(old(self).delegate(), r.delegate()),
            same_env(old(self).delegate(), r.delegate()),
            Self::same_policy_state(*old(self), *r),
            *final(self) == *final(r),
    {
        cmd_uid(&mut self.delegate, id);
        self
    }

    /// Records the group id the child will run under.
    pub fn gid(&mut self, id: u32) -> (r: &mut Self)
        ensures
            gid_of(r.delegate()) == Some(id),
            cwd_of(r.delegate()) == cwd_of(old(self).delegate()),
            uid_of(r.delegate()) == uid_of(old(self).delegate()),
            arg0_of(r.delegate()) == arg0_of(old(self).delegate()),
            same_invocation(old(self).delegate(), r.delegate()),
            same_streams(old(self).delegate(), r.delegate()),
            same_env(old(self).delegate(), r.delegate()),
            Self::same_policy_state(*old(self), *r),
            *final(self) == *final(r),
    {
        cmd_gid(&mut self.delegate, id);
        self
    }

    /// Overrides the name passed to the program as its zeroth argument.
    pub fn arg0(&mut self, arg: &str) -> (r: &mut Self)
        ensures
            arg0_of(r.delegate()) == Some(arg@),
            cwd_of(r.delegate()) == cwd_of(old(self).delegate()),
            uid_of(r.delegate()) == uid_of(old(self).delegate()),
            gid_of(r.delegate()) == gid_of(old(self).delegate()),
            same_invocation(old(self).delegate(), r.delegate()),
            same_streams(old(self).delegate(), r.delegate()),
            same_env(old(self).delegate(), r.delegate()),
            Self::same_policy_state(*old(self), *r),
            *final(self) == *final(r),
    {
        cmd_arg0(&mut self.delegate, arg);
        self
    }

    /// Explicitly configures the child's standard input, which the spawn
    /// policy will then leave untouched.
    pub fn stdin(&mut self, cfg: async_process::Stdio) -> (r: &mut Self)
        ensures
            r.stdin_is_set(),
            stdin_of(r.delegate()) == Some(cfg),
            stdout_of(r.delegate()) == stdout_of(old(self).delegate()),
            stderr_of(r.delegate()) == stderr_of(old(self).delegate()),
            same_invocation(old(self).delegate(), r.delegate()),
            same_env(old(self).delegate(), r.delegate()),
            same_setup(old(self).delegate(), r.delegate()),
            r.stdout_is_set() == old(self).stdout_is_set(),
            r.stderr_is_set() == old(self).stderr_is_set(),
            r.composed() == old(self).composed(),
            r.registered_hook() == old(self).registered_hook(),
            *final(self) == *final(r),
    {
        self.stdin_set = true;
        cmd_stdin(&mut self.delegate, cfg);
        self
    }

    /// Explicitly configures the child's standard output, which the
    /// spawn policy will then leave untouched.
    pub fn stdout(&mut self, cfg: async_process::Stdio) -> (r: &mut Self)
        ensures
            r.stdout_is_set(),
            stdout_of(r.delegate()) == Some(cfg),
            stdin_of(r.delegate()) == stdin_of(old(self).delegate()),
            stderr_of(r.delegate()) == stderr_of(old(self).delegate()),
            same_invocation(old(self).delegate(), r.delegate()),
            same_env(old(self).delegate(), r.delegate()),
            same_setup(old(self).delegate(), r.delegate()),
            r.stdin_is_set() == old(self).stdin_is_set(),
            r.stderr_is_set() == old(self).stderr_is_set(),
            r.composed() == old(self).composed(),
            r.registered_hook() == old(self).registered_hook(),
            *final(self) == *final(r),
    {
        self.stdout_set = true;
        cmd_stdout(&mut self.delegate, cfg);
        self
    }

    /// Explicitly configures the child's standard error, which the spawn
    /// policy will then leave untouched.
    pub fn stderr(&mut self, cfg: async_process::Stdio) -> (r: &mut Self)
        ensures
            r.stderr_is_set(),
            stderr_of(r.delegate()) == Some(cfg),
            stdin_of(r.delegate()) == stdin_of(old(self).delegate()),
            stdout_of(r.delegate()) == stdout_of(old(self).delegate()),
            same_invocation(old(self).delegate(), r.delegate()),
            same_env(old(self).delegate(), r.delegate()),
            same_setup(old(self).delegate(), r.delegate()),
            r.stdin_is_set() == old(self).stdin_is_set(),
            r.stdout_is_set() == old(self).stdout_is_set(),
            r.composed() == old(self).composed(),
            r.registered_hook() == old(self).registered_hook(),
            *final(self) == *final(r),
    {
        self.stderr_set = true;
        cmd_stderr(&mut self.delegate, cfg);
        self
    }

    /// Registers `f` to run in the child after fork and before exec,
    /// after the session-leader setup. Registering does not run `f`.
    /// Only one hook is pending at a time: a second registration
    /// replaces the first, which is then never run. `f` must be
    /// async-signal-safe, as [`PreExecHook`] demands.
    pub fn pre_exec(&mut self, f: H) -> (r: &mut Self)
        ensures
            r.registered_hook() == Some(f),
            r.delegate() == old(self).delegate(),
            r.stdin_is_set() == old(self).stdin_is_set(),
            r.stdout_is_set() == old(self).stdout_is_set(),
            r.stderr_is_set() == old(self).stderr_is_set(),
            r.composed() == old(self).composed(),
            *final(self) == *final(r),
    {
        self.user_pre_exec = Some(f);
        self
    }

    /// Installs the given pty-derived handle for each standard stream
    /// the caller never configured explicitly, and leaves every
    /// explicitly configured stream exactly as the caller set it.
    pub fn apply_stdio_defaults(
        &mut self,
        stdin_h: async_process::Stdio,
        stdout_h: async_process::Stdio,
        stderr_h: async_process::Stdio,
    )
        ensures
            !old(self).stdin_is_set()
                ==> stdin_of(final(self).delegate()) == Some(stdin_h),
            old(self).stdin_is_set()
                ==> stdin_of(final(self).delegate()) == stdin_of(old(self).delegate()),
            !old(self).stdout_is_set()
                ==> stdout_of(final(self).delegate()) == Some(stdout_h),
            old(self).stdout_is_set()
                ==> stdout_of(final(self).delegate()) == stdout_of(old(self).delegate()),
            !old(self).stderr_is_set()
                ==> stderr_of(final(self).delegate()) == Some(stderr_h),
            old(self).stderr_is_set()
                ==> stderr_of(final(self).delegate()) == stderr_of(old(self).delegate()),
            same_invocation(old(self).delegate(), final(self).delegate()),
            same_env(old(self).delegate(), final(self).delegate()),
            same_setup(old(self).delegate(), final(self).delegate()),
            Self::same_policy_state(*old(self), *final(self)),
    {
        if !self.stdin_set {
            cmd_stdin(&mut self.delegate, stdin_h);
        }
        if !self.stdout_set {
            cmd_stdout(&mut self.delegate, stdout_h);
        }
        if !self.stderr_set {
            cmd_stderr(&mut self.delegate, stderr_h);
        }
    }

    /// Decides what this spawn installs into the fork/exec window, and
    /// moves the builder into the composed state: a pending user hook is
    /// taken — the pending slot is left empty — and wrapped after the
    /// session-leader setup; with no pending hook the session-leader
    /// setup goes in alone, unless a previous spawn already installed a
    /// composition, in which case nothing is installed again.
    pub fn compose_pre_exec(&mut self) -> (c: Composition<H>)
        ensures
            old(self).registered_hook() matches Some(h)
                ==> c == Composition::SessionLeaderThenUser(h),
            old(self).registered_hook() is None && !old(self).composed()
                ==> c == Composition::<H>::SessionLeaderOnly,
            old(self).registered_hook() is None && old(self).composed()
                ==> c == Composition::<H>::AlreadyComposed,
            final(self).registered_hook() is None,
            final(self).composed(),
            final(self).delegate() == old(self).delegate(),
            final(self).stdin_is_set() == old(self).stdin_is_set(),
            final(self).stdout_is_set() == old(self).stdout_is_set(),
            final(self).stderr_is_set() == old(self).stderr_is_set(),
    {
        let was_composed = self.pre_exec_composed;
        self.pre_exec_composed = true;
        match self.user_pre_exec.take() {
            Some(h) => Composition::SessionLeaderThenUser(h),
            None => {
                if !was_composed {
                    Composition::SessionLeaderOnly
                } else {
                    Composition::AlreadyComposed
                }
            },
        }
    }

    /// Spawns the configured program as a child attached to `pty`: every
    /// stream the caller never configured gets a pty-derived handle, and
    /// the composed pre-exec function — session-leader setup first, then
    /// any pending user hook — is installed before the delegate forks.
    ///
    /// If deriving the stream handles fails, no process is created and
    /// the builder is left exactly as it was. Otherwise the composition
    /// is installed — the pending hook slot is emptied and the composed
    /// flag set, so a later spawn composes again only if a new hook has
    /// been registered since — and the
    /// delegate's own spawn failure, if any, is passed on unchanged.
    pub fn spawn<Os: OsLayer<H>>(
        &mut self,
        os: &mut Os,
        pty: &Pty,
    ) -> (r: Result<async_process::Child, SpawnError>)
        ensures
            r matches Err(e) && e is SetupStdio ==> *final(self) == *old(self),
            !(r matches Err(e) && e is SetupStdio) ==> {
                &&& final(self).composed()
                &&& final(self).registered_hook() is None
                &&& final(self).stdin_is_set() == old(self).stdin_is_set()
                &&& final(self).stdout_is_set() == old(self).stdout_is_set()
                &&& final(self).stderr_is_set() == old(self).stderr_is_set()
            },
    {
        let pts_fd = pty.pts();
        let handles = match os.derive_stdio(pts_fd) {
            Ok(handles) => handles,
            Err(e) => {
                return Err(SpawnError::SetupStdio(e));
            },
        };
        let (stdin_h, stdout_h, stderr_h) = handles;
        self.apply_stdio_defaults(stdin_h, stdout_h, stderr_h);
        match self.compose_pre_exec() {
            Composition::SessionLeaderOnly => {
                os.install_pre_exec(&mut self.delegate, pts_fd, None);
            },
            Composition::SessionLeaderThenUser(h) => {
                os.install_pre_exec(&mut self.delegate, pts_fd, Some(h));
            },
            Composition::AlreadyComposed => {},
        }
        match cmd_spawn(&mut self.delegate) {
            Ok(child) => Ok(child),
            Err(e) => Err(SpawnError::Spawn(e)),
        }
    }
}

} // verus!
