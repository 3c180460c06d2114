//! Trusted boundary to the `async_process` crate.
//!
//! The builder delegates all real process configuration to
//! [`async_process::Command`]. That type is opaque to the verifier, so the
//! parts of its configuration that the library's contracts speak of are
//! given names here: the program, the argument list, the three explicitly
//! configured standard-stream handles, the environment plan, the working
//! directory, the privilege-drop ids and the argv[0] override. Each
//! wrapper states, over those names, what the corresponding
//! `async_process` method does.

use vstd::prelude::*;

use async_process::Command as ApCommand;

verus! {

/// The delegate process builder, `async_process::Command`.
#[verifier::external_type_specification]
#[verifier::external_body]
pub struct ExCommand(ApCommand);

/// An owned, inheritable handle for one standard stream of the child.
#[verifier::external_type_specification]
#[verifier::external_body]
pub struct ExStdio(async_process::Stdio);

/// A running child process, as the delegate's spawn hands it back.
#[verifier::external_type_specification]
#[verifier::external_body]
pub struct ExChild(async_process::Child);

/// The I/O error type the delegate and the operating-system layer report.
#[verifier::external_type_specification]
#[verifier::external_body]
pub struct ExIoError(std::io::Error);

/// The program that the delegate builder was created for.
pub uninterp spec fn program_of(c: async_process::Command) -> Seq<char>;

/// The arguments accumulated in the delegate builder, in the order they
/// will be passed to the program.
pub uninterp spec fn args_of(c: async_process::Command) -> Seq<Seq<char>>;

/// The handle most recently configured as the child's standard input,
/// or `None` if none was ever configured.
pub uninterp spec fn stdin_of(c: async_process::Command) -> Option<async_process::Stdio>;

/// The handle most recently configured as the child's standard output,
/// or `None` if none was ever configured.
pub uninterp spec fn stdout_of(c: async_process::Command) -> Option<async_process::Stdio>;

/// The handle most recently configured as the child's standard error,
/// or `None` if none was ever configured.
pub uninterp spec fn stderr_of(c: async_process::Command) -> Option<async_process::Stdio>;

/// The explicit environment changes recorded for the child: a variable
/// maps to `Some(value)` once set, and to `None` once marked removed.
pub uninterp spec fn env_plan_of(c: async_process::Command) -> Map<Seq<char>, Option<Seq<char>>>;

/// Whether the child's inherited environment has been cleared.
pub uninterp spec fn env_cleared_of(c: async_process::Command) -> bool;

/// The working directory configured for the child, or `None` for the
/// parent's own.
pub uninterp spec fn cwd_of(c: async_process::Command) -> Option<Seq<char>>;

/// The user id the child is configured to run under, or `None` for the
/// parent's own.
pub uninterp spec fn uid_of(c: async_process::Command) -> Option<u32>;

/// The group id the child is configured to run under, or `None` for the
/// parent's own.
pub uninterp spec fn gid_of(c: async_process::Command) -> Option<u32>;

/// The argv[0] override configured for the child, or `None` for the
/// program path itself.
pub uninterp spec fn arg0_of(c: async_process::Command) -> Option<Seq<char>>;

/// An environment plan with no entry recorded.
pub open spec fn empty_env_plan() -> Map<Seq<char>, Option<Seq<char>>> {
    Map::empty()
}

/// The three stream slots of `b` hold the same handles as those of `a`.
pub open spec fn same_streams(a: async_process::Command, b: async_process::Command) -> bool {
    &&& stdin_of(b) == stdin_of(a)
    &&& stdout_of(b) == stdout_of(a)
    &&& stderr_of(b) == stderr_of(a)
}

/// The program and argument list of `b` are the same as those of `a`.
pub open spec fn same_invocation(a: async_process::Command, b: async_process::Command) -> bool {
    &&& program_of(b) == program_of(a)
    &&& args_of(b) == args_of(a)
}

/// The environment plan of `b` is the same as that of `a`.
pub open spec fn same_env(a: async_process::Command, b: async_process::Command) -> bool {
    &&& env_plan_of(b) == env_plan_of(a)
    &&& env_cleared_of(b) == env_cleared_of(a)
}

/// The working directory, privilege-drop ids and argv[0] override of `b`
/// are the same as those of `a`.
pub open spec fn same_setup(a: async_process::Command, b: async_process::Command) -> bool {
    &&& cwd_of(b) == cwd_of(a)
    &&& uid_of(b) == uid_of(a)
    &&& gid_of(b) == gid_of(a)
    &&& arg0_of(b) == arg0_of(a)
}

/// Relies on `async_process::Command::new`: a fresh builder for `program`
/// with no arguments, no stream configured, no environment change
/// recorded, and no working directory, id or argv[0] override.
#[verifier::external_body]
pub(crate) fn cmd_new(program: &str) -> (c: async_process::Command)
    ensures
        program_of(c) == program@,
        args_of(c) == Seq::<Seq<char>>::empty(),
        stdin_of(c) is None,
        stdout_of(c) is None,
        stderr_of(c) is None,
        env_plan_of(c) == empty_env_plan(),
        env_cleared_of(c) == false,
        cwd_of(c) is None,
        uid_of(c) is None,
        gid_of(c) is None,
        arg0_of(c) is None,
{
    async_process::Command::new(program)
}

/// Relies on `async_process::Command::arg`: appends one argument and
/// changes nothing else.
#[verifier::external_body]
pub(crate) fn cmd_arg(c: &mut async_process::Command, arg: &str)
    ensures
        args_of(*final(c)) == args_of(*old(c)).push(arg@),
        program_of(*final(c)) == program_of(*old(c)),
        same_streams(*old(c), *final(c)),
        same_env(*old(c), *final(c)),
        same_setup(*old(c), *final(c)),
{
    c.arg(arg);
}

/// Relies on `async_process::Command::env`: records that `key` is set to
/// `val` for the child, replacing any earlier entry for `key`; nothing
/// else changes.
#[verifier::external_body]
pub(crate) fn cmd_env(c: &mut async_process::Command, key: &str, val: &str)
    ensures
        env_plan_of(*final(c)) == env_plan_of(*old(c)).insert(key@, Some(val@)),
        env_cleared_of(*final(c)) == env_cleared_of(*old(c)),
        same_invocation(*old(c), *final(c)),
        same_streams(*old(c), *final(c)),
        same_setup(*old(c), *final(c)),
{
    c.env(key, val);
}

/// Relies on `async_process::Command::env_remove`: the child will not
/// see `key` — while the environment is inherited, a removal marker is
/// recorded; once it has been cleared, nothing is inherited to block, so
/// the key's own entry is simply dropped. Every other entry, and
/// everything else, is unchanged.
#[verifier::external_body]
pub(crate) fn cmd_env_remove(c: &mut async_process::Command, key: &str)
    ensures
        env_cleared_of(*old(c)) == false
            ==> env_plan_of(*final(c)) == env_plan_of(*old(c)).insert(key@, None),
        env_cleared_of(*old(c)) == true
            ==> env_plan_of(*final(c)) == env_plan_of(*old(c)).remove(key@),
        env_cleared_of(*final(c)) == env_cleared_of(*old(c)),
        same_invocation(*old(c), *final(c)),
        same_streams(*old(c), *final(c)),
        same_setup(*old(c), *final(c)),
{
    c.env_remove(key);
}

/// Relies on `async_process::Command::env_clear`: the child inherits no
/// environment, and every explicit entry recorded so far is dropped too;
/// nothing else changes.
#[verifier::external_body]
pub(crate) fn cmd_env_clear(c: &mut async_process::Command)
    ensures
        env_plan_of(*final(c)) == empty_env_plan(),
        env_cleared_of(*final(c)) == true,
        same_invocation(*old(c), *final(c)),
        same_streams(*old(c), *final(c)),
        same_setup(*old(c), *final(c)),
{
    c.env_clear();
}

/// Relies on `async_process::Command::current_dir`: records `dir` as the
/// child's working directory; nothing else changes.
#[verifier::external_body]
pub(crate) fn cmd_current_dir(c: &mut async_process::Command, dir: &str)
    ensures
        cwd_of(*final(c)) == Some(dir@),
        uid_of(*final(c)) == uid_of(*old(c)),
        gid_of(*final(c)) == gid_of(*old(c)),
        arg0_of(*final(c)) == arg0_of(*old(c)),
        same_invocation(*old(c), *final(c)),
        same_streams(*old(c), *final(c)),
        same_env(*old(c), *final(c)),
{
    c.current_dir(dir);
}

/// Relies on `async_process::unix::CommandExt::uid`: records the user id
/// the child will run under; nothing else changes.
#[verifier::external_body]
pub(crate) fn cmd_uid(c: &mut async_process::Command, id: u32)
    ensures
        uid_of(*final(c)) == Some(id),
        cwd_of(*final(c)) == cwd_of(*old(c)),
        gid_of(*final(c)) == gid_of(*old(c)),
        arg0_of(*final(c)) == arg0_of(*old(c)),
        same_invocation(*old(c), *final(c)),
        same_streams(*old(c), *final(c)),
        same_env(*old(c), *final(c)),
{
    async_process::unix::CommandExt::uid(c, id);
}

/// Relies on `async_process::unix::CommandExt::gid`: records the group id
/// the child will run under; nothing else changes.
#[verifier::external_body]
pub(crate) fn cmd_gid(c: &mut async_process::Command, id: u32)
    ensures
        gid_of(*final(c)) == Some(id),
        cwd_of(*final(c)) == cwd_of(*old(c)),
        uid_of(*final(c)) == uid_of(*old(c)),
        arg0_of(*final(c)) == arg0_of(*old(c)),
        same_invocation(*old(c), *final(c)),
        same_streams(*old(c), *final(c)),
        same_env(*old(c), *final(c)),
{
    async_process::unix::CommandExt::gid(c, id);
}

/// Relies on `async_process::unix::CommandExt::arg0`: records `arg` as
/// the name passed to the program as its zeroth argument; the argument
/// list itself, the program and everything else are untouched.
#[verifier::external_body]
pub(crate) fn cmd_arg0(c: &mut async_process::Command, arg: &str)
    ensures
        arg0_of(*final(c)) == Some(arg@),
        cwd_of(*final(c)) == cwd_of(*old(c)),
        uid_of(*final(c)) == uid_of(*old(c)),
        gid_of(*final(c)) == gid_of(*old(c)),
        same_invocation(*old(c), *final(c)),
        same_streams(*old(c), *final(c)),
        same_env(*old(c), *final(c)),
{
    async_process::unix::CommandExt::arg0(c, arg);
}

/// Relies on `async_process::Command::stdin`: installs `cfg` as the
/// child's standard input and changes nothing else.
#[verifier::external_body]
pub(crate) fn cmd_stdin(c: &mut async_process::Command, cfg: async_process::Stdio)
    ensures
        stdin_of(*final(c)) == Some(cfg),
        stdout_of(*final(c)) == stdout_of(*old(c)),
        stderr_of(*final(c)) == stderr_of(*old(c)),
        same_invocation(*old(c), *final(c)),
        same_env(*old(c), *final(c)),
        same_setup(*old(c), *final(c)),
{
    c.stdin(cfg);
}

/// Relies on `async_process::Command::stdout`: installs `cfg` as the
/// child's standard output and changes nothing else.
#[verifier::external_body]
pub(crate) fn cmd_stdout(c: &mut async_process::Command, cfg: async_process::Stdio)
    ensures
        stdout_of(*final(c)) == Some(cfg),
        stdin_of(*final(c)) == stdin_of(*old(c)),
        stderr_of(*final(c)) == stderr_of(*old(c)),
        same_invocation(*old(c), *final(c)),
        same_env(*old(c), *final(c)),
        same_setup(*old(c), *final(c)),
{
    c.stdout(cfg);
}

/// Relies on `async_process::Command::stderr`: installs `cfg` as the
/// child's standard error and changes nothing else.
#[verifier::external_body]
pub(crate) fn cmd_stderr(c: &mut async_process::Command, cfg: async_process::Stdio)
    ensures
        stderr_of(*final(c)) == Some(cfg),
        stdin_of(*final(c)) == stdin_of(*old(c)),
        stdout_of(*final(c)) == stdout_of(*old(c)),
        same_invocation(*old(c), *final(c)),
        same_env(*old(c), *final(c)),
        same_setup(*old(c), *final(c)),
{
    c.stderr(cfg);
}

/// Relies on `async_process::Command::spawn`: forks and execs the
/// configured program, handing back the child on success and the first
/// failure otherwise. Success depends on the operating system, so nothing
/// is promised of the outcome; streams this builder never configured are
/// stamped at this point, so nothing is promised of the slots either.
/// The first spawn in a process also initializes the delegate crate's
/// global child reaper, which panics rather than returning an error if
/// the system cannot create its thread or its signal pipe.
#[verifier::external_body]
pub(crate) fn cmd_spawn(c: &mut async_process::Command) -> Result<async_process::Child, std::io::Error> {
    c.spawn()
}

} // verus!
