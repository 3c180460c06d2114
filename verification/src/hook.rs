//! The pre-exec hook model.
//!
//! Between fork and exec the child may only run async-signal-safe code.
//! The builder installs exactly one function into that window; this module
//! models what that function consists of and, step by step, what it
//! decides. A hook is a value of a caller-chosen type implementing
//! [`PreExecHook`], kept distinct from a general closure so that the
//! restricted calling context stays visible in the signature.

use vstd::prelude::*;

verus! {

/// A caller-supplied function to run in the child after fork and before
/// exec. The implementation must be async-signal-safe: no heap
/// allocation, no locking, no calls into non-reentrant library code.
pub trait PreExecHook: Send + Sync {
    fn run(&mut self) -> Result<(), std::io::Error>;
}

/// A hook that does nothing, for builders whose callers register no
/// pre-exec function of their own.
pub struct NoopHook;

impl PreExecHook for NoopHook {
    fn run(&mut self) -> (r: Result<(), std::io::Error>)
        ensures
            r is Ok,
    {
        Ok(())
    }
}

/// One step of the single function installed into the fork/exec window.
#[derive(PartialEq, Eq, Structural)]
pub enum Step {
    /// Make the child a session leader and set the pty as its
    /// controlling terminal.
    SessionLeader,
    /// Run the caller's registered pre-exec hook.
    UserHook,
}

/// What the builder decides to install into the fork/exec window on one
/// spawn call.
pub enum Composition<H> {
    /// Install the session-leader setup alone.
    SessionLeaderOnly,
    /// Install the session-leader setup followed by the given user hook.
    SessionLeaderThenUser(H),
    /// Install nothing: a previous spawn already composed, and no new
    /// user hook was registered since.
    AlreadyComposed,
}

/// The steps the installed function performs, in execution order.
pub open spec fn plan_steps<H>(c: Composition<H>) -> Seq<Step> {
    match c {
        Composition::SessionLeaderOnly => seq![Step::SessionLeader],
        Composition::SessionLeaderThenUser(_) => seq![Step::SessionLeader, Step::UserHook],
        Composition::AlreadyComposed => Seq::<Step>::empty(),
    }
}

/// Whenever a spawn installs anything into the fork/exec window, the
/// session-leader setup is its first step, and a user hook, if present,
/// comes strictly after it — never before, never without it.
pub proof fn lemma_session_leader_first<H>(c: Composition<H>)
    ensures
        plan_steps(c).len() > 0 ==> plan_steps(c)[0] == Step::SessionLeader,
        forall|i: int|
            0 <= i < plan_steps(c).len() && #[trigger] plan_steps(c)[i] == Step::UserHook
                ==> i == 1 && plan_steps(c)[0] == Step::SessionLeader,
{
}

/// What the installed function does once the session-leader setup has
/// returned.
pub enum AfterLeader {
    /// The session-leader setup failed: fail the whole pre-exec with its
    /// error, without running any user hook; the child will exit without
    /// calling exec.
    Abort(std::io::Error),
    /// The session-leader setup succeeded and a user hook is registered:
    /// run it next, and the pre-exec succeeds or fails as it does.
    RunUserHook,
    /// The session-leader setup succeeded and no user hook is
    /// registered: the pre-exec is complete and exec follows.
    Exec,
}

/// The decision the installed function takes after the session-leader
/// setup returns `leader_result`, when a user hook is registered iff
/// `user_hook_present`.
pub open spec fn spec_after_session_leader(
    leader_result: Result<(), std::io::Error>,
    user_hook_present: bool,
) -> AfterLeader {
    match leader_result {
        Err(e) => AfterLeader::Abort(e),
        Ok(_) => if user_hook_present {
            AfterLeader::RunUserHook
        } else {
            AfterLeader::Exec
        },
    }
}

/// Decides what the installed pre-exec function does after its first
/// step. A failed session-leader setup aborts with that very error and
/// the user hook is not consulted; a successful one hands over to the
/// user hook exactly when one is registered.
pub fn after_session_leader(
    leader_result: Result<(), std::io::Error>,
    user_hook_present: bool,
) -> (r: AfterLeader)
    ensures
        r == spec_after_session_leader(leader_result, user_hook_present),
{
    match leader_result {
        Err(e) => AfterLeader::Abort(e),
        Ok(()) => if user_hook_present {
            AfterLeader::RunUserHook
        } else {
            AfterLeader::Exec
        },
    }
}

/// If the session-leader setup fails, the user hook never runs — the
/// decision is to abort with the setup's own error, whether or not a
/// hook is registered — and the pre-exec as a whole fails.
pub proof fn lemma_leader_failure_blocks_user_hook(
    leader_result: Result<(), std::io::Error>,
    user_hook_present: bool,
)
    requires
        leader_result is Err,
    ensures
        spec_after_session_leader(leader_result, user_hook_present) != AfterLeader::RunUserHook,
        spec_after_session_leader(leader_result, user_hook_present) != AfterLeader::Exec,
        spec_after_session_leader(leader_result, user_hook_present)
            == AfterLeader::Abort(leader_result->Err_0),
{
}

/// If the session-leader setup succeeds and a user hook is registered,
/// the hook does run — strictly after the session-leader step.
pub proof fn lemma_leader_success_runs_user_hook(leader_result: Result<(), std::io::Error>)
    requires
        leader_result is Ok,
    ensures
        spec_after_session_leader(leader_result, true) == AfterLeader::RunUserHook,
        spec_after_session_leader(leader_result, false) == AfterLeader::Exec,
{
}

} // verus!
