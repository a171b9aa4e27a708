//! The last gate before the process image is replaced: the verdict of the
//! chosen backend, the target command, and the reasons an exec can fail.

use vstd::prelude::*;
use crate::policy::{authorization_of, Authorization};

verus! {

/// Why the tool was invoked wrongly.
#[derive(Clone, Copy, Debug, PartialEq, Eq, Structural)]
pub enum UsageError {
    /// No target program was named.
    MissingTarget,
}

/// Why replacing the process image failed.
#[derive(Clone, Copy, Debug, PartialEq, Eq, Structural)]
pub enum ExecError {
    NotFound,
    NotExecutable,
    SystemLimit,
}

/// Why the invoking user was turned away.
#[derive(Clone, Copy, Debug, PartialEq, Eq, Structural)]
pub enum DenyReason {
    /// The policy does not let the user through.
    NotAuthorized,
    /// The backend refused the user's credentials.
    NotAuthenticated,
}

/// The outcome of the authentication flow.
#[derive(Clone, Copy, Debug, PartialEq, Eq, Structural)]
pub enum AuthVerdict {
    Authorized,
    Denied(DenyReason),
}

/// Why no command is started.
#[derive(Clone, Copy, Debug, PartialEq, Eq, Structural)]
pub enum Refusal {
    Denied(DenyReason),
    Usage(UsageError),
}

/// The command that replaces the process: a program and its arguments.
#[derive(Debug)]
pub struct ExecPlan {
    pub program: String,
    pub args: Vec<String>,
}

/// The verdict of the flow, given the policy's answer and whether the
/// backend it chose accepted the user.
pub open spec fn verdict_spec(auth: Authorization, authenticated: bool) -> AuthVerdict {
    match auth {
        Authorization::Deny => AuthVerdict::Denied(DenyReason::NotAuthorized),
        Authorization::Allow(_) => if authenticated {
            AuthVerdict::Authorized
        } else {
            AuthVerdict::Denied(DenyReason::NotAuthenticated)
        },
    }
}

/// Combines the policy's answer with the backend's: only an allowed user
/// whom the backend accepted is authorized.
pub fn verdict_of(auth: Authorization, authenticated: bool) -> (r: AuthVerdict)
    ensures
        r == verdict_spec(auth, authenticated),
{
    match auth {
        Authorization::Deny => AuthVerdict::Denied(DenyReason::NotAuthorized),
        Authorization::Allow(_) => if authenticated {
            AuthVerdict::Authorized
        } else {
            AuthVerdict::Denied(DenyReason::NotAuthenticated)
        },
    }
}

/// The command named by the arguments that follow the tool's own name: the
/// first is the program, the rest its arguments. Without any, there is no
/// target and nothing is to be started.
pub fn exec_plan(trailing: &Vec<String>) -> (r: Result<ExecPlan, UsageError>)
    ensures
        r is Err <==> trailing.len() == 0,
        r matches Err(e) ==> e == UsageError::MissingTarget,
        r matches Ok(p) ==> p.program@ == trailing[0]@ && p.args.deep_view()
            == trailing.deep_view().drop_first(),
{
    if trailing.len() == 0 {
        return Err(UsageError::MissingTarget);
    }
    let program = trailing[0].clone();
    let mut args: Vec<String> = Vec::new();
    let mut i: usize = 1;
    while i < trailing.len()
        invariant
            1 <= i <= trailing.len(),
            args.len() == i - 1,
            forall|k: int| 0 <= k < args.len() ==> (#[trigger] args[k])@ == trailing[k + 1]@,
        decreases trailing.len() - i,
    {
        args.push(trailing[i].clone());
        i = i + 1;
    }
    assert(args.deep_view() =~= trailing.deep_view().drop_first());
    Ok(ExecPlan { program, args })
}

/// Decides whether a command is started: a denied user is turned away first; an
/// authorized one needs a target program.
pub fn gate(verdict: AuthVerdict, trailing: &Vec<String>) -> (r: Result<ExecPlan, Refusal>)
    ensures
        verdict matches AuthVerdict::Denied(d) ==> r == Err::<ExecPlan, Refusal>(Refusal::Denied(d)),
        verdict is Authorized && trailing.len() == 0 ==> r == Err::<ExecPlan, Refusal>(
            Refusal::Usage(UsageError::MissingTarget),
        ),
        verdict is Authorized && trailing.len() > 0 ==> (r matches Ok(p) && p.program@
            == trailing[0]@ && p.args.deep_view() == trailing.deep_view().drop_first()),
{
    match verdict {
        AuthVerdict::Denied(d) => Err(Refusal::Denied(d)),
        AuthVerdict::Authorized => match exec_plan(trailing) {
            Ok(p) => Ok(p),
            Err(e) => Err(Refusal::Usage(e)),
        },
    }
}

/// The error numbers of a failed exec, as the C library reports them.
pub const ENOENT: i32 = 2;
pub const E2BIG: i32 = 7;
pub const EAGAIN: i32 = 11;
pub const ENOMEM: i32 = 12;
pub const ENOTDIR: i32 = 20;
pub const ENFILE: i32 = 23;
pub const EMFILE: i32 = 24;

/// The class of a failed exec, by error number.
pub open spec fn exec_error_spec(errno: i32) -> ExecError {
    if errno == ENOENT || errno == ENOTDIR {
        ExecError::NotFound
    } else if errno == E2BIG || errno == EAGAIN || errno == ENOMEM || errno == ENFILE || errno
        == EMFILE {
        ExecError::SystemLimit
    } else {
        ExecError::NotExecutable
    }
}

/// Classifies a failed exec: a missing program or path, a system limit
/// (argument size, memory, processes, open files), or a program that cannot
/// be run.
pub fn exec_error_of(errno: i32) -> (r: ExecError)
    ensures
        r == exec_error_spec(errno),
{
    if errno == ENOENT || errno == ENOTDIR {
        ExecError::NotFound
    } else if errno == E2BIG || errno == EAGAIN || errno == ENOMEM || errno == ENFILE || errno
        == EMFILE {
        ExecError::SystemLimit
    } else {
        ExecError::NotExecutable
    }
}

/// Fail-closed on an unreadable policy: every user is denied, whatever the
/// backend would have answered for their password.
pub proof fn lemma_unreadable_policy_denies(user: Seq<char>, authenticated: bool)
    ensures
        verdict_spec(authorization_of(None, user), authenticated) == AuthVerdict::Denied(
            DenyReason::NotAuthorized,
        ),
{
}

} // verus!
