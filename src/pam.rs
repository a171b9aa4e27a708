//! The pluggable-authentication backend: the decisions of one session,
//! from start to release, and the answers of the conversation handler.
//!
//! The caller owns the framework handle. It performs the action that the
//! session names, hands the status code back, and repeats until the session
//! names its verdict (or asks for an abort).

use vstd::prelude::*;
use crate::pam_types::PamReturn;

verus! {

/// The service name under which this tool opens sessions.
pub const SERVICE_NAME: &'static str = "doit";

/// The status code of success.
pub const PAM_SUCCESS: i32 = 0;

/// Message style of a prompt whose answer is not echoed (a password).
pub const PAM_PROMPT_ECHO_OFF: i32 = 1;

/// Message style of a prompt whose answer is echoed.
pub const PAM_PROMPT_ECHO_ON: i32 = 2;

/// Message style of an error text.
pub const PAM_ERROR_MSG: i32 = 3;

/// Message style of an informational text.
pub const PAM_TEXT_INFO: i32 = 4;

/// The stage at which a session failed.
#[derive(Clone, Copy, Debug, PartialEq, Eq, Structural)]
pub enum PamError {
    StartFailed,
    AuthFailed,
    AccountInvalid,
    /// The session could not be released: the process must abort.
    SessionEndFailed,
}

/// Where a session stands.
#[derive(Clone, Copy, Debug)]
pub enum PamStage {
    /// Nothing has been asked of the framework yet.
    Created,
    /// The session exists; the user is to be authenticated.
    Started,
    /// The user is authenticated; the account is to be validated.
    Authenticated,
    /// The session is to be released; `failure` is the stage that failed,
    /// if one did.
    Releasing { failure: Option<PamError> },
    /// Terminal: the session is over (or never existed).
    Ended { failure: Option<PamError> },
    /// Terminal: the session could not be released.
    Aborted,
}

/// What the caller is to do next.
#[derive(Clone, Copy, Debug, PartialEq, Eq, Structural)]
pub enum PamAction {
    /// Start a session for the service and the user.
    Start,
    /// Run the authenticate step.
    Authenticate,
    /// Run the account-validity check.
    ValidateAccount,
    /// Release the session, passing the given status code.
    End(i32),
    /// The session is over: report whether the user passed.
    Finish(bool),
    /// The session could not be released: abort the process.
    Abort,
}

/// One authentication attempt against the framework.
#[derive(Clone, Copy, Debug)]
pub struct PamSession {
    pub stage: PamStage,
    /// The status code of the last step performed.
    pub last_status: i32,
}

/// Whether a session has nothing left to do.
pub open spec fn is_terminal(s: PamSession) -> bool {
    s.stage is Ended || s.stage is Aborted
}

/// The action that a session asks for.
pub open spec fn action_of(s: PamSession) -> PamAction {
    match s.stage {
        PamStage::Created => PamAction::Start,
        PamStage::Started => PamAction::Authenticate,
        PamStage::Authenticated => PamAction::ValidateAccount,
        PamStage::Releasing { .. } => PamAction::End(s.last_status),
        PamStage::Ended { failure } => PamAction::Finish(failure is None),
        PamStage::Aborted => PamAction::Abort,
    }
}

/// The session after the action it asked for returned `status`. A failed
/// start leaves nothing to release; every later failure, and success, goes
/// through the release; a failed release aborts.
pub open spec fn step(s: PamSession, status: i32) -> PamSession {
    let ok = status == PAM_SUCCESS;
    let stage = match s.stage {
        PamStage::Created => if ok {
            PamStage::Started
        } else {
            PamStage::Ended { failure: Some(PamError::StartFailed) }
        },
        PamStage::Started => if ok {
            PamStage::Authenticated
        } else {
            PamStage::Releasing { failure: Some(PamError::AuthFailed) }
        },
        PamStage::Authenticated => if ok {
            PamStage::Releasing { failure: None }
        } else {
            PamStage::Releasing { failure: Some(PamError::AccountInvalid) }
        },
        PamStage::Releasing { failure } => if ok {
            PamStage::Ended { failure }
        } else {
            PamStage::Aborted
        },
        other => other,
    };
    PamSession { stage, last_status: status }
}

/// A fresh session.
pub open spec fn initial_session() -> PamSession {
    PamSession { stage: PamStage::Created, last_status: PAM_SUCCESS }
}

impl PamSession {
    /// A session on which nothing has been done yet.
    pub fn new() -> (r: PamSession)
        ensures
            r == initial_session(),
    {
        PamSession { stage: PamStage::Created, last_status: PAM_SUCCESS }
    }

    /// The action that the caller is to perform next.
    pub fn next_action(&self) -> (r: PamAction)
        ensures
            r == action_of(*self),
    {
        match self.stage {
            PamStage::Created => PamAction::Start,
            PamStage::Started => PamAction::Authenticate,
            PamStage::Authenticated => PamAction::ValidateAccount,
            PamStage::Releasing { .. } => PamAction::End(self.last_status),
            PamStage::Ended { failure } => PamAction::Finish(failure.is_none()),
            PamStage::Aborted => PamAction::Abort,
        }
    }

    /// Records the status code that the last action returned.
    pub fn advance(&mut self, status: i32)
        requires
            !is_terminal(*old(self)),
        ensures
            *final(self) == step(*old(self), status),
    {
        let ok = status == PAM_SUCCESS;
        let stage = match self.stage {
            PamStage::Created => if ok {
                PamStage::Started
            } else {
                PamStage::Ended { failure: Some(PamError::StartFailed) }
            },
            PamStage::Started => if ok {
                PamStage::Authenticated
            } else {
                PamStage::Releasing { failure: Some(PamError::AuthFailed) }
            },
            PamStage::Authenticated => if ok {
                PamStage::Releasing { failure: None }
            } else {
                PamStage::Releasing { failure: Some(PamError::AccountInvalid) }
            },
            PamStage::Releasing { failure } => if ok {
                PamStage::Ended { failure }
            } else {
                PamStage::Aborted
            },
            other => other,
        };
        self.stage = stage;
        self.last_status = status;
    }

    /// The stage that failed, for diagnostics, once the session is over.
    pub fn failure(&self) -> (r: Option<PamError>)
        ensures
            r == match self.stage {
                PamStage::Ended { failure } => failure,
                PamStage::Aborted => Some(PamError::SessionEndFailed),
                _ => None,
            },
    {
        match self.stage {
            PamStage::Ended { failure } => failure,
            PamStage::Aborted => Some(PamError::SessionEndFailed),
            _ => None,
        }
    }
}

/// One message that the framework sends through the conversation handler.
#[derive(Debug)]
pub struct PamMessage {
    pub style: i32,
    pub text: String,
}

/// A batch that the handler can answer: no message is missing (a null
/// pointer on the framework's side).
pub open spec fn is_well_formed(batch: Seq<Option<PamMessage>>) -> bool {
    forall|i: int| 0 <= i < batch.len() ==> #[trigger] batch[i] is Some
}

/// The answer to a message of the given style: the credential captured
/// before the session for a password prompt, nothing for any other style.
pub open spec fn response_for(style: i32, credential: Seq<char>) -> Seq<char> {
    if style == PAM_PROMPT_ECHO_OFF {
        credential
    } else {
        Seq::empty()
    }
}

/// The conversation handler: answers every message of the batch, in order,
/// from the credential captured beforehand; a batch with a missing message
/// fails the conversation step with `ConvErr`.
pub fn converse(batch: &Vec<Option<PamMessage>>, credential: &str) -> (r: Result<
    Vec<String>,
    PamReturn,
>)
    ensures
        r is Ok <==> is_well_formed(batch@),
        r matches Err(e) ==> e == PamReturn::ConvErr,
        r matches Ok(rs) ==> rs.len() == batch.len() && forall|i: int|
            0 <= i < rs.len() ==> (#[trigger] rs[i])@ == response_for(
                batch[i]->Some_0.style,
                credential@,
            ),
{
    let mut out: Vec<String> = Vec::new();
    let mut i: usize = 0;
    while i < batch.len()
        invariant
            i <= batch.len(),
            out.len() == i,
            forall|k: int| 0 <= k < i ==> #[trigger] batch[k] is Some,
            forall|k: int|
                0 <= k < i ==> (#[trigger] out[k])@ == response_for(
                    batch[k]->Some_0.style,
                    credential@,
                ),
        decreases batch.len() - i,
    {
        match &batch[i] {
            None => {
                return Err(PamReturn::ConvErr);
            },
            Some(m) => {
                if m.style == PAM_PROMPT_ECHO_OFF {
                    out.push(credential.to_owned());
                } else {
                    out.push(String::new());
                }
            },
        }
        i = i + 1;
    }
    Ok(out)
}

/// The session after each status code of `statuses` in turn.
pub open spec fn run(s: PamSession, statuses: Seq<i32>) -> PamSession
    decreases statuses.len(),
{
    if statuses.len() == 0 {
        s
    } else {
        run(step(s, statuses[0]), statuses.drop_first())
    }
}

/// How many times a release is asked for while the statuses are handed in.
pub open spec fn releases(s: PamSession, statuses: Seq<i32>) -> nat
    decreases statuses.len(),
{
    if statuses.len() == 0 {
        0
    } else {
        (if s.stage is Releasing { 1nat } else { 0nat }) + releases(
            step(s, statuses[0]),
            statuses.drop_first(),
        )
    }
}

proof fn lemma_release_count(s: PamSession, statuses: Seq<i32>)
    requires
        s.stage is Started || s.stage is Authenticated || s.stage is Releasing,
        run(s, statuses).stage is Ended,
    ensures
        releases(s, statuses) == 1,
    decreases statuses.len(),
{
    let t = step(s, statuses[0]);
    let rest = statuses.drop_first();
    if t.stage is Ended {
        lemma_terminal_stays(t, rest);
    } else if t.stage is Aborted {
        lemma_terminal_stays(t, rest);
    } else {
        lemma_release_count(t, rest);
    }
}

proof fn lemma_terminal_stays(s: PamSession, statuses: Seq<i32>)
    requires
        is_terminal(s),
    ensures
        releases(s, statuses) == 0,
        run(s, statuses).stage == s.stage,
    decreases statuses.len(),
{
    if statuses.len() > 0 {
        lemma_terminal_stays(step(s, statuses[0]), statuses.drop_first());
    }
}

/// Release on every path: once a session has started, it ends (and yields
/// a verdict) only after exactly one release, whichever stage failed.
pub proof fn lemma_started_session_released_once(statuses: Seq<i32>)
    requires
        statuses.len() > 0,
        statuses[0] == PAM_SUCCESS,
        run(initial_session(), statuses).stage is Ended,
    ensures
        releases(initial_session(), statuses) == 1,
{
    let t = step(initial_session(), statuses[0]);
    assert(t.stage is Started);
    lemma_release_count(t, statuses.drop_first());
}

/// A session whose authenticate step fails asks for its release, passing
/// that step's status, before it yields a verdict, and the verdict is a
/// refusal; a failed release aborts instead.
pub proof fn lemma_auth_failure_released(auth_status: i32, end_status: i32)
    requires
        auth_status != PAM_SUCCESS,
    ensures
        action_of(step(step(initial_session(), PAM_SUCCESS), auth_status)) == PamAction::End(
            auth_status,
        ),
        end_status == PAM_SUCCESS ==> action_of(
            step(step(step(initial_session(), PAM_SUCCESS), auth_status), end_status),
        ) == PamAction::Finish(false),
        end_status != PAM_SUCCESS ==> action_of(
            step(step(step(initial_session(), PAM_SUCCESS), auth_status), end_status),
        ) == PamAction::Abort,
{
}

/// A verdict comes only from a session that never started or that has just
/// been released.
pub proof fn lemma_verdict_follows_release(s: PamSession, status: i32)
    requires
        !is_terminal(s),
        step(s, status).stage is Ended,
    ensures
        s.stage is Releasing || (s.stage is Created && status != PAM_SUCCESS),
{
}

/// The verdict is `true` only where start, authenticate, account check and
/// release all succeeded, in that order.
pub proof fn lemma_success_needs_every_stage(statuses: Seq<i32>)
    requires
        statuses.len() == 4,
    ensures
        action_of(run(initial_session(), statuses)) == PamAction::Finish(true) <==> (
        statuses[0] == PAM_SUCCESS && statuses[1] == PAM_SUCCESS && statuses[2] == PAM_SUCCESS
            && statuses[3] == PAM_SUCCESS),
{
    reveal_with_fuel(run, 5);
}

/// No session runs on: after at most four status codes it is over.
pub proof fn lemma_session_terminates(statuses: Seq<i32>)
    requires
        statuses.len() >= 4,
    ensures
        is_terminal(run(initial_session(), statuses)),
{
    let s1 = step(initial_session(), statuses[0]);
    let r1 = statuses.drop_first();
    let s2 = step(s1, r1[0]);
    let r2 = r1.drop_first();
    let s3 = step(s2, r2[0]);
    let r3 = r2.drop_first();
    let s4 = step(s3, r3[0]);
    let r4 = r3.drop_first();
    assert(run(initial_session(), statuses) == run(s1, r1));
    assert(run(s1, r1) == run(s2, r2));
    assert(run(s2, r2) == run(s3, r3));
    assert(run(s3, r3) == run(s4, r4));
    assert(is_terminal(s4));
    lemma_terminal_stays(s4, r4);
}

} // verus!
