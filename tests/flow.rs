use doit::exec::{
    exec_error_of, exec_plan, gate, verdict_of, AuthVerdict, DenyReason, ExecError, Refusal,
    UsageError,
};
use doit::identity::{resolve_identity, IdentityError};
use doit::pam::{PamAction, PamSession};
use doit::policy::{authorize, Authorization, Backend, PolicyError};
use doit::shadow::{get_shadow_hash, locate_hash, shadow_verify_password};

const MD5_HASH: &str = "$1$5pZSV9va$azfrPr6af3Fc7dLblQXVa0";

fn strings(ls: &[&str]) -> Vec<String> {
    ls.iter().map(|l| l.to_string()).collect()
}

#[test]
fn missing_target_is_a_usage_error() {
    assert_eq!(exec_plan(&Vec::new()).unwrap_err(), UsageError::MissingTarget);
    assert_eq!(
        gate(AuthVerdict::Authorized, &Vec::new()).unwrap_err(),
        Refusal::Usage(UsageError::MissingTarget)
    );
}

#[test]
fn plan_splits_program_and_arguments() {
    let p = exec_plan(&strings(&["ls", "-l", "/tmp"])).unwrap();
    assert_eq!(p.program, "ls");
    assert_eq!(p.args, strings(&["-l", "/tmp"]));
    let p = exec_plan(&strings(&["id"])).unwrap();
    assert_eq!(p.program, "id");
    assert!(p.args.is_empty());
}

#[test]
fn denial_comes_before_usage() {
    let d = AuthVerdict::Denied(DenyReason::NotAuthenticated);
    assert_eq!(gate(d, &Vec::new()).unwrap_err(), Refusal::Denied(DenyReason::NotAuthenticated));
    assert_eq!(gate(d, &strings(&["ls"])).unwrap_err(), Refusal::Denied(DenyReason::NotAuthenticated));
}

#[test]
fn verdicts() {
    assert_eq!(verdict_of(Authorization::Deny, true), AuthVerdict::Denied(DenyReason::NotAuthorized));
    assert_eq!(verdict_of(Authorization::Allow(Backend::Pam), true), AuthVerdict::Authorized);
    assert_eq!(
        verdict_of(Authorization::Allow(Backend::Shadow), false),
        AuthVerdict::Denied(DenyReason::NotAuthenticated)
    );
}

#[test]
fn exec_errors() {
    assert_eq!(exec_error_of(2), ExecError::NotFound);
    assert_eq!(exec_error_of(20), ExecError::NotFound);
    assert_eq!(exec_error_of(7), ExecError::SystemLimit);
    assert_eq!(exec_error_of(12), ExecError::SystemLimit);
    assert_eq!(exec_error_of(13), ExecError::NotExecutable);
    assert_eq!(exec_error_of(8), ExecError::NotExecutable);
}

#[test]
fn shadow_user_with_correct_password_runs_command() {
    let id = resolve_identity(Some(b"alice".to_vec())).unwrap();
    let policy: Result<Vec<String>, PolicyError> = Ok(strings(&["alice"]));
    let auth = authorize(&policy, &id);
    assert_eq!(auth, Authorization::Allow(Backend::Shadow));
    let loc = locate_hash(Some(b"x".to_vec())).unwrap();
    let hash = get_shadow_hash(Ok(loc), Some(MD5_HASH.as_bytes().to_vec()));
    let ok = shadow_verify_password(&hash, "password");
    let verdict = verdict_of(auth, ok);
    assert_eq!(verdict, AuthVerdict::Authorized);
    let plan = gate(verdict, &strings(&["/bin/true"])).unwrap();
    assert_eq!(plan.program, "/bin/true");
}

#[test]
fn pam_user_failing_authentication_is_denied() {
    let id = resolve_identity(Some(b"bob".to_vec())).unwrap();
    let policy: Result<Vec<String>, PolicyError> = Ok(strings(&["bob PAM"]));
    let auth = authorize(&policy, &id);
    assert_eq!(auth, Authorization::Allow(Backend::Pam));
    let mut s = PamSession::new();
    s.advance(0);
    assert_eq!(s.next_action(), PamAction::Authenticate);
    s.advance(7);
    assert_eq!(s.next_action(), PamAction::End(7));
    s.advance(0);
    let ok = match s.next_action() {
        PamAction::Finish(v) => v,
        other => panic!("unexpected {:?}", other),
    };
    let verdict = verdict_of(auth, ok);
    assert_eq!(verdict, AuthVerdict::Denied(DenyReason::NotAuthenticated));
    assert!(gate(verdict, &strings(&["/bin/true"])).is_err());
}

#[test]
fn unreadable_policy_denies_regardless_of_password() {
    let id = resolve_identity(Some(b"carol".to_vec())).unwrap();
    let policy: Result<Vec<String>, PolicyError> = Err(PolicyError::SourceUnavailable);
    let auth = authorize(&policy, &id);
    assert_eq!(auth, Authorization::Deny);
    for ok in [true, false] {
        assert_eq!(
            gate(verdict_of(auth, ok), &strings(&["/bin/true"])).unwrap_err(),
            Refusal::Denied(DenyReason::NotAuthorized)
        );
    }
}

#[test]
fn missing_identity_stops_the_flow() {
    assert_eq!(resolve_identity(None).unwrap_err(), IdentityError::NotFound);
}
