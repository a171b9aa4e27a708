use doit::pam::{
    converse, PamAction, PamError, PamMessage, PamSession, PAM_ERROR_MSG, PAM_PROMPT_ECHO_OFF,
    PAM_PROMPT_ECHO_ON, PAM_SUCCESS, PAM_TEXT_INFO,
};
use doit::pam_types::{PamFlags, PamItem, PamItemType, PamReturn};

const AUTH_ERR: i32 = 7;
const ACCT_EXPIRED: i32 = 13;

/// Drives a session with the given status codes; returns the actions asked for.
fn drive(statuses: &[i32]) -> (Vec<PamAction>, PamSession) {
    let mut s = PamSession::new();
    let mut actions = Vec::new();
    for &st in statuses {
        let a = s.next_action();
        actions.push(a);
        match a {
            PamAction::Finish(_) | PamAction::Abort => return (actions, s),
            _ => s.advance(st),
        }
    }
    actions.push(s.next_action());
    (actions, s)
}

#[test]
fn successful_session_is_released_then_authorized() {
    let (actions, s) = drive(&[0, 0, 0, 0]);
    assert_eq!(
        actions,
        vec![
            PamAction::Start,
            PamAction::Authenticate,
            PamAction::ValidateAccount,
            PamAction::End(PAM_SUCCESS),
            PamAction::Finish(true)
        ]
    );
    assert_eq!(s.failure(), None);
}

#[test]
fn failed_authentication_still_releases() {
    let (actions, s) = drive(&[0, AUTH_ERR, 0]);
    assert_eq!(
        actions,
        vec![
            PamAction::Start,
            PamAction::Authenticate,
            PamAction::End(AUTH_ERR),
            PamAction::Finish(false)
        ]
    );
    assert_eq!(s.failure(), Some(PamError::AuthFailed));
}

#[test]
fn failed_account_check_releases() {
    let (actions, s) = drive(&[0, 0, ACCT_EXPIRED, 0]);
    assert_eq!(actions[3], PamAction::End(ACCT_EXPIRED));
    assert_eq!(actions[4], PamAction::Finish(false));
    assert_eq!(s.failure(), Some(PamError::AccountInvalid));
}

#[test]
fn failed_start_has_nothing_to_release() {
    let (actions, s) = drive(&[4]);
    assert_eq!(actions, vec![PamAction::Start, PamAction::Finish(false)]);
    assert_eq!(s.failure(), Some(PamError::StartFailed));
}

#[test]
fn failed_release_aborts() {
    let (actions, s) = drive(&[0, AUTH_ERR, 4]);
    assert_eq!(*actions.last().unwrap(), PamAction::Abort);
    assert_eq!(s.failure(), Some(PamError::SessionEndFailed));
}

fn msg(style: i32, text: &str) -> Option<PamMessage> {
    Some(PamMessage { style, text: text.to_string() })
}

#[test]
fn conversation_answers_each_message() {
    let batch = vec![
        msg(PAM_TEXT_INFO, "welcome"),
        msg(PAM_PROMPT_ECHO_OFF, "Password: "),
        msg(PAM_ERROR_MSG, "careful"),
        msg(PAM_PROMPT_ECHO_ON, "login: "),
    ];
    let r = converse(&batch, "s3cret").unwrap();
    assert_eq!(r, vec!["".to_string(), "s3cret".to_string(), "".to_string(), "".to_string()]);
    assert_eq!(converse(&Vec::new(), "s3cret").unwrap().len(), 0);
}

#[test]
fn conversation_rejects_missing_messages() {
    let batch = vec![msg(PAM_PROMPT_ECHO_OFF, "Password: "), None];
    assert_eq!(converse(&batch, "pw").unwrap_err(), PamReturn::ConvErr);
    let batch = vec![None];
    assert_eq!(converse(&batch, "pw").unwrap_err(), PamReturn::ConvErr);
}

#[test]
fn conversation_answers_other_styles_with_nothing() {
    let batch = vec![msg(9, "?"), msg(0, "?"), msg(PAM_PROMPT_ECHO_OFF, "Password: ")];
    let r = converse(&batch, "pw").unwrap();
    assert_eq!(r, vec!["".to_string(), "".to_string(), "pw".to_string()]);
}

#[test]
fn items_know_their_type() {
    let i = PamItem::User("alice".to_string());
    assert_eq!(i.item_type(), PamItemType::User);
    assert_eq!(i.value(), "alice");
    assert_eq!(PamItem::TTY("/dev/pts/0".to_string()).item_type().code(), 3);
    assert_eq!(PamItem::AuthtokType("UNIX".to_string()).item_type().code(), 13);
    assert_eq!(PamItem::RHost("h".to_string()).item_type(), PamItemType::RHost);
}

#[test]
fn status_codes_round_trip() {
    assert_eq!(PamReturn::from_i32(0), Some(PamReturn::Success));
    assert_eq!(PamReturn::from_i32(7), Some(PamReturn::AuthErr));
    assert_eq!(PamReturn::from_i32(19), Some(PamReturn::ConvErr));
    assert_eq!(PamReturn::from_i32(29), Some(PamReturn::BadItem));
    assert_eq!(PamReturn::from_i32(9), None);
    assert_eq!(PamReturn::from_i32(30), None);
    assert_eq!(PamReturn::from_i32(-1), None);
    for v in 0..40 {
        if let Some(r) = PamReturn::from_i32(v) {
            assert_eq!(r.code(), v);
        }
    }
    assert_eq!(PamReturn::ModuleUnkown.code(), 28);
}

#[test]
fn item_types_and_flags() {
    assert_eq!(PamItemType::from_i32(1), Some(PamItemType::Service));
    assert_eq!(PamItemType::from_i32(9), Some(PamItemType::UserPrompt));
    assert_eq!(PamItemType::from_i32(14), None);
    assert_eq!(PamItemType::AuthtokType.code(), 13);
    assert_eq!(PamFlags::PamSilent.code(), 0x8000);
    assert_eq!(PamFlags::from_i32(1), Some(PamFlags::PamDisallowNullAuthtok));
    assert_eq!(PamFlags::from_i32(2), None);
}
