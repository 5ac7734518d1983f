use wallet_relay::auth::{AuthEvent, AuthFlow, AuthRequest};
use wallet_relay::error::{ErrorKind, Notice};

fn auth_lines(log: &[Notice]) -> Vec<String> {
    log.iter().map(|notice| notice.line.clone()).collect()
}

fn prompt(message: &str) -> AuthRequest {
    AuthRequest::Prompt { message: message.to_string() }
}

fn line(text: &str) -> AuthEvent {
    AuthEvent::Line(text.to_string())
}

fn flow_at_sign_in() -> AuthFlow {
    let (flow, _) = AuthFlow::new("None".to_string());
    let (flow, _) = flow.step(line("+100\n"));
    let (flow, _) = flow.step(AuthEvent::CodeRequested);
    let (flow, step) = flow.step(line("12345\n"));
    assert_eq!(step.request, AuthRequest::SignIn { code: "12345\n".to_string() });
    flow
}

#[test]
fn sign_in_with_a_code() {
    let (flow, step) = AuthFlow::new("None".to_string());
    assert_eq!(auth_lines(&step.log), vec!["Not authorized. Signing in...".to_string()]);
    assert_eq!(step.request, prompt("Enter your phone number (international format): "));
    assert!(!flow.is_over());
    let (flow, step) = flow.step(line(" +100 200 \n"));
    assert_eq!(auth_lines(&step.log), vec!["Phone entered: +100 200".to_string()]);
    assert_eq!(step.log[0].failure, None);
    assert_eq!(step.request, AuthRequest::RequestLoginCode { phone: " +100 200 \n".to_string() });
    let (flow, step) = flow.step(AuthEvent::CodeRequested);
    assert!(step.log.is_empty());
    assert_eq!(step.request, prompt("Enter the code you received: "));
    let (flow, step) = flow.step(line("12345\n"));
    assert_eq!(auth_lines(&step.log), vec!["Code entered: 12345".to_string()]);
    assert_eq!(step.request, AuthRequest::SignIn { code: "12345\n".to_string() });
    let (flow, step) = flow.step(AuthEvent::SignedIn);
    assert!(step.log.is_empty());
    assert_eq!(step.request, AuthRequest::SaveSession { path: "dialogs.session".to_string() });
    let (flow, step) = flow.step(AuthEvent::SessionSaved);
    assert!(step.log.is_empty());
    assert_eq!(step.request, AuthRequest::Done);
    assert!(flow.is_over());
    assert_eq!(flow.request(), AuthRequest::Done);
}

#[test]
fn sign_in_with_a_password() {
    let flow = flow_at_sign_in();
    let (flow, step) = flow.step(AuthEvent::PasswordRequired(Some("pet".to_string())));
    assert!(step.log.is_empty());
    assert_eq!(step.request, prompt("Enter the password (hint pet): "));
    let (flow, step) = flow.step(line("  s3cret \n"));
    assert_eq!(auth_lines(&step.log), vec!["Password entered: s3cret".to_string()]);
    assert_eq!(step.request, AuthRequest::CheckPassword { password: "s3cret".to_string() });
    let (_, step) = flow.step(AuthEvent::PasswordAccepted);
    assert_eq!(step.request, AuthRequest::SaveSession { path: "dialogs.session".to_string() });
}

#[test]
fn missing_hint_takes_the_default() {
    let (_, step) = flow_at_sign_in().step(AuthEvent::PasswordRequired(None));
    assert_eq!(step.request, prompt("Enter the password (hint None): "));
    let (flow, _) = AuthFlow::new("no hint".to_string());
    let (flow, _) = flow.step(line("1"));
    let (flow, _) = flow.step(AuthEvent::CodeRequested);
    let (flow, _) = flow.step(line("2"));
    let (_, step) = flow.step(AuthEvent::PasswordRequired(None));
    assert_eq!(step.request, prompt("Enter the password (hint no hint): "));
}

#[test]
fn rejected_password_fails_the_sign_in() {
    let (flow, _) = flow_at_sign_in().step(AuthEvent::PasswordRequired(None));
    let (flow, _) = flow.step(line("wrong"));
    let (flow, step) = flow.step(AuthEvent::PasswordRejected);
    assert!(step.log.is_empty());
    assert_eq!(step.request, AuthRequest::Fail { detail: "Authentication failed.".to_string() });
    assert!(flow.is_over());
}

#[test]
fn refused_sign_in_is_reported_and_fails() {
    let (flow, step) = flow_at_sign_in().step(AuthEvent::SignInFailed("invalid code".to_string()));
    assert_eq!(auth_lines(&step.log), vec!["Error during sign-in: invalid code".to_string()]);
    assert_eq!(step.log[0].failure, Some(ErrorKind::Authentication));
    assert_eq!(step.request, AuthRequest::Fail { detail: "Authentication failed.".to_string() });
    let (_, step) = flow.step(AuthEvent::SignedIn);
    assert!(step.log.is_empty());
    assert_eq!(step.request, AuthRequest::Fail { detail: "Authentication failed.".to_string() });
}

#[test]
fn unsaved_session_is_reported_and_sign_in_succeeds() {
    let (flow, _) = flow_at_sign_in().step(AuthEvent::SignedIn);
    let (flow, step) = flow.step(AuthEvent::SessionSaveFailed("disk full".to_string()));
    assert_eq!(auth_lines(&step.log), vec!["Failed to save session: disk full".to_string()]);
    assert_eq!(step.log[0].failure, Some(ErrorKind::SessionSave));
    assert!(!ErrorKind::SessionSave.is_fatal());
    assert_eq!(step.request, AuthRequest::Done);
    assert!(flow.is_over());
}

#[test]
fn prompt_and_code_request_failures_fail_with_their_reason() {
    let (flow, _) = AuthFlow::new("None".to_string());
    let (_, step) = flow.step(AuthEvent::PromptFailed("stdin closed".to_string()));
    assert_eq!(step.request, AuthRequest::Fail { detail: "stdin closed".to_string() });

    let (flow, _) = AuthFlow::new("None".to_string());
    let (flow, _) = flow.step(line("1"));
    let (_, step) = flow.step(AuthEvent::CodeRequestFailed("banned".to_string()));
    assert_eq!(step.request, AuthRequest::Fail { detail: "banned".to_string() });

    let (flow, _) = AuthFlow::new("None".to_string());
    let (flow, _) = flow.step(line("1"));
    let (flow, _) = flow.step(AuthEvent::CodeRequested);
    let (_, step) = flow.step(AuthEvent::PromptFailed("eof".to_string()));
    assert_eq!(step.request, AuthRequest::Fail { detail: "eof".to_string() });

    let (flow, _) = flow_at_sign_in().step(AuthEvent::PasswordRequired(None));
    let (_, step) = flow.step(AuthEvent::PromptFailed("eof".to_string()));
    assert_eq!(step.request, AuthRequest::Fail { detail: "eof".to_string() });
}

#[test]
fn events_out_of_turn_change_nothing() {
    let (flow, _) = AuthFlow::new("None".to_string());
    let (flow, step) = flow.step(AuthEvent::SignedIn);
    assert!(step.log.is_empty());
    assert_eq!(step.request, prompt("Enter your phone number (international format): "));
    let (flow, _) = flow.step(line("1"));
    let (_, step) = flow.step(line("2"));
    assert!(step.log.is_empty());
    assert_eq!(step.request, AuthRequest::RequestLoginCode { phone: "1".to_string() });
}
