//! The interactive sign-in as a state machine. The caller prompts, talks to
//! the network and saves the session; the flow decides what is asked next and
//! when the sign-in has failed.

use vstd::prelude::*;
use vstd::string::StringExecFns;

use crate::error::{failed, notices, told, ErrorKind, Notice, NoticeView};
use crate::text::{joined, text_view, trim, trimmed};

verus! {

/// What the caller reports back to the flow.
#[derive(Debug, PartialEq, Eq)]
pub enum AuthEvent {
    /// The user answered the prompt with this line.
    Line(String),
    /// The prompt could not be shown or read.
    PromptFailed(String),
    /// The network sent a login code to the phone.
    CodeRequested,
    /// The network refused to send a login code.
    CodeRequestFailed(String),
    /// The code was accepted and the account is signed in.
    SignedIn,
    /// The code was accepted and the account asks for its password; the
    /// network may supply a hint.
    PasswordRequired(Option<String>),
    /// The sign-in was refused.
    SignInFailed(String),
    PasswordAccepted,
    PasswordRejected,
    SessionSaved,
    /// The session could not be saved.
    SessionSaveFailed(String),
}

/// What the flow asks the caller to do.
#[derive(Debug, PartialEq, Eq)]
pub enum AuthRequest {
    /// Show this message and read one line.
    Prompt { message: String },
    RequestLoginCode { phone: String },
    SignIn { code: String },
    CheckPassword { password: String },
    SaveSession { path: String },
    /// The sign-in succeeded.
    Done,
    /// The sign-in failed for this reason.
    Fail { detail: String },
}

/// A request as a mathematical value.
pub enum AuthRequestView {
    Prompt(Seq<char>),
    RequestLoginCode(Seq<char>),
    SignIn(Seq<char>),
    CheckPassword(Seq<char>),
    SaveSession(Seq<char>),
    Done,
    Fail(Seq<char>),
}

impl View for AuthRequest {
    type V = AuthRequestView;

    open spec fn view(&self) -> AuthRequestView {
        match self {
            AuthRequest::Prompt { message } => AuthRequestView::Prompt(message@),
            AuthRequest::RequestLoginCode { phone } => AuthRequestView::RequestLoginCode(phone@),
            AuthRequest::SignIn { code } => AuthRequestView::SignIn(code@),
            AuthRequest::CheckPassword { password } => AuthRequestView::CheckPassword(password@),
            AuthRequest::SaveSession { path } => AuthRequestView::SaveSession(path@),
            AuthRequest::Done => AuthRequestView::Done,
            AuthRequest::Fail { detail } => AuthRequestView::Fail(detail@),
        }
    }
}

/// Where the sign-in stands.
pub enum AuthStage {
    /// The phone number is being asked for.
    AwaitingPhone,
    /// A login code is being requested for this phone number.
    RequestingCode(Seq<char>),
    /// The login code is being asked for.
    AwaitingCode,
    /// The network is checking this code.
    SigningIn(Seq<char>),
    /// The password is being asked for, with this hint.
    AwaitingPassword(Seq<char>),
    /// The network is checking this password.
    CheckingPassword(Seq<char>),
    SavingSession,
    Done,
    Failed(Seq<char>),
}

/// The flow as a mathematical value.
pub struct AuthState {
    /// The hint shown where the network supplies none.
    pub default_hint: Seq<char>,
    pub stage: AuthStage,
}

/// The effect of one event: the next state and the lines to report.
pub struct AuthTransition {
    pub state: AuthState,
    pub log: Seq<NoticeView>,
}

/// The file that the session is saved to after sign-in.
pub open spec fn session_path() -> Seq<char> {
    "dialogs.session"@
}

/// The reason given when the network turned the sign-in down.
pub open spec fn failure_text() -> Seq<char> {
    "Authentication failed."@
}

impl AuthState {
    /// The flow before anything has happened: it asks for the phone number.
    pub open spec fn initial(default_hint: Seq<char>) -> AuthState {
        AuthState { default_hint, stage: AuthStage::AwaitingPhone }
    }

    pub open spec fn at(self, stage: AuthStage) -> AuthState {
        AuthState { stage, ..self }
    }

    /// Moves to `stage` without a report.
    pub open spec fn go(self, stage: AuthStage) -> AuthTransition {
        AuthTransition { state: self.at(stage), log: Seq::empty() }
    }

    /// Moves to `stage` and reports one line.
    pub open spec fn go_with(self, stage: AuthStage, notice: NoticeView) -> AuthTransition {
        AuthTransition { state: self.at(stage), log: seq![notice] }
    }

    /// The hint to show: the network's, or the default where it gave none.
    pub open spec fn hint_text(self, hint: Option<Seq<char>>) -> Seq<char> {
        match hint {
            Some(h) => h,
            None => self.default_hint,
        }
    }

    /// The effect of an event. An event that the current stage does not wait
    /// for changes nothing.
    ///
    /// The phone number and the code go to the network as they were typed;
    /// the password goes trimmed. A failure to prompt or to request the code
    /// fails the sign-in with its own description. A sign-in or a password
    /// that the network turns down fails it with a fixed text. A session that
    /// cannot be saved is reported, and the sign-in still succeeds.
    pub open spec fn on_event(self, event: AuthEvent) -> AuthTransition {
        match self.stage {
            AuthStage::AwaitingPhone => match event {
                AuthEvent::Line(phone) => self.go_with(
                    AuthStage::RequestingCode(phone@),
                    told("Phone entered: "@ + trimmed(phone@)),
                ),
                AuthEvent::PromptFailed(reason) => self.go(AuthStage::Failed(reason@)),
                _ => self.go(self.stage),
            },
            AuthStage::RequestingCode(_) => match event {
                AuthEvent::CodeRequested => self.go(AuthStage::AwaitingCode),
                AuthEvent::CodeRequestFailed(reason) => self.go(AuthStage::Failed(reason@)),
                _ => self.go(self.stage),
            },
            AuthStage::AwaitingCode => match event {
                AuthEvent::Line(code) => self.go_with(
                    AuthStage::SigningIn(code@),
                    told("Code entered: "@ + trimmed(code@)),
                ),
                AuthEvent::PromptFailed(reason) => self.go(AuthStage::Failed(reason@)),
                _ => self.go(self.stage),
            },
            AuthStage::SigningIn(_) => match event {
                AuthEvent::SignedIn => self.go(AuthStage::SavingSession),
                AuthEvent::PasswordRequired(hint) => self.go(
                    AuthStage::AwaitingPassword(self.hint_text(text_view(hint))),
                ),
                AuthEvent::SignInFailed(reason) => self.go_with(
                    AuthStage::Failed(failure_text()),
                    failed(ErrorKind::Authentication, "Error during sign-in: "@ + reason@),
                ),
                _ => self.go(self.stage),
            },
            AuthStage::AwaitingPassword(_) => match event {
                AuthEvent::Line(password) => self.go_with(
                    AuthStage::CheckingPassword(trimmed(password@)),
                    told("Password entered: "@ + trimmed(password@)),
                ),
                AuthEvent::PromptFailed(reason) => self.go(AuthStage::Failed(reason@)),
                _ => self.go(self.stage),
            },
            AuthStage::CheckingPassword(_) => match event {
                AuthEvent::PasswordAccepted => self.go(AuthStage::SavingSession),
                AuthEvent::PasswordRejected => self.go(AuthStage::Failed(failure_text())),
                _ => self.go(self.stage),
            },
            AuthStage::SavingSession => match event {
                AuthEvent::SessionSaved => self.go(AuthStage::Done),
                AuthEvent::SessionSaveFailed(reason) => self.go_with(
                    AuthStage::Done,
                    failed(ErrorKind::SessionSave, "Failed to save session: "@ + reason@),
                ),
                _ => self.go(self.stage),
            },
            AuthStage::Done => self.go(self.stage),
            AuthStage::Failed(_) => self.go(self.stage),
        }
    }

    /// The request that is outstanding in this state.
    pub open spec fn request(self) -> AuthRequestView {
        match self.stage {
            AuthStage::AwaitingPhone => AuthRequestView::Prompt(
                "Enter your phone number (international format): "@,
            ),
            AuthStage::RequestingCode(phone) => AuthRequestView::RequestLoginCode(phone),
            AuthStage::AwaitingCode => AuthRequestView::Prompt("Enter the code you received: "@),
            AuthStage::SigningIn(code) => AuthRequestView::SignIn(code),
            AuthStage::AwaitingPassword(hint) => AuthRequestView::Prompt(
                "Enter the password (hint "@ + hint + "): "@,
            ),
            AuthStage::CheckingPassword(password) => AuthRequestView::CheckPassword(password),
            AuthStage::SavingSession => AuthRequestView::SaveSession(session_path()),
            AuthStage::Done => AuthRequestView::Done,
            AuthStage::Failed(detail) => AuthRequestView::Fail(detail),
        }
    }

    /// The sign-in has ended, well or badly.
    pub open spec fn is_over(self) -> bool {
        self.stage is Done || self.stage is Failed
    }
}

enum Stage {
    AwaitingPhone,
    RequestingCode { phone: String },
    AwaitingCode,
    SigningIn { code: String },
    AwaitingPassword { hint: String },
    CheckingPassword { password: String },
    SavingSession,
    Done,
    Failed { detail: String },
}

impl View for Stage {
    type V = AuthStage;

    closed spec fn view(&self) -> AuthStage {
        match self {
            Stage::AwaitingPhone => AuthStage::AwaitingPhone,
            Stage::RequestingCode { phone } => AuthStage::RequestingCode(phone@),
            Stage::AwaitingCode => AuthStage::AwaitingCode,
            Stage::SigningIn { code } => AuthStage::SigningIn(code@),
            Stage::AwaitingPassword { hint } => AuthStage::AwaitingPassword(hint@),
            Stage::CheckingPassword { password } => AuthStage::CheckingPassword(password@),
            Stage::SavingSession => AuthStage::SavingSession,
            Stage::Done => AuthStage::Done,
            Stage::Failed { detail } => AuthStage::Failed(detail@),
        }
    }
}

/// The flow's answer to one event: lines to report, and the next request.
#[derive(Debug, PartialEq, Eq)]
pub struct AuthStep {
    pub log: Vec<Notice>,
    pub request: AuthRequest,
}

/// A sign-in in progress.
pub struct AuthFlow {
    default_hint: String,
    stage: Stage,
}

impl View for AuthFlow {
    type V = AuthState;

    closed spec fn view(&self) -> AuthState {
        AuthState { default_hint: self.default_hint@, stage: self.stage@ }
    }
}

impl AuthFlow {
    /// Begins a sign-in. `default_hint` is shown where the network supplies
    /// no password hint.
    pub fn new(default_hint: String) -> (started: (AuthFlow, AuthStep))
        ensures
            started.0@ == AuthState::initial(default_hint@),
            notices(started.1.log@) == seq![told("Not authorized. Signing in..."@)],
            started.1.request@ == started.0@.request(),
    {
        let flow = AuthFlow { default_hint, stage: Stage::AwaitingPhone };
        let mut log: Vec<Notice> = Vec::new();
        log.push(Notice::info("Not authorized. Signing in...".to_owned()));
        assert(notices(log@) =~= seq![told("Not authorized. Signing in..."@)]);
        let request = flow.request();
        (flow, AuthStep { log, request })
    }

    /// The request that is outstanding.
    pub fn request(&self) -> (request: AuthRequest)
        ensures
            request@ == self@.request(),
    {
        match &self.stage {
            Stage::AwaitingPhone => AuthRequest::Prompt {
                message: "Enter your phone number (international format): ".to_owned(),
            },
            Stage::RequestingCode { phone } => AuthRequest::RequestLoginCode {
                phone: phone.clone(),
            },
            Stage::AwaitingCode => AuthRequest::Prompt {
                message: "Enter the code you received: ".to_owned(),
            },
            Stage::SigningIn { code } => AuthRequest::SignIn { code: code.clone() },
            Stage::AwaitingPassword { hint } => {
                let mut message = joined("Enter the password (hint ", hint.as_str());
                message.append("): ");
                AuthRequest::Prompt { message }
            },
            Stage::CheckingPassword { password } => AuthRequest::CheckPassword {
                password: password.clone(),
            },
            Stage::SavingSession => AuthRequest::SaveSession {
                path: "dialogs.session".to_owned(),
            },
            Stage::Done => AuthRequest::Done,
            Stage::Failed { detail } => AuthRequest::Fail { detail: detail.clone() },
        }
    }

    /// Whether the sign-in has ended.
    pub fn is_over(&self) -> (over: bool)
        ensures
            over == self@.is_over(),
    {
        match &self.stage {
            Stage::Done => true,
            Stage::Failed { .. } => true,
            _ => false,
        }
    }

    fn go(default_hint: String, stage: Stage, log: Vec<Notice>) -> (next: (AuthFlow, AuthStep))
        ensures
            next.0@ == (AuthState { default_hint: default_hint@, stage: stage@ }),
            next.1.log == log,
            next.1.request@ == next.0@.request(),
    {
        let flow = AuthFlow { default_hint, stage };
        let request = flow.request();
        (flow, AuthStep { log, request })
    }

    fn go_with(
        default_hint: String,
        stage: Stage,
        failure: Option<ErrorKind>,
        label: &str,
        detail: &str,
    ) -> (next: (AuthFlow, AuthStep))
        ensures
            next.0@ == (AuthState { default_hint: default_hint@, stage: stage@ }),
            notices(next.1.log@) == seq![(NoticeView { failure, line: label@ + detail@ })],
            next.1.request@ == next.0@.request(),
    {
        let mut log: Vec<Notice> = Vec::new();
        log.push(Notice { failure, line: joined(label, detail) });
        assert(notices(log@) =~= seq![(NoticeView { failure, line: label@ + detail@ })]);
        AuthFlow::go(default_hint, stage, log)
    }

    /// Takes an event and answers with the lines to report and the next request.
    pub fn step(self, event: AuthEvent) -> (next: (AuthFlow, AuthStep))
        ensures
            next.0@ == self@.on_event(event).state,
            notices(next.1.log@) == self@.on_event(event).log,
            next.1.request@ == next.0@.request(),
    {
        let AuthFlow { default_hint, stage } = self;
        let quiet: Vec<Notice> = Vec::new();
        assert(notices(quiet@) =~= Seq::<NoticeView>::empty());
        match stage {
            Stage::AwaitingPhone => match event {
                AuthEvent::Line(phone) => {
                    let shown = trim(phone.as_str());
                    AuthFlow::go_with(
                        default_hint,
                        Stage::RequestingCode { phone },
                        None,
                        "Phone entered: ",
                        shown.as_str(),
                    )
                },
                AuthEvent::PromptFailed(reason) => AuthFlow::go(
                    default_hint,
                    Stage::Failed { detail: reason },
                    quiet,
                ),
                _ => AuthFlow::go(default_hint, Stage::AwaitingPhone, quiet),
            },
            Stage::RequestingCode { phone } => match event {
                AuthEvent::CodeRequested => AuthFlow::go(default_hint, Stage::AwaitingCode, quiet),
                AuthEvent::CodeRequestFailed(reason) => AuthFlow::go(
                    default_hint,
                    Stage::Failed { detail: reason },
                    quiet,
                ),
                _ => AuthFlow::go(default_hint, Stage::RequestingCode { phone }, quiet),
            },
            Stage::AwaitingCode => match event {
                AuthEvent::Line(code) => {
                    let shown = trim(code.as_str());
                    AuthFlow::go_with(
                        default_hint,
                        Stage::SigningIn { code },
                        None,
                        "Code entered: ",
                        shown.as_str(),
                    )
                },
                AuthEvent::PromptFailed(reason) => AuthFlow::go(
                    default_hint,
                    Stage::Failed { detail: reason },
                    quiet,
                ),
                _ => AuthFlow::go(default_hint, Stage::AwaitingCode, quiet),
            },
            Stage::SigningIn { code } => match event {
                AuthEvent::SignedIn => AuthFlow::go(default_hint, Stage::SavingSession, quiet),
                AuthEvent::PasswordRequired(hint) => {
                    let hint = match hint {
                        Some(h) => h,
                        None => default_hint.clone(),
                    };
                    AuthFlow::go(default_hint, Stage::AwaitingPassword { hint }, quiet)
                },
                AuthEvent::SignInFailed(reason) => AuthFlow::go_with(
                    default_hint,
                    Stage::Failed { detail: "Authentication failed.".to_owned() },
                    Some(ErrorKind::Authentication),
                    "Error during sign-in: ",
                    reason.as_str(),
                ),
                _ => AuthFlow::go(default_hint, Stage::SigningIn { code }, quiet),
            },
            Stage::AwaitingPassword { hint } => match event {
                AuthEvent::Line(password) => {
                    let password = trim(password.as_str());
                    let shown = password.clone();
                    AuthFlow::go_with(
                        default_hint,
                        Stage::CheckingPassword { password },
                        None,
                        "Password entered: ",
                        shown.as_str(),
                    )
                },
                AuthEvent::PromptFailed(reason) => AuthFlow::go(
                    default_hint,
                    Stage::Failed { detail: reason },
                    quiet,
                ),
                _ => AuthFlow::go(default_hint, Stage::AwaitingPassword { hint }, quiet),
            },
            Stage::CheckingPassword { password } => match event {
                AuthEvent::PasswordAccepted => AuthFlow::go(
                    default_hint,
                    Stage::SavingSession,
                    quiet,
                ),
                AuthEvent::PasswordRejected => AuthFlow::go(
                    default_hint,
                    Stage::Failed { detail: "Authentication failed.".to_owned() },
                    quiet,
                ),
                _ => AuthFlow::go(default_hint, Stage::CheckingPassword { password }, quiet),
            },
            Stage::SavingSession => match event {
                AuthEvent::SessionSaved => AuthFlow::go(default_hint, Stage::Done, quiet),
                AuthEvent::SessionSaveFailed(reason) => AuthFlow::go_with(
                    default_hint,
                    Stage::Done,
                    Some(ErrorKind::SessionSave),
                    "Failed to save session: ",
                    reason.as_str(),
                ),
                _ => AuthFlow::go(default_hint, Stage::SavingSession, quiet),
            },
            Stage::Done => AuthFlow::go(default_hint, Stage::Done, quiet),
            Stage::Failed { detail } => AuthFlow::go(default_hint, Stage::Failed { detail }, quiet),
        }
    }
}

/// A session that cannot be saved does not fail the sign-in: whatever the
/// save answers, the sign-in is done.
pub proof fn session_save_never_fails_sign_in(state: AuthState, event: AuthEvent)
    requires
        state.stage is SavingSession,
        event is SessionSaved || event is SessionSaveFailed,
    ensures
        state.on_event(event).state.stage is Done,
        state.on_event(event).state.request() == AuthRequestView::Done,
{
}

/// The password reaches the network without the white space round it, and
/// is asked for with the network's hint or, failing that, the default hint.
pub proof fn password_is_trimmed_and_hinted(
    state: AuthState,
    hint: Option<String>,
    password: String,
)
    requires
        state.stage is SigningIn,
    ensures
        ({
            let asked = state.on_event(AuthEvent::PasswordRequired(hint)).state;
            let checked = asked.on_event(AuthEvent::Line(password)).state;
            &&& asked.request() == AuthRequestView::Prompt(
                "Enter the password (hint "@ + state.hint_text(text_view(hint)) + "): "@,
            )
            &&& checked.request() == AuthRequestView::CheckPassword(trimmed(password@))
        }),
{
}

} // verus!
