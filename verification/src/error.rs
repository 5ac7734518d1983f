//! The kinds of failure the relay meets, and which of them end the process.

use vstd::prelude::*;

use crate::config::ConfigError;

verus! {

/// Whether a failure ends the process.
#[derive(Debug, Clone, Copy, PartialEq, Eq, Structural)]
pub enum Severity {
    /// The process cannot go on.
    Fatal,
    /// The failure is reported and the process goes on without what failed.
    Recoverable,
}

/// What failed.
#[derive(Debug, Clone, Copy, PartialEq, Eq, Structural)]
pub enum ErrorKind {
    /// A required setting is absent or unusable.
    Settings(ConfigError),
    /// The connection could not be established.
    Connection,
    /// The network did not say whether the session is authorized.
    Authorization,
    /// The interactive sign-in failed.
    Authentication,
    /// The update feed failed.
    UpdateFeed,
    /// A source channel could not be resolved.
    TargetLookup,
    /// A recipient could not be resolved.
    RecipientLookup,
    /// A message could not be sent.
    Send,
    /// The session could not be saved after sign-in.
    SessionSave,
}

/// The severity of each kind of failure.
pub open spec fn severity_of(kind: ErrorKind) -> Severity {
    match kind {
        ErrorKind::Settings(_) => Severity::Fatal,
        ErrorKind::Connection => Severity::Fatal,
        ErrorKind::Authorization => Severity::Fatal,
        ErrorKind::Authentication => Severity::Fatal,
        ErrorKind::UpdateFeed => Severity::Fatal,
        ErrorKind::TargetLookup => Severity::Recoverable,
        ErrorKind::RecipientLookup => Severity::Recoverable,
        ErrorKind::Send => Severity::Recoverable,
        ErrorKind::SessionSave => Severity::Recoverable,
    }
}

impl ErrorKind {
    /// Whether a failure of this kind ends the process.
    pub fn severity(&self) -> (severity: Severity)
        ensures
            severity == severity_of(*self),
    {
        match self {
            ErrorKind::Settings(_) => Severity::Fatal,
            ErrorKind::Connection => Severity::Fatal,
            ErrorKind::Authorization => Severity::Fatal,
            ErrorKind::Authentication => Severity::Fatal,
            ErrorKind::UpdateFeed => Severity::Fatal,
            ErrorKind::TargetLookup => Severity::Recoverable,
            ErrorKind::RecipientLookup => Severity::Recoverable,
            ErrorKind::Send => Severity::Recoverable,
            ErrorKind::SessionSave => Severity::Recoverable,
        }
    }

    /// True for the kinds that end the process.
    pub fn is_fatal(&self) -> (fatal: bool)
        ensures
            fatal == (severity_of(*self) == Severity::Fatal),
    {
        match self.severity() {
            Severity::Fatal => true,
            Severity::Recoverable => false,
        }
    }
}

/// One line of what the relay reports, with the kind of failure it tells
/// of, if it tells of one.
#[derive(Debug, PartialEq, Eq)]
pub struct Notice {
    pub failure: Option<ErrorKind>,
    pub line: String,
}

/// A notice as a mathematical value.
pub struct NoticeView {
    pub failure: Option<ErrorKind>,
    pub line: Seq<char>,
}

impl View for Notice {
    type V = NoticeView;

    open spec fn view(&self) -> NoticeView {
        NoticeView { failure: self.failure, line: self.line@ }
    }
}

/// The views of a list of notices.
pub open spec fn notices(v: Seq<Notice>) -> Seq<NoticeView> {
    Seq::new(v.len(), |k: int| v[k]@)
}

/// A notice that tells of no failure.
pub open spec fn told(line: Seq<char>) -> NoticeView {
    NoticeView { failure: None, line }
}

/// A notice that tells of a failure.
pub open spec fn failed(kind: ErrorKind, line: Seq<char>) -> NoticeView {
    NoticeView { failure: Some(kind), line }
}

/// How many notices of a report tell of a failure.
pub open spec fn failures(log: Seq<NoticeView>) -> nat
    decreases log.len(),
{
    if log.len() == 0 {
        0
    } else if log.last().failure is Some {
        failures(log.drop_last()) + 1
    } else {
        failures(log.drop_last())
    }
}

impl Notice {
    /// A notice that tells of no failure.
    pub fn info(line: String) -> (notice: Notice)
        ensures
            notice@ == told(line@),
    {
        Notice { failure: None, line }
    }

    /// A notice that tells of a failure.
    pub fn failure(kind: ErrorKind, line: String) -> (notice: Notice)
        ensures
            notice@ == failed(kind, line@),
    {
        Notice { failure: Some(kind), line }
    }

    /// Whether the notice tells of a failure.
    pub fn is_failure(&self) -> (b: bool)
        ensures
            b == (self@.failure is Some),
    {
        self.failure.is_some()
    }
}

} // verus!
