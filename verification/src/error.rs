//! The errors of the control centre, and how they are told to a user.

use vstd::prelude::*;
use vstd::string::*;
use vstd::std_specs::convert::FromSpecImpl;
use crate::decimal::ParseFailure;

verus! {

/// `std::io::Error`, the system's report of a failure. It is carried
/// through; nothing is known of what it holds.
#[verifier::external_type_specification]
#[verifier::external_body]
pub struct ExIoError(std::io::Error);

/// What went wrong in an operation of the control centre. Each variant
/// carries a text that says more.
#[derive(Debug, PartialEq, Eq)]
pub enum ControlCentreError {
    /// The external program ran and reported failure.
    CommandFailed(String),
    /// The external program is missing.
    CommandNotFound(String),
    /// The output of a program did not have the expected shape.
    ParseError(String),
    /// The system did not allow the operation.
    PermissionDenied(String),
    /// A value handed in by the caller is out of range.
    InvalidArgument(String),
    /// Any other failure of the system.
    SystemError(String),
    /// The system reported a timeout.
    Timeout(String),
}

/// The result of an operation of the control centre.
pub type CCResult<T> = Result<T, ControlCentreError>;

/// The classes of system failure that are told apart.
#[derive(Debug, Clone, Copy, PartialEq, Eq)]
pub enum IoFailure {
    /// The program or file was not found.
    NotFound,
    /// The system did not allow the operation.
    PermissionDenied,
    /// The operation timed out.
    TimedOut,
    /// Any other failure.
    Other,
}

/// A failure of the system as plain values: its class, and the system's
/// own words.
#[derive(Debug, Clone, PartialEq, Eq)]
pub struct SystemFailure {
    pub kind: IoFailure,
    pub detail: String,
}

impl ControlCentreError {
    /// The text that the error carries.
    pub open spec fn detail(self) -> Seq<char> {
        match self {
            ControlCentreError::CommandFailed(t) => t@,
            ControlCentreError::CommandNotFound(t) => t@,
            ControlCentreError::ParseError(t) => t@,
            ControlCentreError::PermissionDenied(t) => t@,
            ControlCentreError::InvalidArgument(t) => t@,
            ControlCentreError::SystemError(t) => t@,
            ControlCentreError::Timeout(t) => t@,
        }
    }

    /// The words that introduce the error's text.
    pub open spec fn label(self) -> Seq<char> {
        match self {
            ControlCentreError::CommandFailed(_) => "Command execution failed: "@,
            ControlCentreError::CommandNotFound(_) => "Command not found: "@,
            ControlCentreError::ParseError(_) => "Parse error: "@,
            ControlCentreError::PermissionDenied(_) => "Permission denied: "@,
            ControlCentreError::InvalidArgument(_) => "Invalid argument: "@,
            ControlCentreError::SystemError(_) => "System error: "@,
            ControlCentreError::Timeout(_) => "Timeout: "@,
        }
    }

    /// The error as a user reads it: its label, then its text.
    pub open spec fn rendered(self) -> Seq<char> {
        self.label() + self.detail()
    }

    /// The error that a system failure of class `kind` becomes.
    pub open spec fn io_variant(self, kind: IoFailure) -> bool {
        match kind {
            IoFailure::NotFound => self is CommandNotFound,
            IoFailure::PermissionDenied => self is PermissionDenied,
            IoFailure::TimedOut => self is Timeout,
            IoFailure::Other => self is SystemError,
        }
    }

    /// Whether the error is one of those that a system failure becomes.
    pub open spec fn is_io_error(self) -> bool {
        self is CommandNotFound || self is PermissionDenied || self is Timeout
            || self is SystemError
    }

    /// The error as a user reads it.
    pub fn to_string(&self) -> (r: String)
        ensures
            r@ == self.rendered(),
    {
        match self {
            ControlCentreError::CommandFailed(t) => String::from_str(
                "Command execution failed: ",
            ).concat(t.as_str()),
            ControlCentreError::CommandNotFound(t) => String::from_str(
                "Command not found: ",
            ).concat(t.as_str()),
            ControlCentreError::ParseError(t) => String::from_str("Parse error: ").concat(
                t.as_str(),
            ),
            ControlCentreError::PermissionDenied(t) => String::from_str(
                "Permission denied: ",
            ).concat(t.as_str()),
            ControlCentreError::InvalidArgument(t) => String::from_str(
                "Invalid argument: ",
            ).concat(t.as_str()),
            ControlCentreError::SystemError(t) => String::from_str("System error: ").concat(
                t.as_str(),
            ),
            ControlCentreError::Timeout(t) => String::from_str("Timeout: ").concat(t.as_str()),
        }
    }

    /// The error for a system failure of class `kind` that says `detail`.
    pub fn from_io_failure(kind: IoFailure, detail: String) -> (r: ControlCentreError)
        ensures
            r.io_variant(kind),
            r.detail() == detail@,
    {
        match kind {
            IoFailure::NotFound => ControlCentreError::CommandNotFound(detail),
            IoFailure::PermissionDenied => ControlCentreError::PermissionDenied(detail),
            IoFailure::TimedOut => ControlCentreError::Timeout(detail),
            IoFailure::Other => ControlCentreError::SystemError(detail),
        }
    }
}

impl Clone for ControlCentreError {
    fn clone(&self) -> (r: ControlCentreError)
        ensures
            r == *self,
    {
        match self {
            ControlCentreError::CommandFailed(t) => ControlCentreError::CommandFailed(t.clone()),
            ControlCentreError::CommandNotFound(t) => ControlCentreError::CommandNotFound(
                t.clone(),
            ),
            ControlCentreError::ParseError(t) => ControlCentreError::ParseError(t.clone()),
            ControlCentreError::PermissionDenied(t) => ControlCentreError::PermissionDenied(
                t.clone(),
            ),
            ControlCentreError::InvalidArgument(t) => ControlCentreError::InvalidArgument(
                t.clone(),
            ),
            ControlCentreError::SystemError(t) => ControlCentreError::SystemError(t.clone()),
            ControlCentreError::Timeout(t) => ControlCentreError::Timeout(t.clone()),
        }
    }
}

/// Calls `std::io::Error::kind` and keeps the three classes that are told
/// apart; every other kind is `Other`. Nothing is claimed of the answer.
#[verifier::external_body]
fn io_failure_kind(err: &std::io::Error) -> (r: IoFailure) {
    match err.kind() {
        std::io::ErrorKind::NotFound => IoFailure::NotFound,
        std::io::ErrorKind::PermissionDenied => IoFailure::PermissionDenied,
        std::io::ErrorKind::TimedOut => IoFailure::TimedOut,
        _ => IoFailure::Other,
    }
}

impl From<std::io::Error> for SystemFailure {
    /// The class and the words of a failure that the system reports.
    /// Which class and which words is for the system to say.
    fn from(err: std::io::Error) -> (r: SystemFailure) {
        let kind = io_failure_kind(&err);
        let detail = err.to_string();
        SystemFailure { kind, detail }
    }
}

impl FromSpecImpl<std::io::Error> for SystemFailure {
    open spec fn obeys_from_spec() -> bool {
        false
    }

    open spec fn from_spec(err: std::io::Error) -> SystemFailure {
        arbitrary()
    }
}

impl From<SystemFailure> for ControlCentreError {
    /// The error for a failure of the system: by its class one of
    /// `CommandNotFound`, `PermissionDenied`, `Timeout` and `SystemError`,
    /// with the system's words as text.
    fn from(failure: SystemFailure) -> (r: ControlCentreError)
        ensures
            r.io_variant(failure.kind),
            r.detail() == failure.detail@,
    {
        ControlCentreError::from_io_failure(failure.kind, failure.detail)
    }
}

impl FromSpecImpl<SystemFailure> for ControlCentreError {
    open spec fn obeys_from_spec() -> bool {
        false
    }

    open spec fn from_spec(failure: SystemFailure) -> ControlCentreError {
        arbitrary()
    }
}

impl From<std::io::Error> for ControlCentreError {
    /// The error for a failure that the system reports: by its kind one
    /// of `CommandNotFound`, `PermissionDenied`, `Timeout` and
    /// `SystemError`, with the system's own words as text.
    fn from(err: std::io::Error) -> (r: ControlCentreError)
        ensures
            r.is_io_error(),
    {
        ControlCentreError::from(SystemFailure::from(err))
    }
}

impl FromSpecImpl<std::io::Error> for ControlCentreError {
    open spec fn obeys_from_spec() -> bool {
        false
    }

    open spec fn from_spec(err: std::io::Error) -> ControlCentreError {
        arbitrary()
    }
}

impl From<ParseFailure> for ControlCentreError {
    /// The error for a text that is no number: `ParseError`, with the
    /// failure in words.
    fn from(failure: ParseFailure) -> (r: ControlCentreError)
        ensures
            r matches ControlCentreError::ParseError(text) && text@ == failure.words(),
    {
        ControlCentreError::ParseError(String::from_str(failure.message()))
    }
}

impl FromSpecImpl<ParseFailure> for ControlCentreError {
    open spec fn obeys_from_spec() -> bool {
        false
    }

    open spec fn from_spec(failure: ParseFailure) -> ControlCentreError {
        arbitrary()
    }
}

impl From<ControlCentreError> for String {
    /// The error as a user reads it.
    fn from(err: ControlCentreError) -> (r: String)
        ensures
            r@ == err.rendered(),
    {
        err.to_string()
    }
}

impl FromSpecImpl<ControlCentreError> for String {
    open spec fn obeys_from_spec() -> bool {
        false
    }

    open spec fn from_spec(err: ControlCentreError) -> String {
        arbitrary()
    }
}

} // verus!
