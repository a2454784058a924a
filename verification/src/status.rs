//! Status codes returned across the C boundary and the mapping from client
//! errors to those codes.

use vstd::prelude::*;

verus! {

/// Result code of every fallible typed C operation.
#[derive(Debug, Clone, Copy, PartialEq, Eq, Structural)]
pub enum LuminateStatus {
    Success,
    NullPointer,
    InvalidUtf8,
    InvalidArgument,
    Internal,
    DaemonUnavailable,
    AuthenticationFailed,
    IncompatibleDaemon,
    IncompatibleEventSocket,
    PermissionDenied,
    NotFound,
    Unsupported,
    UnknownState,
    Io,
    Unavailable,
    RateLimited,
    PartialMutation,
    Protocol,
    ConnectionPoisoned,
    Conflict,
    Cancelled,
}

/// A device, or a surface, element or group within it, addressed by id.
#[derive(Debug, Clone, PartialEq)]
pub struct TargetId {
    pub device: String,
    pub surface: Option<String>,
    pub element: Option<String>,
    pub group: Option<String>,
}

/// Errors reported by the client library.
#[derive(Debug, Clone)]
pub enum Error {
    DaemonUnavailable,
    AuthenticationFailed(String),
    IncompatibleDaemon {
        daemon_version: String,
        supported_protocol_abi_version: u32,
        reason: Option<String>,
    },
    IncompatibleEventSocket {
        daemon_version: String,
        supported_event_protocol_version: u32,
        reason: Option<String>,
    },
    PermissionDenied { reason: Option<String> },
    NotFound(String),
    Unsupported(String),
    UnknownState(String),
    InvalidArgument(String),
    Internal(String),
    Io(String),
    Unavailable(String),
    RateLimited { message: String, retry_after_ms: Option<u64> },
    PartialMutation { message: String, applied_targets: Vec<TargetId> },
    Protocol(String),
    ConnectionPoisoned,
    Conflict(String),
}

/// The status code that reports an error of the given category.
pub open spec fn error_status(error: Error) -> LuminateStatus {
    match error {
        Error::DaemonUnavailable => LuminateStatus::DaemonUnavailable,
        Error::AuthenticationFailed(_) => LuminateStatus::AuthenticationFailed,
        Error::IncompatibleDaemon { .. } => LuminateStatus::IncompatibleDaemon,
        Error::IncompatibleEventSocket { .. } => LuminateStatus::IncompatibleEventSocket,
        Error::PermissionDenied { .. } => LuminateStatus::PermissionDenied,
        Error::NotFound(_) => LuminateStatus::NotFound,
        Error::Unsupported(_) => LuminateStatus::Unsupported,
        Error::UnknownState(_) => LuminateStatus::UnknownState,
        Error::InvalidArgument(_) => LuminateStatus::InvalidArgument,
        Error::Internal(_) => LuminateStatus::Internal,
        Error::Io(_) => LuminateStatus::Io,
        Error::Unavailable(_) => LuminateStatus::Unavailable,
        Error::RateLimited { .. } => LuminateStatus::RateLimited,
        Error::PartialMutation { .. } => LuminateStatus::PartialMutation,
        Error::Protocol(_) => LuminateStatus::Protocol,
        Error::ConnectionPoisoned => LuminateStatus::ConnectionPoisoned,
        Error::Conflict(_) => LuminateStatus::Conflict,
    }
}

/// Maps a client error to the status code reported for it.
pub fn status_from_error(error: &Error) -> (status: LuminateStatus)
    ensures
        status == error_status(*error),
        status != LuminateStatus::Success,
{
    match error {
        Error::DaemonUnavailable => LuminateStatus::DaemonUnavailable,
        Error::AuthenticationFailed(_) => LuminateStatus::AuthenticationFailed,
        Error::IncompatibleDaemon { .. } => LuminateStatus::IncompatibleDaemon,
        Error::IncompatibleEventSocket { .. } => LuminateStatus::IncompatibleEventSocket,
        Error::PermissionDenied { .. } => LuminateStatus::PermissionDenied,
        Error::NotFound(_) => LuminateStatus::NotFound,
        Error::Unsupported(_) => LuminateStatus::Unsupported,
        Error::UnknownState(_) => LuminateStatus::UnknownState,
        Error::InvalidArgument(_) => LuminateStatus::InvalidArgument,
        Error::Internal(_) => LuminateStatus::Internal,
        Error::Io(_) => LuminateStatus::Io,
        Error::Unavailable(_) => LuminateStatus::Unavailable,
        Error::RateLimited { .. } => LuminateStatus::RateLimited,
        Error::PartialMutation { .. } => LuminateStatus::PartialMutation,
        Error::Protocol(_) => LuminateStatus::Protocol,
        Error::ConnectionPoisoned => LuminateStatus::ConnectionPoisoned,
        Error::Conflict(_) => LuminateStatus::Conflict,
    }
}

/// An error status is never the success status.
pub proof fn lemma_error_status_is_failure(error: Error)
    ensures
        error_status(error) != LuminateStatus::Success,
{
}

/// What the last failed call on a thread leaves for its caller to inspect:
/// a message, or a daemon error with its structured metadata.
#[derive(Debug)]
pub enum LastError {
    Message(String),
    Failure(Error),
}

/// The diagnostics of one thread of C callers: the last error recorded, if
/// any. A failing call records its error here; the C surface keeps one per
/// thread and hands it to each call.
#[derive(Debug)]
pub struct Diagnostics {
    pub last: Option<LastError>,
}

/// Whether `diagnostics` holds exactly the message `message`.
pub open spec fn holds_message(diagnostics: Diagnostics, message: Seq<char>) -> bool {
    diagnostics.last matches Some(LastError::Message(m)) && m@ == message
}

impl Diagnostics {
    /// Diagnostics with no error recorded.
    pub fn new() -> (d: Diagnostics)
        ensures
            d.last is None,
    {
        Diagnostics { last: None }
    }

    /// Records a failure message, replacing any earlier error.
    pub fn record_message(&mut self, message: &str)
        ensures
            holds_message(*final(self), message@),
    {
        self.last = Some(LastError::Message(message.to_owned()));
    }

    /// Records a daemon error, replacing any earlier error, and returns the
    /// status that reports it.
    pub fn record_error(&mut self, error: Error) -> (status: LuminateStatus)
        ensures
            status == error_status(error),
            status != LuminateStatus::Success,
            final(self).last == Some(LastError::Failure(error)),
    {
        let status = status_from_error(&error);
        self.last = Some(LastError::Failure(error));
        status
    }

    /// Forgets the last error, as a successful call does.
    pub fn clear(&mut self)
        ensures
            final(self).last is None,
    {
        self.last = None;
    }
}

} // verus!
