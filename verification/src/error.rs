//! The error taxonomy shared by configuration, serial I/O and network I/O.

use vstd::prelude::*;
use vstd::string::StringExecFns;

verus! {

/// The failure classes raised by the bridge.
#[derive(Clone, Copy, Debug, PartialEq, Eq, Structural)]
pub enum ErrorKind {
    /// Missing, unreadable or malformed configuration.
    ConfigError,
    /// A native serial or UDP socket failure.
    IoError,
    /// An invalid argument, such as a device path with an embedded null byte.
    InvalidArgument,
}

/// The `backtrace` crate's capture of a call stack, opaque to the contracts.
#[verifier::external_type_specification]
#[verifier::external_body]
pub struct ExBacktrace(backtrace::Backtrace);

/// Relies on `backtrace::Backtrace::new`: captures the call stack at the call
/// site. Nothing is promised of the captured value.
#[verifier::external_body]
fn capture_backtrace() -> backtrace::Backtrace {
    backtrace::Backtrace::new()
}

/// One raised failure: a failure class, a human-readable description, an
/// optional description of the wrapped lower-level cause, and a capture of
/// the call stack at raise time.
#[derive(Debug)]
pub struct Error {
    /// The failure class.
    pub kind: ErrorKind,
    /// The human-readable description.
    pub message: String,
    /// The description of the wrapped lower-level cause, if any.
    pub cause: Option<String>,
    /// The call stack captured when the error was raised.
    pub backtrace: backtrace::Backtrace,
}

impl Error {
    /// Creates a new error without a lower-level cause.
    pub fn new(kind: ErrorKind, message: String) -> (r: Error)
        ensures
            r.kind == kind,
            r.message@ == message@,
            r.cause is None,
    {
        let backtrace = capture_backtrace();
        Error { kind, message, cause: None, backtrace }
    }

    /// Creates a new error that wraps a lower-level cause, described by
    /// `cause`; the description of the new error is the cause's own.
    pub fn with_error(kind: ErrorKind, cause: String) -> (r: Error)
        ensures
            r.kind == kind,
            r.message@ == cause@,
            r.cause matches Some(c) && c@ == cause@,
    {
        let backtrace = capture_backtrace();
        let message = cause.clone();
        Error { kind, message, cause: Some(cause), backtrace }
    }

    /// Creates the error for a failed native call: the native layer's
    /// explanatory message combined with the OS-reported error text, as
    /// `message (os_error)`.
    pub fn native_failure(message: String, os_error: &str) -> (r: Error)
        ensures
            r.kind == ErrorKind::IoError,
            r.message@ == message@ + " ("@ + os_error@ + ")"@,
            r.cause matches Some(c) && c@ == os_error@,
    {
        let backtrace = capture_backtrace();
        let mut combined = message;
        combined.append(" (");
        combined.append(os_error);
        combined.append(")");
        let cause = os_error.to_owned();
        Error { kind: ErrorKind::IoError, message: combined, cause: Some(cause), backtrace }
    }

    /// The human-readable description of the failure.
    pub fn description(&self) -> (r: &str)
        ensures
            r@ == self.message@,
    {
        self.message.as_str()
    }

    /// The description of the wrapped lower-level cause, if any.
    pub fn source(&self) -> (r: Option<&String>)
        ensures
            r is Some <==> self.cause is Some,
            r matches Some(c) ==> c@ == self.cause->0@,
    {
        self.cause.as_ref()
    }
}

} // verus!
