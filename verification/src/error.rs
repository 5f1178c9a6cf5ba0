//! Error handling.

use vstd::prelude::*;

verus! {

/// The class an error belongs to.
///
/// Configuration errors are raised before any exchange is attempted and
/// end an operation at once.  Transport and protocol errors are folded
/// together by the dispatcher, which fails over to the next server
/// without looking at the class.  Verification errors abort only the
/// authoritative-verification chain.
#[derive(Clone, Copy, Debug, PartialEq, Eq, Structural)]
pub enum ErrorKind {
    /// A fault in the configuration, found before any network work.
    Config,
    /// A failed exchange: refused connection, timeout, handshake failure.
    Transport,
    /// A response that could not be understood.
    Protocol,
    /// A failure while discovering the authoritative servers.
    Verification,
}

/// An error, carrying its class and a message for display.
#[derive(Clone, Debug)]
pub struct Error {
    pub kind: ErrorKind,
    pub message: String,
}

impl Error {
    /// Creates an error from a class and a ready message.
    pub fn new(kind: ErrorKind, message: String) -> (r: Error)
        ensures
            r.kind == kind,
            r.message@ == message@,
    {
        Error { kind, message }
    }

    /// Creates a configuration error.
    pub fn config(message: &str) -> (r: Error)
        ensures
            r.kind == ErrorKind::Config,
            r.message@ == message@,
    {
        Error { kind: ErrorKind::Config, message: String::from_str(message) }
    }

    /// Creates a transport error.
    pub fn transport(message: &str) -> (r: Error)
        ensures
            r.kind == ErrorKind::Transport,
            r.message@ == message@,
    {
        Error { kind: ErrorKind::Transport, message: String::from_str(message) }
    }

    /// Creates a protocol error.
    pub fn protocol(message: &str) -> (r: Error)
        ensures
            r.kind == ErrorKind::Protocol,
            r.message@ == message@,
    {
        Error { kind: ErrorKind::Protocol, message: String::from_str(message) }
    }

    /// Creates a verification error.
    pub fn verification(message: &str) -> (r: Error)
        ensures
            r.kind == ErrorKind::Verification,
            r.message@ == message@,
    {
        Error { kind: ErrorKind::Verification, message: String::from_str(message) }
    }
}

} // verus!
