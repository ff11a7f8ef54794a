//! The library's error type and its messages.

use vstd::prelude::*;
use vstd::std_specs::convert::FromSpecImpl;
use crate::text::concat2;

verus! {

/// `std::io::Error`, carried through unread.
#[verifier::external_type_specification]
#[verifier::external_body]
pub struct ExIoError(std::io::Error);

/// What can go wrong in a Lagide operation.
#[derive(Debug)]
pub enum LagideError {
    Ssh(String),
    Wsl(String),
    Sftp(String),
    Tunnel(String),
    Config(String),
    Io(std::io::Error),
    SessionNotFound(String),
    CommandFailed(String),
}

/// The result of a Lagide operation.
pub type Result<T> = core::result::Result<T, LagideError>;

/// The words that introduce each kind of error in its message.
pub open spec fn error_prefix(e: LagideError) -> Seq<char> {
    match e {
        LagideError::Ssh(_) => "SSH error: "@,
        LagideError::Wsl(_) => "WSL error: "@,
        LagideError::Sftp(_) => "SFTP error: "@,
        LagideError::Tunnel(_) => "Tunnel error: "@,
        LagideError::Config(_) => "Configuration error: "@,
        LagideError::Io(_) => "IO error: "@,
        LagideError::SessionNotFound(_) => "Session not found: "@,
        LagideError::CommandFailed(_) => "Command execution failed: "@,
    }
}

/// The text that an error carries, for the kinds that carry text.
pub open spec fn error_detail(e: LagideError) -> Option<Seq<char>> {
    match e {
        LagideError::Ssh(s) => Some(s@),
        LagideError::Wsl(s) => Some(s@),
        LagideError::Sftp(s) => Some(s@),
        LagideError::Tunnel(s) => Some(s@),
        LagideError::Config(s) => Some(s@),
        LagideError::Io(_) => None,
        LagideError::SessionNotFound(s) => Some(s@),
        LagideError::CommandFailed(s) => Some(s@),
    }
}

/// The text of an I/O error, as its `Display` writes it.
///
/// Nothing is stated of it: the text comes from the operating system.
#[verifier::external_body]
fn io_error_text(e: &std::io::Error) -> String {
    format!("{}", e)
}

/// Whether `t` is the message of `e`: the prefix of its kind, then its
/// text; for an I/O error, whose text comes from the system, the prefix and
/// then anything.
pub open spec fn is_message_of(e: LagideError, t: Seq<char>) -> bool {
    match error_detail(e) {
        Some(d) => t == error_prefix(e) + d,
        None => t.len() >= error_prefix(e).len() && t.take(error_prefix(e).len() as int)
            == error_prefix(e),
    }
}

impl LagideError {
    /// The message of the error: the prefix of its kind, then its text.
    pub fn message(&self) -> (r: String)
        ensures
            is_message_of(*self, r@),
    {
        match self {
            LagideError::Ssh(s) => concat2("SSH error: ", s.as_str()),
            LagideError::Wsl(s) => concat2("WSL error: ", s.as_str()),
            LagideError::Sftp(s) => concat2("SFTP error: ", s.as_str()),
            LagideError::Tunnel(s) => concat2("Tunnel error: ", s.as_str()),
            LagideError::Config(s) => concat2("Configuration error: ", s.as_str()),
            LagideError::Io(e) => {
                let t = io_error_text(e);
                let r = concat2("IO error: ", t.as_str());
                assert(r@.take(error_prefix(*self).len() as int) =~= error_prefix(*self));
                r
            },
            LagideError::SessionNotFound(s) => concat2("Session not found: ", s.as_str()),
            LagideError::CommandFailed(s) => concat2("Command execution failed: ", s.as_str()),
        }
    }
}

impl From<std::io::Error> for LagideError {
    fn from(e: std::io::Error) -> (r: Self) {
        LagideError::Io(e)
    }
}

impl FromSpecImpl<std::io::Error> for LagideError {
    open spec fn obeys_from_spec() -> bool {
        true
    }

    open spec fn from_spec(v: std::io::Error) -> Self {
        LagideError::Io(v)
    }
}

} // verus!
