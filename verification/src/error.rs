//! Errors of a session with an agent.

use vstd::prelude::*;

verus! {

/// A failure that the operating system reported for a read, a write or a
/// connection attempt.
#[derive(Clone, Debug, PartialEq, Eq)]
pub struct IoError {
    /// The operating system's error code, if it gave one.
    pub raw_os_error: Option<i32>,
    /// The error in words.
    pub message: String,
}

/// Why a call on a session failed.
#[derive(Clone, Debug, PartialEq, Eq)]
pub enum AgentError {
    /// Writing the request or reading the response failed.
    Io(IoError),
    /// The bytes received do not make up a well-formed response.
    Protocol,
    /// The agent closed the channel before a response was decoded.
    Disconnected,
    /// A well-formed response arrived that the operation does not allow.
    UnexpectedResponse,
}

impl AgentError {
    /// The error in words.
    pub open spec fn message(self) -> Seq<char> {
        match self {
            AgentError::Io(error) => error.message@,
            AgentError::Protocol => "malformed response"@,
            AgentError::Disconnected => "server disconnected"@,
            AgentError::UnexpectedResponse => "unexpected response received"@,
        }
    }

    /// Whether the channel must be given up after this error: the bytes on it
    /// can no longer be told apart into responses. After an unexpected
    /// response the channel is still in step and may be used again.
    pub open spec fn is_fatal(self) -> bool {
        !(self is UnexpectedResponse)
    }

    /// Describes the error for a reader.
    pub fn describe(&self) -> (text: String)
        ensures
            text@ == self.message(),
    {
        match self {
            AgentError::Io(error) => error.message.clone(),
            AgentError::Protocol => "malformed response".to_owned(),
            AgentError::Disconnected => "server disconnected".to_owned(),
            AgentError::UnexpectedResponse => "unexpected response received".to_owned(),
        }
    }

    /// Tells whether the channel must be given up after this error.
    pub fn fatal(&self) -> (fatal: bool)
        ensures
            fatal == self.is_fatal(),
    {
        match self {
            AgentError::UnexpectedResponse => false,
            _ => true,
        }
    }
}

} // verus!
