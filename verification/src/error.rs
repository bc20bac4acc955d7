//! Errors of the node runtime.

use vstd::prelude::*;

verus! {

/// Why a session or a transport operation failed.
#[derive(Debug, Clone, Copy, PartialEq, Eq, Structural)]
pub enum ProtocolError {
    Disconnected,
    Timeout,
    InvalidFrame,
    InvalidMessage,
    DecryptFailed,
    PeerDisconnected,
}

impl ProtocolError {
    /// The human-readable text of the error.
    pub open spec fn spec_text(self) -> &'static str {
        match self {
            ProtocolError::Disconnected => "disconnected",
            ProtocolError::Timeout => "timeout",
            ProtocolError::InvalidFrame => "invalid frame",
            ProtocolError::InvalidMessage => "invalid message",
            ProtocolError::DecryptFailed => "decrypt failed",
            ProtocolError::PeerDisconnected => "peer disconnected",
        }
    }

    pub fn text(&self) -> (r: &'static str)
        ensures
            r == self.spec_text(),
    {
        match self {
            ProtocolError::Disconnected => "disconnected",
            ProtocolError::Timeout => "timeout",
            ProtocolError::InvalidFrame => "invalid frame",
            ProtocolError::InvalidMessage => "invalid message",
            ProtocolError::DecryptFailed => "decrypt failed",
            ProtocolError::PeerDisconnected => "peer disconnected",
        }
    }

    /// The error's text as an owned string.
    pub fn to_string(&self) -> (r: String)
        ensures
            r@ == self.spec_text()@,
    {
        String::from_str(self.text())
    }
}

} // verus!
