//! The error taxonomy of the control channel.

use vstd::prelude::*;

verus! {

/// An error surfaced by one call on the control channel.  Every error is
/// terminal for the call that produced it; this layer never retries.
#[derive(Debug, Clone, Copy, PartialEq, Eq, Structural)]
pub enum WpaError {
    /// The transport reported a generic failure (status -1), or a state
    /// transition received a confirming reply other than `"OK\n"`.
    Failure,
    /// The open primitive returned no handle.
    Interface,
    /// The transport reported a timeout (status -2).
    Timeout,
    /// A reply or event was not valid UTF-8.
    Decode,
    /// The command text cannot be sent: it holds an embedded NUL byte.
    InvalidCommand,
    /// Any other non-zero status code from the transport, carried verbatim.
    Unknown(i32),
}

impl WpaError {
    /// A short human-readable description of the error.
    pub fn message(&self) -> (r: String)
        ensures
            r@ == self.spec_message(),
    {
        match self {
            WpaError::Failure => "An error occurred".to_owned(),
            WpaError::Interface => "Failed to create interface".to_owned(),
            WpaError::Timeout => "Timed out".to_owned(),
            WpaError::Decode => "Reply was not valid UTF-8".to_owned(),
            WpaError::InvalidCommand => "Command holds an embedded NUL".to_owned(),
            WpaError::Unknown(_) => "Unknown error".to_owned(),
        }
    }

    /// The text that [`WpaError::message`] returns for each variant.
    pub open spec fn spec_message(self) -> Seq<char> {
        match self {
            WpaError::Failure => "An error occurred"@,
            WpaError::Interface => "Failed to create interface"@,
            WpaError::Timeout => "Timed out"@,
            WpaError::Decode => "Reply was not valid UTF-8"@,
            WpaError::InvalidCommand => "Command holds an embedded NUL"@,
            WpaError::Unknown(_) => "Unknown error"@,
        }
    }
}

} // verus!
