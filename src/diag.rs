//! Errors of the diagnostic command layer

use vstd::prelude::*;

use crate::channel::ChannelError;

verus! {

/// Diagnostic server result
pub type DiagServerResult<T> = Result<T, DiagError>;

/// Error produced while executing a diagnostic command
#[derive(Debug)]
pub enum DiagError {
    /// The channel failed to carry the request or the response
    ChannelError(ChannelError),
    /// The ECU rejected the request with a negative response code
    ECUError {
        /// Negative response code sent by the ECU
        code: u8,
        /// Description of the code
        def: Option<String>,
    },
    /// The response is too short to hold the fields the request expects
    InvalidResponseLength,
    /// The response answers another service than the one requested
    WrongMessage,
}

} // verus!
