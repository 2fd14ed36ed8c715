//! Errors of the reactor machinery itself.

use vstd::prelude::*;

verus! {

/// Failures of the channels between the reactor facade and its runtime.
#[derive(Debug)]
pub enum InternalError {
    /// shutdown channel in the reactor is broken
    ShutdownChannelBroken,
    /// control channel is broken; unable to send request
    ControlChannelBroken,
    /// error joining runtime; holds what the runtime thread panicked with,
    /// where that was a message
    ThreadError(String),
}

impl InternalError {
    /// A human-readable description of the error.
    pub fn message(&self) -> (r: String)
        ensures
            self is ShutdownChannelBroken ==> r@ == "shutdown channel in the reactor is broken"@,
            self is ControlChannelBroken ==> r@ == "control channel is broken; unable to send request"@,
            self is ThreadError ==> r@ == "error joining runtime"@,
    {
        match self {
            InternalError::ShutdownChannelBroken => {
                String::from_str("shutdown channel in the reactor is broken")
            },
            InternalError::ControlChannelBroken => {
                String::from_str("control channel is broken; unable to send request")
            },
            InternalError::ThreadError(_) => String::from_str("error joining runtime"),
        }
    }
}

} // verus!
