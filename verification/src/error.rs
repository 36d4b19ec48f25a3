//! Failures that the bridge reports to its caller.

use vstd::prelude::*;

verus! {

/// Why a query could not be answered.
#[derive(Clone, Copy, Debug, PartialEq, Eq, Structural)]
pub enum BridgeError {
    /// A handle was used with a session that did not issue it.
    InvalidHandle,
    /// A body was asked of something that is not a function with code.
    NotExecutable,
}

impl BridgeError {
    /// A short name for the failure, for messages.
    pub fn describe(&self) -> (text: &'static str)
        ensures
            text@ == (match *self {
                BridgeError::InvalidHandle => "invalid handle"@,
                BridgeError::NotExecutable => "not executable"@,
            }),
    {
        match self {
            BridgeError::InvalidHandle => "invalid handle",
            BridgeError::NotExecutable => "not executable",
        }
    }
}

} // verus!
