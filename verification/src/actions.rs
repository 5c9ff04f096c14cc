//! Errors of the action dispatcher.
//!
//! Executing actions (shortcuts, commands, desktop calls) is external
//! collaboration and runs outside the library; only the error vocabulary
//! those call sites share is defined here.

use vstd::prelude::*;
use vstd::string::StringExecFns;

verus! {

/// Action error type
#[derive(Debug, Clone)]
pub enum ActionError {
    /// Action execution failed with reason
    ExecutionFailed(String),
    /// Action timed out
    Timeout,
    /// Invalid action configuration
    InvalidAction,
    /// Shell command execution failed
    ShellExecution(String),
}

impl ActionError {
    /// A human-readable description of the error.
    pub fn message(&self) -> (r: String)
        ensures
            *self matches ActionError::ExecutionFailed(m) ==> r@ == "Execution failed: "@ + m@,
            *self is Timeout ==> r@ == "Action timed out"@,
            *self is InvalidAction ==> r@ == "Invalid action configuration"@,
            *self matches ActionError::ShellExecution(m) ==> r@ == "Shell execution failed: "@
                + m@,
    {
        match self {
            ActionError::ExecutionFailed(m) => String::from_str("Execution failed: ").concat(
                m.as_str(),
            ),
            ActionError::Timeout => String::from_str("Action timed out"),
            ActionError::InvalidAction => String::from_str("Invalid action configuration"),
            ActionError::ShellExecution(m) => String::from_str("Shell execution failed: ").concat(
                m.as_str(),
            ),
        }
    }
}

} // verus!
