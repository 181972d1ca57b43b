//! Outcomes of subprocess runs and of whole operations.

use vstd::prelude::*;

verus! {

/// What one finished subprocess invocation reported: whether it exited
/// successfully, and its captured output streams decoded to text.
#[derive(Debug, PartialEq, Eq)]
pub struct ProcessOutcome {
    pub exit_success: bool,
    pub stdout: String,
    pub stderr: String,
}

/// The single result an orchestrated operation yields to its caller:
/// a human-readable success message or a human-readable failure message.
#[derive(Debug, PartialEq, Eq)]
pub enum OperationResult {
    Success(String),
    Failure(String),
}

} // verus!
