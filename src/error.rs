use vstd::prelude::*;

verus! {

/// The ways in which an invocation can end without success.
#[derive(Clone, Copy, Debug, PartialEq, Eq, Structural)]
pub enum Error {
    /// The flags do not name any known operation.
    UnrecognizedOperation,
    /// The selected backend does not implement the requested operation.
    BackendUnsupportedOperation,
    /// The external program could not be started.
    ProcessSpawnFailure,
    /// The external program ended with a non-zero exit code.
    ProcessExitFailure(i32),
    /// The user declined a confirmation prompt.
    PromptCanceled,
    /// The persisted configuration could not be read.
    ConfigLoadFailure,
    /// Captured output was not valid text.
    InvalidOutputEncoding,
}

impl Error {
    /// Whether this outcome is the user declining a prompt, which ends the
    /// invocation cleanly rather than as a failure.
    pub fn is_canceled(&self) -> (r: bool)
        ensures
            r == (*self == Error::PromptCanceled),
    {
        match self {
            Error::PromptCanceled => true,
            _ => false,
        }
    }
}

} // verus!
