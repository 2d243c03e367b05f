//! The record that one execution of the command under test leaves behind.

use vstd::prelude::*;

verus! {

/// What one invocation produced: whether it exited with status zero, and the
/// raw bytes it wrote to its two output streams.
#[derive(Debug, Clone, PartialEq, Eq)]
pub struct InvocationResult {
    pub exit_succeeded: bool,
    pub stdout: Vec<u8>,
    pub stderr: Vec<u8>,
}

/// The mathematical value of an [`InvocationResult`].
pub struct InvocationRecord {
    pub exit_succeeded: bool,
    pub stdout: Seq<u8>,
    pub stderr: Seq<u8>,
}

impl View for InvocationResult {
    type V = InvocationRecord;

    open spec fn view(&self) -> InvocationRecord {
        InvocationRecord {
            exit_succeeded: self.exit_succeeded,
            stdout: self.stdout@,
            stderr: self.stderr@,
        }
    }
}

impl InvocationResult {
    /// Builds the record of a finished invocation from its exit code and the
    /// captured streams. An invocation succeeded exactly when it exited with
    /// code zero; one that ended without a code (killed by a signal) failed.
    pub fn from_exit(exit_code: Option<i32>, stdout: Vec<u8>, stderr: Vec<u8>) -> (result: Self)
        ensures
            result@.exit_succeeded == (exit_code == Some(0i32)),
            result@.stdout == stdout@,
            result@.stderr == stderr@,
    {
        let exit_succeeded = match exit_code {
            Some(code) => code == 0,
            None => false,
        };
        InvocationResult { exit_succeeded, stdout, stderr }
    }
}

/// The mathematical values of a list of results, in the same order.
pub open spec fn records(results: Seq<InvocationResult>) -> Seq<InvocationRecord> {
    results.map_values(|r: InvocationResult| r@)
}

} // verus!
