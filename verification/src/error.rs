//! The ways in which a run can fail to take place, as opposed to the
//! failures of the command under test, which are findings and not errors.

use vstd::prelude::*;

verus! {

/// A configuration that must not be run.
#[derive(Debug, Clone, Copy, PartialEq, Eq, Structural)]
pub enum ConfigError {
    /// The command would be executed zero times.
    ZeroRuns,
    /// There would be no worker to execute the command.
    ZeroWorkers,
    /// There are more runs than results can be held in memory.
    TooManyRuns,
}

/// Why a run was abandoned.
#[derive(Debug, Clone, Copy, PartialEq, Eq, Structural)]
pub enum FlakyFinderError {
    /// The configuration has a defect; no invocation was attempted.
    Config(ConfigError),
    /// The shell that runs the command could not be started.
    Launch,
    /// A worker could not publish its result.
    Channel,
}

pub type FlakyFinderResult<T> = Result<T, FlakyFinderError>;

/// The exit code of a run without a failing invocation.
pub const EXIT_CLEAN: i32 = 0;

/// The exit code of a run in which at least one invocation failed.
pub const EXIT_FLAKY: i32 = 1;

/// The exit code of a run that was abandoned.
pub const EXIT_FATAL: i32 = 101;

/// The exit code that stands for the end of a run: `Ok(true)` where nothing
/// failed, `Ok(false)` where a failure was recorded, an error where the run
/// was abandoned.
pub open spec fn spec_exit_code(end: FlakyFinderResult<bool>) -> i32 {
    match end {
        Ok(true) => EXIT_CLEAN,
        Ok(false) => EXIT_FLAKY,
        Err(_) => EXIT_FATAL,
    }
}

/// Maps the end of a run to the exit code of the process.
pub fn exit_code(end: &FlakyFinderResult<bool>) -> (code: i32)
    ensures
        code == spec_exit_code(*end),
        code == 0 <==> *end == Ok::<bool, FlakyFinderError>(true),
{
    match end {
        Ok(true) => EXIT_CLEAN,
        Ok(false) => EXIT_FLAKY,
        Err(_) => EXIT_FATAL,
    }
}

} // verus!
