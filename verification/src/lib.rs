//! Repeated, concurrent execution of one command to expose flaky failures.
//!
//! A run executes the same command many times on a pool of workers and
//! collects what each invocation left behind. This library holds the rules
//! of such a run: what a valid configuration is and what is launched for it,
//! how arriving results are turned into recorded failures, when collection
//! stops, what the final summary consists of and which exit code stands for
//! the end of the run. Starting processes and drawing on the terminal are left to
//! the caller.

pub mod aggregator;
pub mod channel;
pub mod config;
pub mod error;
pub mod invocation;
pub mod laws;
pub mod outcome;
pub mod percent;

pub use aggregator::{Aggregator, Phase, Reaction};
pub use channel::publish;
pub use config::{FlakyFinder, FlakyFinderBuilder, LaunchPlan};
pub use error::{exit_code, ConfigError, FlakyFinderError, FlakyFinderResult};
pub use invocation::InvocationResult;
pub use outcome::{ReportItem, RunOutcome, Stream};
pub use percent::{percent_of_error_found, Percent};
