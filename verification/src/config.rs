//! What a run is asked to do, how such a request is put together, and what
//! is launched for it.

use crate::aggregator::{Aggregator, RunState};
use crate::error::ConfigError;
use vstd::prelude::*;

verus! {

/// The mathematical value of a run's configuration.
pub struct RunConfig {
    pub cmd: Seq<char>,
    pub runs: nat,
    pub nb_threads: nat,
    pub should_continue: bool,
    pub show_errors_as_summary: bool,
    pub warm_up: bool,
}

impl RunConfig {
    /// What is wrong with this configuration, if anything. A run count of
    /// zero is reported before anything else.
    pub open spec fn defect(self) -> Option<ConfigError> {
        if self.runs == 0 {
            Some(ConfigError::ZeroRuns)
        } else if self.nb_threads == 0 {
            Some(ConfigError::ZeroWorkers)
        } else if self.runs > usize::MAX {
            Some(ConfigError::TooManyRuns)
        } else {
            None
        }
    }
}

/// What has to be launched for a valid configuration.
#[derive(Debug, Clone, Copy, PartialEq, Eq, Structural)]
pub struct LaunchPlan {
    /// Whether the command is executed once, alone, before the workers start.
    pub warm_up: bool,
    /// The number of concurrent workers.
    pub workers: usize,
    /// The number of invocations handed to the workers.
    pub tasks: u64,
    /// The capacity of the channel on which the workers publish.
    pub capacity: usize,
}

/// The command to test and the way to test it. Immutable once built.
#[derive(Debug)]
pub struct FlakyFinder {
    /// The actual command that we need to test.
    cmd: String,
    /// How many workers execute the command in parallel.
    nb_threads: u32,
    /// How many times the command is executed.
    runs: u64,
    /// Whether collection goes on after the first failure.
    should_continue: bool,
    /// Whether the output of failures is held back for the final summary.
    show_errors_as_summary: bool,
    /// Whether the command is executed once before the measured runs.
    warm_up: bool,
}

impl View for FlakyFinder {
    type V = RunConfig;

    closed spec fn view(&self) -> RunConfig {
        RunConfig {
            cmd: self.cmd@,
            runs: self.runs as nat,
            nb_threads: self.nb_threads as nat,
            should_continue: self.should_continue,
            show_errors_as_summary: self.show_errors_as_summary,
            warm_up: self.warm_up,
        }
    }
}

impl FlakyFinder {
    /// Accepts the configuration, or names its first defect.
    pub fn validate(&self) -> (checked: Result<(), ConfigError>)
        ensures
            checked == match self@.defect() {
                Some(defect) => Err::<(), ConfigError>(defect),
                None => Ok(()),
            },
    {
        if self.runs == 0 {
            Err(ConfigError::ZeroRuns)
        } else if self.nb_threads == 0 {
            Err(ConfigError::ZeroWorkers)
        } else if self.runs > usize::MAX as u64 {
            Err(ConfigError::TooManyRuns)
        } else {
            Ok(())
        }
    }

    /// Says what to launch: as many workers as configured, one task per run,
    /// and a channel that can hold every result. Nothing is planned for a
    /// configuration with a defect.
    pub fn plan(&self) -> (planned: Result<LaunchPlan, ConfigError>)
        ensures
            match self@.defect() {
                Some(defect) => planned == Err::<LaunchPlan, ConfigError>(defect),
                None => planned matches Ok(plan) && {
                    &&& plan.warm_up == self@.warm_up
                    &&& plan.workers == self@.nb_threads
                    &&& plan.tasks == self@.runs
                    &&& plan.capacity == self@.runs
                },
            },
    {
        match self.validate() {
            Err(defect) => Err(defect),
            Ok(()) => Ok(
                LaunchPlan {
                    warm_up: self.warm_up,
                    workers: self.nb_threads as usize,
                    tasks: self.runs,
                    capacity: self.runs as usize,
                },
            ),
        }
    }

    /// Opens the collection of this run's results. No collection starts for
    /// a configuration with a defect.
    pub fn start(&self) -> (started: Result<Aggregator, ConfigError>)
        ensures
            match self@.defect() {
                Some(defect) => started == Err::<Aggregator, ConfigError>(defect),
                None => started matches Ok(aggregator) && {
                    &&& aggregator@ == RunState::initial(
                        self@.runs,
                        self@.should_continue,
                        self@.show_errors_as_summary,
                    )
                    &&& aggregator@.wf()
                },
            },
    {
        match self.validate() {
            Err(defect) => Err(defect),
            Ok(()) => {
                match Aggregator::new(self.runs, self.should_continue, self.show_errors_as_summary) {
                    Some(aggregator) => Ok(aggregator),
                    None => Err(ConfigError::ZeroRuns),
                }
            },
        }
    }

    pub fn cmd(&self) -> (cmd: &str)
        ensures
            cmd@ == self@.cmd,
    {
        self.cmd.as_str()
    }

    pub fn runs(&self) -> (runs: u64)
        ensures
            runs == self@.runs,
    {
        self.runs
    }

    pub fn nb_threads(&self) -> (nb_threads: u32)
        ensures
            nb_threads == self@.nb_threads,
    {
        self.nb_threads
    }

    pub fn should_continue(&self) -> (should_continue: bool)
        ensures
            should_continue == self@.should_continue,
    {
        self.should_continue
    }

    pub fn show_errors_as_summary(&self) -> (show_errors_as_summary: bool)
        ensures
            show_errors_as_summary == self@.show_errors_as_summary,
    {
        self.show_errors_as_summary
    }

    pub fn warm_up(&self) -> (warm_up: bool)
        ensures
            warm_up == self@.warm_up,
    {
        self.warm_up
    }
}

/// Puts a [`FlakyFinder`] together, option by option.
#[derive(Debug)]
pub struct FlakyFinderBuilder {
    cmd: String,
    nb_threads: u32,
    runs: u64,
    should_continue: bool,
    show_errors_as_summary: bool,
    warm_up: bool,
}

impl View for FlakyFinderBuilder {
    type V = RunConfig;

    closed spec fn view(&self) -> RunConfig {
        RunConfig {
            cmd: self.cmd@,
            runs: self.runs as nat,
            nb_threads: self.nb_threads as nat,
            should_continue: self.should_continue,
            show_errors_as_summary: self.show_errors_as_summary,
            warm_up: self.warm_up,
        }
    }
}

impl FlakyFinderBuilder {
    /// Starts from the defaults: no command, fifty runs on one worker after a
    /// warm-up, stopping at the first failure, with failures shown as they come.
    pub fn new() -> (builder: Self)
        ensures
            builder@ == (RunConfig {
                cmd: Seq::empty(),
                runs: 50,
                nb_threads: 1,
                should_continue: false,
                show_errors_as_summary: false,
                warm_up: true,
            }),
    {
        FlakyFinderBuilder {
            cmd: String::new(),
            nb_threads: 1,
            runs: 50,
            should_continue: false,
            show_errors_as_summary: false,
            warm_up: true,
        }
    }

    /// Sets the command to test.
    pub fn cmd(self, cmd: &str) -> (builder: Self)
        ensures
            builder@ == (RunConfig { cmd: cmd@, ..self@ }),
    {
        FlakyFinderBuilder { cmd: cmd.to_owned(), ..self }
    }

    /// Sets the number of workers.
    pub fn nb_threads(self, nb_threads: u32) -> (builder: Self)
        ensures
            builder@ == (RunConfig { nb_threads: nb_threads as nat, ..self@ }),
    {
        FlakyFinderBuilder { nb_threads, ..self }
    }

    /// Sets the number of times the command is executed.
    pub fn runs(self, runs: u64) -> (builder: Self)
        ensures
            builder@ == (RunConfig { runs: runs as nat, ..self@ }),
    {
        FlakyFinderBuilder { runs, ..self }
    }

    /// Chooses between going on after a failure and stopping at the first one.
    pub fn should_continue(self, should_continue: bool) -> (builder: Self)
        ensures
            builder@ == (RunConfig { should_continue, ..self@ }),
    {
        FlakyFinderBuilder { should_continue, ..self }
    }

    /// Chooses between showing failures as they come and in the final summary only.
    pub fn show_errors_as_summary(self, show_errors_as_summary: bool) -> (builder: Self)
        ensures
            builder@ == (RunConfig { show_errors_as_summary, ..self@ }),
    {
        FlakyFinderBuilder { show_errors_as_summary, ..self }
    }

    /// Chooses whether the command is executed once before the measured runs.
    pub fn warm_up(self, warm_up: bool) -> (builder: Self)
        ensures
            builder@ == (RunConfig { warm_up, ..self@ }),
    {
        FlakyFinderBuilder { warm_up, ..self }
    }

    /// Hands out the configuration as it stands. Its defects, if any, are
    /// found by [`FlakyFinder::validate`].
    pub fn build(self) -> (finder: FlakyFinder)
        ensures
            finder@ == self@,
    {
        FlakyFinder {
            cmd: self.cmd,
            nb_threads: self.nb_threads,
            runs: self.runs,
            should_continue: self.should_continue,
            show_errors_as_summary: self.show_errors_as_summary,
            warm_up: self.warm_up,
        }
    }
}

} // verus!
