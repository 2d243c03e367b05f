//! The policy by which arriving results are collected: which results are
//! kept, what is shown while the run goes on, and when collection stops.

use crate::invocation::{records, InvocationRecord, InvocationResult};
use crate::outcome::{Outcome, RunOutcome};
use crate::percent::{percent_of_error_found, percent_tenths, Percent};
use vstd::prelude::*;

verus! {

/// Where the collection of results stands.
#[derive(Debug, Clone, Copy, PartialEq, Eq, Structural)]
pub enum Phase {
    /// Results are still being accepted.
    Running,
    /// A failure arrived while the run was set to stop at the first one.
    StoppedEarly,
    /// Every result was observed, or the channel was closed.
    Drained,
}

/// What the caller has to show for one arrival.
#[derive(Debug, Clone, Copy, PartialEq, Eq, Structural)]
pub enum Reaction {
    /// Nothing was consumed: collection has ended.
    Finished,
    /// A passing result: the progress counter advances by one.
    Passed,
    /// A failing result was recorded: the progress counter advances by one,
    /// the live display shows `percent`, the captured output of the failure
    /// is printed now if `show_now` is set, and no further result will be
    /// accepted if `stop` is set.
    Failed { percent: Percent, show_now: bool, stop: bool },
}

/// The mathematical state of a collection in progress.
pub struct RunState {
    pub runs: nat,
    pub should_continue: bool,
    pub show_errors_as_summary: bool,
    pub observed: nat,
    pub failures: Seq<InvocationRecord>,
    pub phase: Phase,
}

impl RunState {
    /// The state before any result has arrived.
    pub open spec fn initial(runs: nat, should_continue: bool, show_errors_as_summary: bool) -> RunState {
        RunState {
            runs,
            should_continue,
            show_errors_as_summary,
            observed: 0,
            failures: Seq::empty(),
            phase: Phase::Running,
        }
    }

    /// The states that a collection can be in.
    pub open spec fn wf(self) -> bool {
        &&& self.runs > 0
        &&& self.observed <= self.runs
        &&& self.failures.len() <= self.observed
        &&& forall|i: int| 0 <= i < self.failures.len() ==> !(#[trigger] self.failures[i]).exit_succeeded
        &&& self.phase == Phase::Running ==> self.observed < self.runs
        &&& !self.should_continue && self.phase == Phase::Running ==> self.failures.len() == 0
        &&& !self.should_continue ==> self.failures.len() <= 1
        &&& self.phase == Phase::StoppedEarly ==> !self.should_continue && self.failures.len() == 1
    }

    pub open spec fn is_running(self) -> bool {
        self.phase == Phase::Running
    }

    /// Whether nothing has failed.
    pub open spec fn succeeded(self) -> bool {
        self.failures.len() == 0
    }

    /// The phase that follows the arrival of one more result.
    pub open spec fn phase_after(self, result: InvocationRecord) -> Phase {
        if !result.exit_succeeded && !self.should_continue {
            Phase::StoppedEarly
        } else if self.observed + 1 >= self.runs {
            Phase::Drained
        } else {
            Phase::Running
        }
    }

    /// The state after `result` has arrived. A result that arrives once
    /// collection has ended is discarded.
    pub open spec fn observe(self, result: InvocationRecord) -> RunState {
        if !self.is_running() {
            self
        } else {
            RunState {
                observed: self.observed + 1,
                failures: if result.exit_succeeded {
                    self.failures
                } else {
                    self.failures.push(result)
                },
                phase: self.phase_after(result),
                ..self
            }
        }
    }

    /// What the caller shows for the arrival of `result` in this state.
    pub open spec fn reaction(self, result: InvocationRecord) -> Reaction {
        if !self.is_running() {
            Reaction::Finished
        } else if result.exit_succeeded {
            Reaction::Passed
        } else {
            Reaction::Failed {
                percent: Percent {
                    tenths: percent_tenths(self.failures.len() + 1, self.runs) as u128,
                },
                show_now: !self.show_errors_as_summary,
                stop: !self.should_continue,
            }
        }
    }

    /// The state after the channel has been found closed.
    pub open spec fn close(self) -> RunState {
        if self.is_running() {
            RunState { phase: Phase::Drained, ..self }
        } else {
            self
        }
    }

    /// The state after an arrival, or after the channel was found closed.
    pub open spec fn on_event(self, event: Option<InvocationRecord>) -> RunState {
        match event {
            Some(result) => self.observe(result),
            None => self.close(),
        }
    }

    /// What the caller shows for an arrival, or for a closed channel.
    pub open spec fn reaction_to(self, event: Option<InvocationRecord>) -> Reaction {
        match event {
            Some(result) => self.reaction(result),
            None => Reaction::Finished,
        }
    }

    /// What a collection that has ended in this state has found.
    pub open spec fn outcome(self) -> Outcome {
        Outcome {
            runs: self.runs,
            failures: self.failures,
            show_errors_as_summary: self.show_errors_as_summary,
        }
    }

    /// The state after all of `arrivals` have arrived, in this order.
    pub open spec fn after(self, arrivals: Seq<InvocationRecord>) -> RunState
        decreases arrivals.len(),
    {
        if arrivals.len() == 0 {
            self
        } else {
            self.after(arrivals.drop_last()).observe(arrivals.last())
        }
    }
}

/// The single consumer of the results of a run. It owns the failures seen so
/// far and decides, arrival by arrival, what is kept and when to stop.
#[derive(Debug)]
pub struct Aggregator {
    runs: u64,
    should_continue: bool,
    show_errors_as_summary: bool,
    observed: u64,
    failures: Vec<InvocationResult>,
    phase: Phase,
}

impl View for Aggregator {
    type V = RunState;

    closed spec fn view(&self) -> RunState {
        RunState {
            runs: self.runs as nat,
            should_continue: self.should_continue,
            show_errors_as_summary: self.show_errors_as_summary,
            observed: self.observed as nat,
            failures: records(self.failures@),
            phase: self.phase,
        }
    }
}

impl Aggregator {
    /// Starts a collection of `runs` results. A run of no invocation at all
    /// cannot be collected: it yields nothing.
    pub fn new(runs: u64, should_continue: bool, show_errors_as_summary: bool) -> (started: Option<Aggregator>)
        ensures
            started.is_some() <==> runs > 0,
            started matches Some(aggregator) ==> {
                &&& aggregator@ == RunState::initial(runs as nat, should_continue, show_errors_as_summary)
                &&& aggregator@.wf()
            },
    {
        if runs == 0 {
            None
        } else {
            let aggregator = Aggregator {
                runs,
                should_continue,
                show_errors_as_summary,
                observed: 0,
                failures: Vec::new(),
                phase: Phase::Running,
            };
            assert(aggregator@.failures =~= Seq::empty());
            Some(aggregator)
        }
    }

    /// Takes one arrived result into account and says what to show for it.
    pub fn observe(&mut self, result: InvocationResult) -> (reaction: Reaction)
        requires
            old(self)@.wf(),
        ensures
            final(self)@ == old(self)@.observe(result@),
            reaction == old(self)@.reaction(result@),
            final(self)@.wf(),
    {
        if !matches!(self.phase, Phase::Running) {
            return Reaction::Finished;
        }
        self.observed = self.observed + 1;
        let last = self.observed >= self.runs;
        if result.exit_succeeded {
            if last {
                self.phase = Phase::Drained;
            }
            Reaction::Passed
        } else {
            let ghost before = self.failures@;
            self.failures.push(result);
            assert(records(self.failures@) =~= records(before).push(result@));
            let stop = !self.should_continue;
            if stop {
                self.phase = Phase::StoppedEarly;
            } else if last {
                self.phase = Phase::Drained;
            }
            let percent = percent_of_error_found(self.failures.len() as u64, self.runs);
            Reaction::Failed { percent, show_now: !self.show_errors_as_summary, stop }
        }
    }

    /// Records that the channel is closed: no further result will arrive.
    pub fn close(&mut self)
        requires
            old(self)@.wf(),
        ensures
            final(self)@ == old(self)@.close(),
            final(self)@.wf(),
    {
        if matches!(self.phase, Phase::Running) {
            self.phase = Phase::Drained;
        }
    }

    /// Ends the collection and hands the findings over.
    pub fn finish(self) -> (outcome: RunOutcome)
        requires
            self@.wf(),
            !self@.is_running(),
        ensures
            outcome@ == self@.outcome(),
            outcome@.wf(),
    {
        RunOutcome::assemble(self.runs, self.failures, self.show_errors_as_summary)
    }

    pub fn phase(&self) -> (phase: Phase)
        ensures
            phase == self@.phase,
    {
        self.phase
    }

    pub fn is_running(&self) -> (running: bool)
        ensures
            running == self@.is_running(),
    {
        matches!(self.phase, Phase::Running)
    }

    /// The number of results taken into account so far.
    pub fn observed(&self) -> (observed: u64)
        ensures
            observed == self@.observed,
    {
        self.observed
    }

    /// The failures recorded so far, in order of arrival.
    pub fn failures(&self) -> (failures: &Vec<InvocationResult>)
        ensures
            records(failures@) == self@.failures,
    {
        &self.failures
    }
}

} // verus!
