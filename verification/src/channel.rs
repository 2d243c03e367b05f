//! The channel on which workers publish their results and from which the
//! results are collected.

use crate::aggregator::{Aggregator, Reaction, RunState};
use crate::config::FlakyFinder;
use crate::error::{ConfigError, FlakyFinderError, FlakyFinderResult};
use crate::invocation::{InvocationRecord, InvocationResult};
use crate::outcome::RunOutcome;
use crossbeam_channel::{Receiver, Sender};
use vstd::prelude::*;

verus! {

/// `crossbeam_channel::Receiver`, the receiving end of a channel. It is
/// carried through as it is: nothing is known of what it holds.
#[verifier::external_type_specification]
#[verifier::external_body]
#[verifier::reject_recursive_types(T)]
pub struct ExReceiver<T>(Receiver<T>);

/// `crossbeam_channel::Sender`, the sending end of a channel. It is carried
/// through as it is: nothing is known of what it holds.
#[verifier::external_type_specification]
#[verifier::external_body]
#[verifier::reject_recursive_types(T)]
pub struct ExSender<T>(Sender<T>);

/// Calls `crossbeam_channel::Sender::send`: puts `result` on the channel,
/// waiting for room while the channel is full, and says whether it went in.
/// It does not go in once every receiver is gone. Which of the two happens
/// depends on the collecting side, so nothing is claimed of the answer. The
/// call does not come back while the channel stays full with a receiver
/// still alive.
#[verifier::external_body]
fn send(results: &Sender<InvocationResult>, result: InvocationResult) -> (delivered: bool) {
    match results.send(result) {
        Ok(()) => true,
        Err(_) => false,
    }
}

/// Calls `crossbeam_channel::Receiver::recv`: blocks until a result is
/// available and hands it out, or yields nothing once the channel is empty
/// and every sender is gone. Which of the two happens, and with which result,
/// depends on the workers, so nothing is claimed of the value. The call does
/// not come back while the channel stays empty with a sender still alive.
#[verifier::external_body]
fn receive(results: &Receiver<InvocationResult>) -> (arrival: Option<InvocationResult>) {
    match results.recv() {
        Ok(result) => Some(result),
        Err(_) => None,
    }
}

/// What a worker does with one attempt to execute the command: the result of
/// an invocation that ran is published on `results`, whether it passed or
/// not. An invocation that could not be started at all is a fatal error and
/// nothing is published for it; a channel that nobody collects from any more
/// is a fatal error too.
pub fn publish(
    results: &Sender<InvocationResult>,
    attempt: Option<InvocationResult>,
) -> (published: FlakyFinderResult<()>)
    ensures
        attempt is None ==> published == Err::<(), FlakyFinderError>(FlakyFinderError::Launch),
        attempt is Some ==> published == Ok::<(), FlakyFinderError>(())
            || published == Err::<(), FlakyFinderError>(FlakyFinderError::Channel),
{
    match attempt {
        None => Err(FlakyFinderError::Launch),
        Some(result) => {
            if send(results, result) {
                Ok(())
            } else {
                Err(FlakyFinderError::Channel)
            }
        },
    }
}

impl Aggregator {
    /// Waits for the next result on `results` and takes it into account; a
    /// closed channel ends the collection. Once collection has ended the
    /// channel is not read any more.
    pub fn await_next(&mut self, results: &Receiver<InvocationResult>) -> (reaction: Reaction)
        requires
            old(self)@.wf(),
        ensures
            final(self)@.wf(),
            !old(self)@.is_running() ==> final(self)@ == old(self)@ && reaction == Reaction::Finished,
            exists|event: Option<InvocationRecord>|
                final(self)@ == #[trigger] old(self)@.on_event(event)
                    && reaction == old(self)@.reaction_to(event),
    {
        if !self.is_running() {
            return Reaction::Finished;
        }
        match receive(results) {
            Some(result) => {
                let ghost event = Some(result@);
                let reaction = self.observe(result);
                assert(self@ == old(self)@.on_event(event));
                reaction
            },
            None => {
                self.close();
                assert(self@ == old(self)@.on_event(None));
                Reaction::Finished
            },
        }
    }
}

impl FlakyFinder {
    /// Collects the results of this run from `results`, showing nothing
    /// meanwhile, until as many results as runs have arrived, the channel is
    /// closed, or a failure stops the collection. What is found is what the
    /// results that were taken from the channel, in their order of arrival,
    /// lead to. Nothing is read for a configuration with a defect.
    pub fn run(&self, results: &Receiver<InvocationResult>) -> (found: Result<RunOutcome, ConfigError>)
        ensures
            match self@.defect() {
                Some(defect) => found == Err::<RunOutcome, ConfigError>(defect),
                None => found matches Ok(outcome) && outcome@.wf() && exists|
                    arrivals: Seq<InvocationRecord>,
                |
                    arrivals.len() <= self@.runs && outcome@ == (#[trigger] RunState::initial(
                        self@.runs,
                        self@.should_continue,
                        self@.show_errors_as_summary,
                    ).after(arrivals)).outcome(),
            },
    {
        let mut aggregator = match self.start() {
            Err(defect) => { return Err(defect); },
            Ok(aggregator) => aggregator,
        };
        let ghost start = aggregator@;
        let ghost mut arrivals: Seq<InvocationRecord> = Seq::empty();
        loop
            invariant
                start == RunState::initial(
                    self@.runs,
                    self@.should_continue,
                    self@.show_errors_as_summary,
                ),
                aggregator@.wf(),
                aggregator@.runs == self@.runs,
                aggregator@.is_running() ==> aggregator@ == start.after(arrivals),
                aggregator@.outcome() == start.after(arrivals).outcome(),
                aggregator@.observed == arrivals.len(),
            ensures
                !aggregator@.is_running(),
            decreases aggregator@.runs - aggregator@.observed,
        {
            let ghost before = aggregator@;
            let reaction = aggregator.await_next(results);
            proof {
                let event = choose|event: Option<InvocationRecord>|
                    aggregator@ == #[trigger] before.on_event(event) && reaction
                        == before.reaction_to(event);
                if before.is_running() {
                    if let Some(result) = event {
                        let longer = arrivals.push(result);
                        assert(longer.drop_last() =~= arrivals);
                        arrivals = longer;
                    }
                }
            }
            if matches!(reaction, Reaction::Finished) {
                break;
            }
        }
        let outcome = aggregator.finish();
        Ok(outcome)
    }
}

} // verus!
