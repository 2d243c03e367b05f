//! What holds of every collection, whatever the command under test does and
//! in whatever order its results arrive.

use crate::aggregator::{Phase, RunState};
use crate::invocation::InvocationRecord;
use vstd::prelude::*;

verus! {

/// Every result in `arrivals` is that of an invocation that exited with zero.
pub open spec fn all_pass(arrivals: Seq<InvocationRecord>) -> bool {
    forall|i: int| 0 <= i < arrivals.len() ==> (#[trigger] arrivals[i]).exit_succeeded
}

/// Every result in `arrivals` is that of an invocation that did not exit with zero.
pub open spec fn all_fail(arrivals: Seq<InvocationRecord>) -> bool {
    forall|i: int| 0 <= i < arrivals.len() ==> !(#[trigger] arrivals[i]).exit_succeeded
}

/// The results in `arrivals` that did not exit with zero, in their order.
pub open spec fn failing(arrivals: Seq<InvocationRecord>) -> Seq<InvocationRecord> {
    arrivals.filter(|result: InvocationRecord| !result.exit_succeeded)
}

/// A collection never leaves the states it is meant to be in: no arrival,
/// and no closing of the channel, takes a well-formed state to another kind.
pub proof fn law_collection_stays_well_formed(state: RunState, event: Option<InvocationRecord>)
    requires
        state.wf(),
    ensures
        state.on_event(event).wf(),
{
}

/// The settings of a run do not change while its results arrive.
pub proof fn law_settings_are_kept(state: RunState, arrivals: Seq<InvocationRecord>)
    ensures
        state.after(arrivals).runs == state.runs,
        state.after(arrivals).should_continue == state.should_continue,
        state.after(arrivals).show_errors_as_summary == state.show_errors_as_summary,
    decreases arrivals.len(),
{
    if arrivals.len() > 0 {
        law_settings_are_kept(state, arrivals.drop_last());
    }
}

/// Whatever arrives, there are never more failures on record than runs were
/// asked for, nor more than results were observed; and a run that stops at
/// the first failure never has more than one on record.
pub proof fn law_failures_are_bounded(
    runs: nat,
    should_continue: bool,
    show_errors_as_summary: bool,
    arrivals: Seq<InvocationRecord>,
)
    requires
        runs > 0,
    ensures
        ({
            let end = RunState::initial(runs, should_continue, show_errors_as_summary).after(arrivals);
            &&& end.wf()
            &&& end.failures.len() <= end.observed <= runs
            &&& end.observed <= arrivals.len()
            &&& !should_continue ==> end.failures.len() <= 1
        }),
    decreases arrivals.len(),
{
    let start = RunState::initial(runs, should_continue, show_errors_as_summary);
    law_settings_are_kept(start, arrivals);
    if arrivals.len() > 0 {
        law_failures_are_bounded(runs, should_continue, show_errors_as_summary, arrivals.drop_last());
    }
}

/// A command that always exits with zero leaves no failure on record, and
/// once all its runs have been observed the collection is drained.
pub proof fn law_passing_command_finds_nothing(
    runs: nat,
    should_continue: bool,
    show_errors_as_summary: bool,
    arrivals: Seq<InvocationRecord>,
)
    requires
        runs > 0,
        all_pass(arrivals),
    ensures
        ({
            let end = RunState::initial(runs, should_continue, show_errors_as_summary).after(arrivals);
            &&& end.succeeded()
            &&& end.failures.len() == 0
            &&& arrivals.len() < runs ==> end.phase == Phase::Running && end.observed == arrivals.len()
            &&& arrivals.len() >= runs ==> end.phase == Phase::Drained && end.observed == runs
        }),
    decreases arrivals.len(),
{
    let start = RunState::initial(runs, should_continue, show_errors_as_summary);
    if arrivals.len() > 0 {
        law_settings_are_kept(start, arrivals.drop_last());
        law_passing_command_finds_nothing(
            runs,
            should_continue,
            show_errors_as_summary,
            arrivals.drop_last(),
        );
    }
}

/// A command that always fails, collected without stopping at the first
/// failure, leaves every one of its results on record, in order of arrival:
/// as many failures as runs, once all have been observed.
pub proof fn law_failing_command_fails_every_run(
    runs: nat,
    show_errors_as_summary: bool,
    arrivals: Seq<InvocationRecord>,
)
    requires
        runs > 0,
        all_fail(arrivals),
        arrivals.len() <= runs,
    ensures
        ({
            let end = RunState::initial(runs, true, show_errors_as_summary).after(arrivals);
            &&& end.failures == arrivals
            &&& end.observed == arrivals.len()
            &&& arrivals.len() < runs ==> end.phase == Phase::Running
            &&& arrivals.len() == runs ==> end.failures.len() == runs && end.phase == Phase::Drained
            &&& arrivals.len() > 0 ==> !end.succeeded()
        }),
    decreases arrivals.len(),
{
    let start = RunState::initial(runs, true, show_errors_as_summary);
    if arrivals.len() > 0 {
        law_settings_are_kept(start, arrivals.drop_last());
        law_failing_command_fails_every_run(runs, show_errors_as_summary, arrivals.drop_last());
    }
}

/// A command that always fails, collected with a stop at the first failure,
/// leaves exactly its first result on record, and the collection stops there.
pub proof fn law_first_failure_stops_collection(
    runs: nat,
    show_errors_as_summary: bool,
    arrivals: Seq<InvocationRecord>,
)
    requires
        runs > 0,
        all_fail(arrivals),
        arrivals.len() > 0,
    ensures
        ({
            let end = RunState::initial(runs, false, show_errors_as_summary).after(arrivals);
            &&& end.failures == seq![arrivals[0]]
            &&& end.failures.len() == 1
            &&& end.observed == 1
            &&& end.phase == Phase::StoppedEarly
            &&& !end.succeeded()
        }),
    decreases arrivals.len(),
{
    let start = RunState::initial(runs, false, show_errors_as_summary);
    if arrivals.len() > 1 {
        law_settings_are_kept(start, arrivals.drop_last());
        law_first_failure_stops_collection(runs, show_errors_as_summary, arrivals.drop_last());
    } else {
        assert(start.after(arrivals.drop_last()) == start);
        assert(start.after(arrivals).failures =~= seq![arrivals[0]]);
    }
}

/// Of a run of more than one invocation of a command that always fails,
/// collected with a stop at the first failure, fewer results are observed
/// than runs were asked for.
pub proof fn law_stop_comes_before_the_last_run(
    runs: nat,
    show_errors_as_summary: bool,
    arrivals: Seq<InvocationRecord>,
)
    requires
        runs > 1,
        all_fail(arrivals),
    ensures
        RunState::initial(runs, false, show_errors_as_summary).after(arrivals).observed < runs,
{
    if arrivals.len() > 0 {
        law_first_failure_stops_collection(runs, show_errors_as_summary, arrivals);
    }
}

/// Collected without stopping at the first failure, a run has on record
/// exactly the failing ones among the results that arrived, in their order.
pub proof fn law_failures_are_the_failing_arrivals(
    runs: nat,
    show_errors_as_summary: bool,
    arrivals: Seq<InvocationRecord>,
)
    requires
        runs > 0,
        arrivals.len() <= runs,
    ensures
        ({
            let end = RunState::initial(runs, true, show_errors_as_summary).after(arrivals);
            &&& end.failures == failing(arrivals)
            &&& end.observed == arrivals.len()
            &&& end.is_running() <==> arrivals.len() < runs
        }),
    decreases arrivals.len(),
{
    reveal(Seq::filter);
    let start = RunState::initial(runs, true, show_errors_as_summary);
    if arrivals.len() > 0 {
        law_settings_are_kept(start, arrivals.drop_last());
        law_failures_are_the_failing_arrivals(runs, show_errors_as_summary, arrivals.drop_last());
    }
}

/// Collected with a stop at the first failure, a run has on record the
/// first failing one among the results that arrived, and nothing else; it
/// goes on for as long as nothing has failed and results are still owed.
pub proof fn law_stop_keeps_the_first_failure(
    runs: nat,
    show_errors_as_summary: bool,
    arrivals: Seq<InvocationRecord>,
)
    requires
        runs > 0,
        arrivals.len() <= runs,
    ensures
        ({
            let end = RunState::initial(runs, false, show_errors_as_summary).after(arrivals);
            let failed = failing(arrivals);
            &&& failed.len() == 0 ==> end.failures.len() == 0 && end.observed == arrivals.len()
            &&& failed.len() > 0 ==> end.failures == seq![failed[0]] && end.phase
                == Phase::StoppedEarly
            &&& end.is_running() <==> failed.len() == 0 && arrivals.len() < runs
        }),
    decreases arrivals.len(),
{
    reveal(Seq::filter);
    let start = RunState::initial(runs, false, show_errors_as_summary);
    if arrivals.len() > 0 {
        law_settings_are_kept(start, arrivals.drop_last());
        law_stop_keeps_the_first_failure(runs, show_errors_as_summary, arrivals.drop_last());
    }
}

/// Results that arrive once a collection has ended change nothing.
pub proof fn law_late_results_are_discarded(state: RunState, arrivals: Seq<InvocationRecord>)
    requires
        !state.is_running(),
    ensures
        state.after(arrivals) == state,
    decreases arrivals.len(),
{
    if arrivals.len() > 0 {
        law_late_results_are_discarded(state, arrivals.drop_last());
    }
}

} // verus!
