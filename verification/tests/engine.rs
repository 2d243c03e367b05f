use crossbeam_channel::{bounded, Receiver};
use flaky_finder::{
    exit_code, publish, ConfigError, FlakyFinder, FlakyFinderBuilder, FlakyFinderError,
    InvocationResult, Percent, Phase, Reaction,
};
use threadpool::ThreadPool;

/// Launches the planned workers with a stand-in for the command: the task
/// numbered `n`, counted from one, exits with `exit(n)`.
fn launch(finder: &FlakyFinder, exit: fn(u64) -> i32) -> (ThreadPool, Receiver<InvocationResult>) {
    let plan = finder.plan().unwrap();
    let (sender, receiver) = bounded(plan.capacity);
    let pool = ThreadPool::new(plan.workers);
    for task in 1..=plan.tasks {
        let sender = sender.clone();
        pool.execute(move || {
            let output = format!("task {}", task).into_bytes();
            let result = InvocationResult::from_exit(Some(exit(task)), output.clone(), output);
            // The receiver may be gone once the first failure has stopped the run.
            let _ = publish(&sender, Some(result));
        });
    }
    (pool, receiver)
}

#[test]
fn always_failing_command_fails_all_ten_runs() {
    let finder = FlakyFinderBuilder::new()
        .cmd("exit 1")
        .runs(10)
        .nb_threads(4)
        .should_continue(true)
        .build();
    let (pool, receiver) = launch(&finder, |_| 1);
    let outcome = finder.run(&receiver).unwrap();
    pool.join();
    assert_eq!(outcome.failures().len(), 10);
    assert!(!outcome.succeeded());
    assert_ne!(exit_code(&Ok(outcome.succeeded())), 0);
    assert_eq!(outcome.percent_of_error_found(), Percent { tenths: 1000 });
    let mut seen: Vec<Vec<u8>> = outcome.failures().iter().map(|f| f.stdout.clone()).collect();
    seen.sort();
    let mut sent: Vec<Vec<u8>> = (1..=10).map(|n| format!("task {}", n).into_bytes()).collect();
    sent.sort();
    assert_eq!(seen, sent);
}

#[test]
fn always_passing_command_finds_nothing_in_twenty_runs() {
    let finder = FlakyFinderBuilder::new().cmd("true").runs(20).nb_threads(8).build();
    let (pool, receiver) = launch(&finder, |_| 0);
    let outcome = finder.run(&receiver).unwrap();
    pool.join();
    assert_eq!(outcome.failures().len(), 0);
    assert!(outcome.succeeded());
    assert_eq!(exit_code(&Ok(outcome.succeeded())), 0);
}

#[test]
fn first_failure_stops_the_collection() {
    let finder = FlakyFinderBuilder::new()
        .cmd("exit 1")
        .runs(10)
        .nb_threads(4)
        .should_continue(false)
        .build();
    let (pool, receiver) = launch(&finder, |_| 1);
    let mut aggregator = finder.start().unwrap();
    let first = aggregator.await_next(&receiver);
    assert_eq!(
        first,
        Reaction::Failed { percent: Percent { tenths: 100 }, show_now: true, stop: true }
    );
    assert_eq!(aggregator.await_next(&receiver), Reaction::Finished);
    assert_eq!(aggregator.phase(), Phase::StoppedEarly);
    assert_eq!(aggregator.observed(), 1);
    assert!(aggregator.observed() < finder.runs());
    let outcome = aggregator.finish();
    assert_eq!(outcome.failures().len(), 1);
    drop(receiver);
    pool.join();
}

#[test]
fn one_worker_failing_on_its_second_invocation() {
    let finder = FlakyFinderBuilder::new()
        .cmd("test $(cat count) != 2")
        .runs(5)
        .nb_threads(1)
        .should_continue(false)
        .build();
    let (pool, receiver) = launch(&finder, |task| if task == 2 { 1 } else { 0 });
    let outcome = finder.run(&receiver).unwrap();
    assert_eq!(outcome.failures().len(), 1);
    assert_eq!(outcome.failures()[0].stdout, b"task 2".to_vec());
    assert!(!outcome.succeeded());
    drop(receiver);
    pool.join();
}

#[test]
fn a_flaky_command_has_its_failures_counted() {
    let finder = FlakyFinderBuilder::new()
        .cmd("flaky")
        .runs(50)
        .nb_threads(6)
        .should_continue(true)
        .show_errors_as_summary(true)
        .build();
    let (pool, receiver) = launch(&finder, |task| if task % 10 == 0 { 3 } else { 0 });
    let outcome = finder.run(&receiver).unwrap();
    pool.join();
    assert_eq!(outcome.failures().len(), 5);
    assert_eq!(outcome.percent_of_error_found().to_text(), "10.0%");
    assert_eq!(outcome.show_errors().len(), 1 + 3 * 5);
}

#[test]
fn results_are_taken_one_at_a_time() {
    let finder = FlakyFinderBuilder::new().cmd("x").runs(3).should_continue(true).build();
    let (sender, receiver) = bounded(3);
    let mut aggregator = finder.start().unwrap();
    sender.send(InvocationResult::from_exit(Some(0), Vec::new(), Vec::new())).unwrap();
    sender.send(InvocationResult::from_exit(Some(4), b"a".to_vec(), b"b".to_vec())).unwrap();
    assert_eq!(aggregator.await_next(&receiver), Reaction::Passed);
    assert_eq!(aggregator.observed(), 1);
    assert_eq!(
        aggregator.await_next(&receiver),
        Reaction::Failed { percent: Percent { tenths: 333 }, show_now: true, stop: false }
    );
    assert_eq!(aggregator.failures()[0].stdout, b"a".to_vec());
    assert_eq!(aggregator.failures()[0].stderr, b"b".to_vec());
    assert_eq!(receiver.len(), 0);
    sender.send(InvocationResult::from_exit(Some(0), Vec::new(), Vec::new())).unwrap();
    assert_eq!(aggregator.await_next(&receiver), Reaction::Passed);
    assert_eq!(aggregator.phase(), Phase::Drained);
}

#[test]
fn a_closed_channel_ends_the_collection() {
    let finder = FlakyFinderBuilder::new().cmd("x").runs(5).should_continue(true).build();
    let (sender, receiver) = bounded(5);
    sender.send(InvocationResult::from_exit(Some(1), Vec::new(), Vec::new())).unwrap();
    drop(sender);
    let mut aggregator = finder.start().unwrap();
    assert!(matches!(aggregator.await_next(&receiver), Reaction::Failed { .. }));
    assert_eq!(aggregator.phase(), Phase::Running);
    assert_eq!(aggregator.await_next(&receiver), Reaction::Finished);
    assert_eq!(aggregator.phase(), Phase::Drained);
    assert_eq!(aggregator.observed(), 1);
}

#[test]
fn nothing_is_read_once_the_collection_has_ended() {
    let finder = FlakyFinderBuilder::new().cmd("x").runs(2).should_continue(false).build();
    let (sender, receiver) = bounded(2);
    sender.send(InvocationResult::from_exit(Some(1), Vec::new(), Vec::new())).unwrap();
    sender.send(InvocationResult::from_exit(Some(1), Vec::new(), Vec::new())).unwrap();
    let mut aggregator = finder.start().unwrap();
    assert!(matches!(aggregator.await_next(&receiver), Reaction::Failed { stop: true, .. }));
    assert_eq!(aggregator.await_next(&receiver), Reaction::Finished);
    assert_eq!(receiver.len(), 1);
}

#[test]
fn no_more_results_than_runs_are_taken() {
    let finder = FlakyFinderBuilder::new().cmd("x").runs(2).should_continue(true).build();
    let (sender, receiver) = bounded(4);
    for _ in 0..4 {
        sender.send(InvocationResult::from_exit(Some(1), Vec::new(), Vec::new())).unwrap();
    }
    let outcome = finder.run(&receiver).unwrap();
    assert_eq!(outcome.failures().len(), 2);
    assert_eq!(receiver.len(), 2);
}

#[test]
fn nothing_is_read_for_a_run_of_zero_invocations() {
    let finder = FlakyFinderBuilder::new().cmd("exit 1").runs(0).build();
    let (sender, receiver) = bounded(1);
    sender.send(InvocationResult::from_exit(Some(1), Vec::new(), Vec::new())).unwrap();
    assert_eq!(finder.run(&receiver).err(), Some(ConfigError::ZeroRuns));
    assert_eq!(receiver.len(), 1);
}

#[test]
fn a_published_result_arrives_as_it_was_sent() {
    let (sender, receiver) = bounded(2);
    let failed = InvocationResult::from_exit(Some(7), b"out".to_vec(), b"err".to_vec());
    let passed = InvocationResult::from_exit(Some(0), b"fine".to_vec(), Vec::new());
    assert_eq!(publish(&sender, Some(failed.clone())), Ok(()));
    assert_eq!(publish(&sender, Some(passed.clone())), Ok(()));
    assert_eq!(receiver.len(), 2);
    assert_eq!(receiver.recv(), Ok(failed));
    assert_eq!(receiver.recv(), Ok(passed));
}

#[test]
fn an_invocation_that_did_not_start_is_fatal_and_publishes_nothing() {
    let (sender, receiver) = bounded(1);
    assert_eq!(publish(&sender, None), Err(FlakyFinderError::Launch));
    assert_eq!(receiver.len(), 0);
}

#[test]
fn publishing_to_nobody_is_fatal() {
    let (sender, receiver) = bounded(1);
    drop(receiver);
    let result = InvocationResult::from_exit(Some(0), Vec::new(), Vec::new());
    assert_eq!(publish(&sender, Some(result)), Err(FlakyFinderError::Channel));
    assert_eq!(publish(&sender, None), Err(FlakyFinderError::Launch));
}
