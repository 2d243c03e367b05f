use flaky_finder::{FlakyFinderBuilder, LaunchPlan};

#[test]
fn new_test() {
    let _cmd = "cargo test -- --nocapture release_test";
    let cmd = "ls";
    let _ff = FlakyFinderBuilder::new().cmd(cmd).nb_threads(1).build();

    // assert_eq!(true, false);
}

#[test]
#[should_panic]
fn failing_test() {
    assert!(false);
}

#[test]
fn builder_starts_from_the_defaults() {
    let finder = FlakyFinderBuilder::new().build();
    assert_eq!(finder.cmd(), "");
    assert_eq!(finder.runs(), 50);
    assert_eq!(finder.nb_threads(), 1);
    assert!(!finder.should_continue());
    assert!(!finder.show_errors_as_summary());
    assert!(finder.warm_up());
}

#[test]
fn builder_keeps_each_option() {
    let finder = FlakyFinderBuilder::new()
        .cmd("cargo test -- --nocapture release_test")
        .runs(7)
        .nb_threads(3)
        .should_continue(true)
        .show_errors_as_summary(true)
        .warm_up(false)
        .build();
    assert_eq!(finder.cmd(), "cargo test -- --nocapture release_test");
    assert_eq!(finder.runs(), 7);
    assert_eq!(finder.nb_threads(), 3);
    assert!(finder.should_continue());
    assert!(finder.show_errors_as_summary());
    assert!(!finder.warm_up());
}

#[test]
fn builder_last_setting_wins() {
    let finder = FlakyFinderBuilder::new().cmd("true").cmd("false").runs(1).runs(9).build();
    assert_eq!(finder.cmd(), "false");
    assert_eq!(finder.runs(), 9);
}

#[test]
fn plan_follows_the_configuration() {
    let finder = FlakyFinderBuilder::new().cmd("true").runs(20).nb_threads(8).build();
    assert_eq!(
        finder.plan(),
        Ok(LaunchPlan { warm_up: true, workers: 8, tasks: 20, capacity: 20 })
    );
    let cold = FlakyFinderBuilder::new().cmd("true").runs(1).nb_threads(1).warm_up(false).build();
    assert_eq!(
        cold.plan(),
        Ok(LaunchPlan { warm_up: false, workers: 1, tasks: 1, capacity: 1 })
    );
}
