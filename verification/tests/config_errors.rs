use flaky_finder::{Aggregator, ConfigError, FlakyFinderBuilder};

#[test]
fn zero_runs_is_rejected() {
    let finder = FlakyFinderBuilder::new().cmd("true").runs(0).nb_threads(4).build();
    assert_eq!(finder.validate(), Err(ConfigError::ZeroRuns));
    assert_eq!(finder.plan(), Err(ConfigError::ZeroRuns));
    assert_eq!(finder.start().err(), Some(ConfigError::ZeroRuns));
}

#[test]
fn zero_workers_is_rejected() {
    let finder = FlakyFinderBuilder::new().cmd("true").runs(5).nb_threads(0).build();
    assert_eq!(finder.validate(), Err(ConfigError::ZeroWorkers));
    assert_eq!(finder.plan(), Err(ConfigError::ZeroWorkers));
    assert_eq!(finder.start().err(), Some(ConfigError::ZeroWorkers));
}

#[test]
fn zero_runs_is_reported_before_zero_workers() {
    let finder = FlakyFinderBuilder::new().runs(0).nb_threads(0).build();
    assert_eq!(finder.validate(), Err(ConfigError::ZeroRuns));
}

#[test]
fn a_valid_configuration_is_accepted() {
    let finder = FlakyFinderBuilder::new().cmd("true").runs(1).nb_threads(1).build();
    assert_eq!(finder.validate(), Ok(()));
    assert!(finder.start().is_ok());
}

#[test]
fn the_largest_run_count_is_accepted_where_it_fits() {
    let finder = FlakyFinderBuilder::new().cmd("true").runs(u64::MAX).build();
    if usize::MAX as u128 >= u64::MAX as u128 {
        assert_eq!(finder.validate(), Ok(()));
    } else {
        assert_eq!(finder.validate(), Err(ConfigError::TooManyRuns));
    }
}

#[test]
fn no_collection_without_runs() {
    assert!(Aggregator::new(0, true, false).is_none());
    assert!(Aggregator::new(0, false, true).is_none());
    assert!(Aggregator::new(1, false, false).is_some());
}
