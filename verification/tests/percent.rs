use flaky_finder::{percent_of_error_found, Percent};

#[test]
fn one_failure_out_of_fifty_is_two_percent() {
    let rate = percent_of_error_found(1, 50);
    assert_eq!(rate, Percent { tenths: 20 });
    assert_eq!(rate.to_text(), "2.0%");
}

#[test]
fn no_failure_is_zero_percent() {
    assert_eq!(percent_of_error_found(0, 5).to_text(), "0.0%");
    assert_eq!(percent_of_error_found(0, u64::MAX), Percent { tenths: 0 });
}

#[test]
fn every_run_failing_is_one_hundred_percent() {
    assert_eq!(percent_of_error_found(10, 10).to_text(), "100.0%");
    assert_eq!(percent_of_error_found(1, 1), Percent { tenths: 1000 });
    assert_eq!(percent_of_error_found(u64::MAX, u64::MAX), Percent { tenths: 1000 });
}

#[test]
fn rates_round_to_the_nearest_tenth() {
    assert_eq!(percent_of_error_found(1, 3).to_text(), "33.3%");
    assert_eq!(percent_of_error_found(2, 3).to_text(), "66.7%");
    assert_eq!(percent_of_error_found(1, 7).to_text(), "14.3%");
    assert_eq!(percent_of_error_found(1, 8).to_text(), "12.5%");
    assert_eq!(percent_of_error_found(1, 1000).to_text(), "0.1%");
    assert_eq!(percent_of_error_found(999, 1000).to_text(), "99.9%");
    assert_eq!(percent_of_error_found(1, 2001), Percent { tenths: 0 });
    assert_eq!(percent_of_error_found(1, 1999), Percent { tenths: 1 });
}

#[test]
fn halfway_rates_round_to_the_even_tenth() {
    assert_eq!(percent_of_error_found(1, 2000), Percent { tenths: 0 });
    assert_eq!(percent_of_error_found(3, 2000), Percent { tenths: 2 });
    assert_eq!(percent_of_error_found(5, 2000), Percent { tenths: 2 });
    assert_eq!(percent_of_error_found(1, 16).to_text(), "6.2%");
    assert_eq!(percent_of_error_found(3, 16).to_text(), "18.8%");
}

#[test]
fn counts_beyond_the_runs_do_not_overflow() {
    assert_eq!(percent_of_error_found(3, 2).to_text(), "150.0%");
    let rate = percent_of_error_found(u64::MAX, 1);
    assert_eq!(rate.tenths, u64::MAX as u128 * 1000);
    assert_eq!(rate.to_text(), "1844674407370955161500.0%");
}

#[test]
fn text_has_one_decimal_place() {
    assert_eq!(Percent { tenths: 0 }.to_text(), "0.0%");
    assert_eq!(Percent { tenths: 7 }.to_text(), "0.7%");
    assert_eq!(Percent { tenths: 10 }.to_text(), "1.0%");
    assert_eq!(Percent { tenths: 105 }.to_text(), "10.5%");
    assert_eq!(Percent { tenths: 1000 }.to_text(), "100.0%");
    assert_eq!(
        Percent { tenths: u128::MAX }.to_text(),
        "34028236692093846346337460743176821145.5%"
    );
}
