use haaslib::domain::BacktestPeriod;
use haaslib::model::StartLabExecutionRequest;

#[test]
fn day_period_seconds() {
    assert_eq!(BacktestPeriod::Day(1).as_secs(), 86400);
    assert_eq!(BacktestPeriod::Day(7).as_secs(), 7 * 86400);
    assert_eq!(BacktestPeriod::Day(0).as_secs(), 0);
}

#[test]
fn month_period_seconds() {
    // one month is floor(30.5) = 30 whole days
    assert_eq!(BacktestPeriod::Month(1).as_secs(), 30 * 86400);
    // two months are exactly 61 days
    assert_eq!(BacktestPeriod::Month(2).as_secs(), 61 * 86400);
    assert_eq!(BacktestPeriod::Month(3).as_secs(), 91 * 86400);
}

#[test]
fn period_days() {
    assert_eq!(BacktestPeriod::Day(14).as_days(), 14);
    assert_eq!(BacktestPeriod::Month(1).as_days(), 30);
    assert_eq!(BacktestPeriod::Month(2).as_days(), 61);
}

#[test]
fn start_request_window_at_fixed_clock() {
    let req = StartLabExecutionRequest::new_at("lab1", 1_000_000, BacktestPeriod::Day(1), false);
    assert_eq!(req.end_unix, 1_000_000 - 100);
    assert_eq!(req.start_unix, 1_000_000 - 100 - 86400);
    assert_eq!(req.lab_id, "lab1");
    assert!(!req.send_email);
}

#[test]
fn start_request_window_clamps_at_epoch() {
    let req = StartLabExecutionRequest::new_at("lab1", 50, BacktestPeriod::Day(1), true);
    assert_eq!(req.end_unix, 0);
    assert_eq!(req.start_unix, 0);
    assert!(req.send_email);
}

#[test]
fn start_request_window_from_clock() {
    let before = std::time::SystemTime::now()
        .duration_since(std::time::UNIX_EPOCH)
        .unwrap()
        .as_secs();
    let req = StartLabExecutionRequest::new("lab1", BacktestPeriod::Day(1), false);
    let after = std::time::SystemTime::now()
        .duration_since(std::time::UNIX_EPOCH)
        .unwrap()
        .as_secs();
    assert!(req.end_unix >= before - 100 && req.end_unix <= after - 100);
    assert_eq!(req.start_unix, req.end_unix - 86400);
}
