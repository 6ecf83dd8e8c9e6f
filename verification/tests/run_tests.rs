use torbox_companion::actions::{
    action_debug_name, action_label, after_fetch_error, attempts_exhausted_error, is_transient_error,
    missing_data_error, settle_first_attempt, torrent_operation, usenet_operation, webdl_operation, AttemptOutcome,
    AttemptStep, FetchStep,
};
use torbox_companion::model::ActionType;
use torbox_companion::run::{run_all, ActionRun};

#[test]
fn operations_for_each_kind_of_transfer() {
    assert_eq!(torrent_operation(ActionType::ForceStart), "start");
    assert_eq!(torrent_operation(ActionType::StopSeeding), "stop_seeding");
    assert_eq!(webdl_operation(ActionType::Delete), Ok("delete"));
    assert_eq!(usenet_operation(ActionType::Resume), Ok("resume"));
    assert_eq!(
        webdl_operation(ActionType::Restart),
        Err("Action Restart not supported for web downloads".to_string())
    );
    assert_eq!(
        usenet_operation(ActionType::ForceStart),
        Err("Action ForceStart not supported for usenet downloads".to_string())
    );
}

#[test]
fn action_names() {
    assert_eq!(action_label(ActionType::StopSeeding), "Stop Seeding");
    assert_eq!(action_label(ActionType::ForceStart), "Force Start");
    assert_eq!(action_debug_name(ActionType::Reannounce), format!("{:?}", ActionType::Reannounce));
}

#[test]
fn rate_limited_attempt_is_tried_again() {
    match settle_first_attempt(AttemptOutcome::Finished(Err("HTTP 429 Too Many Requests".to_string()))) {
        AttemptStep::RetryAfter(secs) => assert_eq!(secs, 2),
        other => panic!("unexpected {:?}", other),
    }
    match settle_first_attempt(AttemptOutcome::Finished(Err("Rate limit exceeded".to_string()))) {
        AttemptStep::RetryAfter(secs) => assert_eq!(secs, 2),
        other => panic!("unexpected {:?}", other),
    }
    match settle_first_attempt(AttemptOutcome::Finished(Err("rate limit".to_string()))) {
        AttemptStep::Settled(Err(e)) => assert_eq!(e, "rate limit"),
        other => panic!("unexpected {:?}", other),
    }
    match settle_first_attempt(AttemptOutcome::Finished(Ok(()))) {
        AttemptStep::Settled(Ok(())) => {},
        other => panic!("unexpected {:?}", other),
    }
    match settle_first_attempt(AttemptOutcome::TimedOut) {
        AttemptStep::Settled(Err(e)) => assert_eq!(e, "Action timed out after 10 seconds"),
        other => panic!("unexpected {:?}", other),
    }
}

#[test]
fn transient_fetch_errors_are_retried_twice_at_most() {
    assert!(is_transient_error("HTTP 502 Bad Gateway"));
    assert!(is_transient_error("Network error: reset"));
    assert!(!is_transient_error("HTTP 401 Unauthorized"));
    match after_fetch_error(1, "torrents", "HTTP 502 Bad Gateway") {
        FetchStep::Retry(secs) => assert_eq!(secs, 1),
        other => panic!("unexpected {:?}", other),
    }
    match after_fetch_error(2, "torrents", "HTTP 503") {
        FetchStep::Retry(secs) => assert_eq!(secs, 2),
        other => panic!("unexpected {:?}", other),
    }
    match after_fetch_error(3, "torrents", "HTTP 504") {
        FetchStep::Fail(m) => assert_eq!(m, "Failed to fetch torrents: HTTP 504"),
        other => panic!("unexpected {:?}", other),
    }
    match after_fetch_error(1, "usenet", "HTTP 401 Unauthorized") {
        FetchStep::Fail(m) => assert_eq!(m, "Failed to fetch usenet: HTTP 401 Unauthorized"),
        other => panic!("unexpected {:?}", other),
    }
    assert_eq!(missing_data_error("web downloads"), "No web downloads data returned");
    assert_eq!(attempts_exhausted_error("torrents"), "Failed to fetch torrents after 3 attempts");
}

#[test]
fn run_without_items_succeeds() {
    let r = ActionRun::start(ActionType::Delete, 0).finish();
    assert_eq!(r.items_processed, 0);
    assert_eq!(r.total_items, 0);
    assert!(r.success);
    assert!(!r.partial);
    assert_eq!(r.error_message, None);
    assert_eq!(r.processed_items.unwrap().len(), 0);
}

#[test]
fn run_where_every_action_succeeds() {
    let mut run = ActionRun::start(ActionType::StopSeeding, 2);
    run.record(1, "a".to_string(), Ok(()));
    run.record(2, "b".to_string(), Ok(()));
    let r = run.finish();
    assert_eq!(r.items_processed, 2);
    assert_eq!(r.total_items, 2);
    assert!(r.success);
    assert_eq!(r.error_message, None);
    let items = r.processed_items.unwrap();
    assert_eq!(items[1].id, 2);
    assert_eq!(items[1].name, "b");
    assert_eq!(items[1].action, "Stop Seeding");
    assert!(items[1].success);
    assert_eq!(items[1].error, None);
}

#[test]
fn run_with_failures_reports_them() {
    let mut run = ActionRun::start(ActionType::Delete, 3);
    run.record(1, "a".to_string(), Ok(()));
    run.record(2, "b".to_string(), Err("not found".to_string()));
    run.record(3, "c".to_string(), Ok(()));
    let r = run.finish();
    assert!(!r.success);
    assert!(!r.partial);
    assert_eq!(r.items_processed, 3);
    assert_eq!(r.error_message, Some("1 of 3 actions failed. not found".to_string()));
    let items = r.processed_items.unwrap();
    assert!(!items[1].success);
    assert_eq!(items[1].error, Some("not found".to_string()));
}

#[test]
fn run_quotes_ten_errors_at_most() {
    let mut run = ActionRun::start(ActionType::Stop, 12);
    for i in 0..12 {
        run.record(i, format!("t{}", i), Err(format!("e{}", i)));
    }
    let r = run.finish();
    let quoted: Vec<String> = (0..10).map(|i| format!("e{}", i)).collect();
    assert_eq!(r.error_message, Some(format!("12 of 12 actions failed. {}", quoted.join("; "))));
}

#[test]
fn run_that_stops_short_is_partial() {
    let mut run = ActionRun::start(ActionType::Resume, 3);
    run.record(1, "a".to_string(), Ok(()));
    run.record(2, "b".to_string(), Err("boom".to_string()));
    let r = run.finish();
    assert!(r.partial);
    assert!(!r.success);
    assert_eq!(r.items_processed, 2);
    assert_eq!(r.total_items, 3);
    assert_eq!(
        r.error_message,
        Some("Only processed 2/3 items. 1 of 2 actions failed. boom".to_string())
    );
}

#[test]
fn run_counts_failures_and_success_matches_the_records() {
    let mut run = ActionRun::start(ActionType::Delete, 3);
    assert_eq!(run.failed_count(), 0);
    run.record(1, "a".to_string(), Err("x".to_string()));
    run.record(2, "b".to_string(), Ok(()));
    assert_eq!(run.failed_count(), 1);
    run.record(3, "c".to_string(), Err("y".to_string()));
    assert_eq!(run.failed_count(), 2);
    let r = run.finish();
    assert_eq!(r.success, r.error_message.is_none());
    let items = r.processed_items.unwrap();
    assert!(items.iter().all(|p| p.success == p.error.is_none()));
    assert_eq!(r.success, items.iter().all(|p| p.success));
    assert_eq!(r.error_message, Some("2 of 3 actions failed. x; y".to_string()));
}

#[test]
fn a_complete_run_succeeds_exactly_when_every_action_does() {
    let items = vec![(1, "a".to_string()), (2, "b".to_string()), (3, "c".to_string())];
    let all_ok = vec![Ok(()), Ok(()), Ok(())];
    let r = run_all(ActionType::Stop, &items, &all_ok);
    assert!(r.success && !r.partial);
    assert_eq!(r.items_processed, 3);
    assert_eq!(r.total_items, 3);
    assert_eq!(r.error_message, None);
    let one_bad = vec![Ok(()), Err("gone".to_string()), Ok(())];
    let r = run_all(ActionType::Stop, &items, &one_bad);
    assert!(!r.success && !r.partial);
    assert_eq!(r.error_message, Some("1 of 3 actions failed. gone".to_string()));
    let v = r.processed_items.unwrap();
    assert_eq!(v[1].name, "b");
    assert_eq!(v[1].action, "Stop");
    assert_eq!(v[1].error, Some("gone".to_string()));
    let empty = run_all(ActionType::Stop, &vec![], &vec![]);
    assert!(empty.success);
    assert_eq!(empty.processed_items.unwrap().len(), 0);
}
