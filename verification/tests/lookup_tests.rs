use played_bot::lookup::collect_summaries;
use played_bot::lookup::list_match_ids;
use played_bot::lookup::match_window_start;
use played_bot::lookup::require_api_key;
use played_bot::lookup::resolve_identity;
use played_bot::types::FetchError;
use played_bot::types::FetchErrorKind;
use played_bot::types::MatchSummary;

fn fetch_error(kind: FetchErrorKind, detail: &str) -> FetchError {
    FetchError { kind, detail: detail.to_string() }
}

#[test]
fn api_key_present_is_passed_through() {
    let r = require_api_key(Some("test-key".to_string()));
    assert_eq!(r.expect("present key must be accepted"), "test-key");
}

#[test]
fn api_key_absent_is_fatal_server_error() {
    let e = require_api_key(None).expect_err("missing key must fail");
    assert_eq!(e.status_code, 500);
    assert_eq!(e.body, "Missing LOL API key");
}

#[test]
fn identity_success_passes_puuid_through() {
    let r = resolve_identity(Ok("puuid-123".to_string()), "Faker");
    assert_eq!(r.expect("successful lookup must succeed"), "puuid-123");
}

#[test]
fn identity_not_found_names_the_player() {
    let outcome = Err(fetch_error(FetchErrorKind::Status(404), "no such summoner"));
    let e = resolve_identity(outcome, "Faker").expect_err("unknown player must fail");
    assert_eq!(e.status_code, 404);
    assert_eq!(e.body, "Could not find player Faker");
}

#[test]
fn identity_transport_failure_is_server_error() {
    let outcome = Err(fetch_error(FetchErrorKind::Network, "connection reset"));
    let e = resolve_identity(outcome, "Faker").expect_err("transport failure must fail");
    assert_eq!(e.status_code, 500);
    assert_eq!(e.body, "connection reset");
}

#[test]
fn identity_auth_failure_is_server_error() {
    let outcome = Err(fetch_error(FetchErrorKind::Status(403), "forbidden"));
    let e = resolve_identity(outcome, "Faker").expect_err("auth failure must fail");
    assert_eq!(e.status_code, 500);
    assert_eq!(e.body, "forbidden");
}

#[test]
fn empty_match_list_is_a_valid_result() {
    let r = list_match_ids(Ok(vec![]));
    assert_eq!(r.expect("empty listing must not be an error"), Vec::<String>::new());
}

#[test]
fn match_list_failure_is_server_error() {
    let outcome = Err(fetch_error(FetchErrorKind::MalformedBody, "bad json"));
    let e = list_match_ids(outcome).expect_err("failed listing must fail");
    assert_eq!(e.status_code, 500);
    assert_eq!(e.body, "bad json");
}

#[test]
fn window_start_subtracts_whole_days() {
    // Eight days of milliseconds, looking back seven days.
    assert_eq!(match_window_start(8 * 86400000, 7), 86400000);
}

#[test]
fn window_start_saturates_at_zero() {
    assert_eq!(match_window_start(1000, 7), 0);
}

#[test]
fn window_start_survives_a_huge_day_count() {
    assert_eq!(match_window_start(123456, u64::MAX), 0);
}

#[test]
fn collect_all_successes_in_order() {
    let results = vec![
        Ok(MatchSummary { duration_millis: 1, participant_won: true }),
        Ok(MatchSummary { duration_millis: 2, participant_won: false }),
    ];
    let v = collect_summaries(results).expect("all-success batch must succeed");
    assert_eq!(v.len(), 2);
    assert_eq!(v[0].duration_millis, 1);
    assert_eq!(v[1].duration_millis, 2);
}

#[test]
fn collect_empty_batch_is_empty() {
    let v = collect_summaries(vec![]).expect("empty batch must succeed");
    assert!(v.is_empty());
}

#[test]
fn one_failure_fails_the_whole_batch() {
    let results = vec![
        Ok(MatchSummary { duration_millis: 1, participant_won: true }),
        Err(fetch_error(FetchErrorKind::Network, "timed out")),
        Ok(MatchSummary { duration_millis: 3, participant_won: false }),
    ];
    let e = collect_summaries(results).expect_err("any failure must fail the batch");
    assert_eq!(e.status_code, 500);
    assert_eq!(e.body, "timed out");
}

#[test]
fn first_of_several_failures_wins() {
    let results = vec![
        Err(fetch_error(FetchErrorKind::Status(502), "bad gateway")),
        Err(fetch_error(FetchErrorKind::Network, "timed out")),
    ];
    let e = collect_summaries(results).expect_err("failures must fail the batch");
    assert_eq!(e.status_code, 500);
    assert_eq!(e.body, "bad gateway");
}
