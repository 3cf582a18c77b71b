use played_bot::stats::aggregate;
use played_bot::stats::calculate_loses;
use played_bot::stats::calculate_time_played;
use played_bot::stats::calculate_wins;
use played_bot::types::MatchSummary;

fn summary(duration_millis: u64, participant_won: bool) -> MatchSummary {
    MatchSummary { duration_millis, participant_won }
}

#[test]
fn aggregate_empty_is_identity() {
    let stats = aggregate(&vec![]);
    assert_eq!(stats.total_millis, 0);
    assert_eq!(stats.wins, 0);
    assert_eq!(stats.losses, 0);
}

#[test]
fn aggregate_sums_and_counts() {
    let v = vec![
        summary(1800000, true),
        summary(900000, false),
        summary(2700000, true),
    ];
    let stats = aggregate(&v);
    assert_eq!(stats.total_millis, 5400000);
    assert_eq!(stats.wins, 2);
    assert_eq!(stats.losses, 1);
    assert_eq!(stats.wins + stats.losses, v.len() as u64);
}

#[test]
fn aggregate_is_order_independent() {
    let a = vec![
        summary(1800000, true),
        summary(900000, false),
        summary(2700000, true),
    ];
    let b = vec![
        summary(2700000, true),
        summary(1800000, true),
        summary(900000, false),
    ];
    let c = vec![
        summary(900000, false),
        summary(2700000, true),
        summary(1800000, true),
    ];
    assert_eq!(aggregate(&a), aggregate(&b));
    assert_eq!(aggregate(&b), aggregate(&c));
}

#[test]
fn aggregate_total_saturates_instead_of_wrapping() {
    let v = vec![summary(u64::MAX, true), summary(1, false)];
    let stats = aggregate(&v);
    assert_eq!(stats.total_millis, u64::MAX);
    assert_eq!(stats.wins, 1);
    assert_eq!(stats.losses, 1);
}

#[test]
fn calculate_functions_match_aggregate() {
    let v = vec![
        summary(1000, true),
        summary(2000, false),
        summary(3000, false),
        summary(4000, true),
    ];
    assert_eq!(calculate_time_played(&v), 10000);
    assert_eq!(calculate_wins(&v), 2);
    assert_eq!(calculate_loses(&v), 2);
    let stats = aggregate(&v);
    assert_eq!(stats.total_millis, 10000);
    assert_eq!(stats.wins, 2);
    assert_eq!(stats.losses, 2);
}

#[test]
fn all_wins_and_all_losses() {
    let wins_only = vec![summary(10, true), summary(20, true)];
    let stats = aggregate(&wins_only);
    assert_eq!(stats.wins, 2);
    assert_eq!(stats.losses, 0);

    let losses_only = vec![summary(10, false), summary(20, false)];
    let stats = aggregate(&losses_only);
    assert_eq!(stats.wins, 0);
    assert_eq!(stats.losses, 2);
}
