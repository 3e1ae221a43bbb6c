use tcping::AttemptEvent;
use tcping::Outcome;
use tcping::RunStatistics;
use tcping::aggregate;
use tcping::outcome_for;

fn success(host: &String, seq: usize, millis: u64) -> Outcome {
    outcome_for(host, seq, AttemptEvent::Connected { elapsed_millis: millis })
}

fn failure(host: &String, seq: usize) -> Outcome {
    outcome_for(
        host,
        seq,
        AttemptEvent::ConnectFailed { error: "connection timed out".to_string() },
    )
}

fn assert_stats_eq(a: &RunStatistics, b: &RunStatistics) {
    assert_eq!(a.host, b.host);
    assert_eq!(a.sent, b.sent);
    assert_eq!(a.succeeded, b.succeeded);
    assert_eq!(a.min_millis, b.min_millis);
    assert_eq!(a.max_millis, b.max_millis);
    assert_eq!(a.avg_millis, b.avg_millis);
    assert_eq!(a.loss_percent, b.loss_percent);
}

#[test]
fn test_aggregate_counts_and_loss() {
    // Four outcomes, two successes: sent 4, succeeded 2, loss 50%, and the
    // delay figures come from the successes alone.
    let host = "a:80".to_string();
    let outcomes = vec![
        success(&host, 0, 30),
        failure(&host, 1),
        success(&host, 2, 10),
        failure(&host, 3),
    ];
    let stats = aggregate(&outcomes);
    assert_eq!(stats.len(), 1);
    assert_eq!(stats[0].host, host);
    assert_eq!(stats[0].sent, 4);
    assert_eq!(stats[0].succeeded, 2);
    assert_eq!(stats[0].min_millis, 10);
    assert_eq!(stats[0].max_millis, 30);
    assert_eq!(stats[0].avg_millis, 20);
    assert_eq!(stats[0].loss_percent, 50);
}

#[test]
fn test_aggregate_all_failed() {
    // No success at all: loss is a full hundred percent and the delay
    // figures fall back to zero — no division by zero happens.
    let host = "a:80".to_string();
    let outcomes = vec![failure(&host, 0), failure(&host, 1), failure(&host, 2)];
    let stats = aggregate(&outcomes);
    assert_eq!(stats.len(), 1);
    assert_eq!(stats[0].sent, 3);
    assert_eq!(stats[0].succeeded, 0);
    assert_eq!(stats[0].loss_percent, 100);
    assert_eq!(stats[0].min_millis, 0);
    assert_eq!(stats[0].max_millis, 0);
    assert_eq!(stats[0].avg_millis, 0);
}

#[test]
fn test_aggregate_loss_rounds() {
    // Three outcomes, one success: 100 * 2/3 rounds to 67, not down to 66.
    let host = "a:80".to_string();
    let outcomes = vec![success(&host, 0, 5), failure(&host, 1), failure(&host, 2)];
    let stats = aggregate(&outcomes);
    assert_eq!(stats[0].loss_percent, 67);

    // One of four lost: exactly 25, no rounding needed.
    let outcomes = vec![
        success(&host, 0, 5),
        success(&host, 1, 5),
        success(&host, 2, 5),
        failure(&host, 3),
    ];
    let stats = aggregate(&outcomes);
    assert_eq!(stats[0].loss_percent, 25);
}

#[test]
fn test_aggregate_average_rounds_down() {
    let host = "a:80".to_string();
    let outcomes = vec![success(&host, 0, 3), success(&host, 1, 4)];
    let stats = aggregate(&outcomes);
    assert_eq!(stats[0].avg_millis, 3);
}

#[test]
fn test_aggregate_groups_by_target() {
    // Outcomes of two targets, interleaved as they would arrive from
    // concurrent probers: one record per target, in order of first
    // appearance, each computed from its own group only.
    let a = "a:80".to_string();
    let b = "b:443".to_string();
    let outcomes = vec![
        success(&a, 0, 10),
        success(&b, 0, 100),
        failure(&a, 1),
        success(&b, 1, 200),
    ];
    let stats = aggregate(&outcomes);
    assert_eq!(stats.len(), 2);
    assert_eq!(stats[0].host, a);
    assert_eq!(stats[0].sent, 2);
    assert_eq!(stats[0].succeeded, 1);
    assert_eq!(stats[0].min_millis, 10);
    assert_eq!(stats[1].host, b);
    assert_eq!(stats[1].sent, 2);
    assert_eq!(stats[1].succeeded, 2);
    assert_eq!(stats[1].min_millis, 100);
    assert_eq!(stats[1].max_millis, 200);
    assert_eq!(stats[1].avg_millis, 150);
    assert_eq!(stats[1].loss_percent, 0);
}

#[test]
fn test_aggregate_is_idempotent() {
    // Aggregation is a pure function of the outcome collection: a second run
    // over the same outcomes yields identical statistics.
    let a = "a:80".to_string();
    let b = "b:443".to_string();
    let outcomes = vec![
        success(&a, 0, 10),
        failure(&b, 0),
        success(&a, 1, 20),
        success(&b, 1, 5),
    ];
    let first = aggregate(&outcomes);
    let second = aggregate(&outcomes);
    assert_eq!(first.len(), second.len());
    for (x, y) in first.iter().zip(second.iter()) {
        assert_stats_eq(x, y);
    }
}

#[test]
fn test_aggregate_empty() {
    let outcomes: Vec<Outcome> = Vec::new();
    let stats = aggregate(&outcomes);
    assert_eq!(stats.len(), 0);
}
