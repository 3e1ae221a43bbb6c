use tcping::AttemptEvent;
use tcping::ProbeResult;
use tcping::Prober;
use tcping::outcome_for;

#[test]
fn test_probe_emits_numbered_outcomes() {
    // A full probe run of n attempts yields n outcomes, sequence numbers
    // 0..n-1 in order, all carrying the target's name, whatever the mix of
    // successes and failures.
    let events = [
        AttemptEvent::Connected { elapsed_millis: 12 },
        AttemptEvent::ConnectFailed {
            error: "connection timed out".to_string(),
        },
        AttemptEvent::NoAddress,
        AttemptEvent::Connected { elapsed_millis: 7 },
    ];
    let mut prober = Prober::new("example.com:80".to_string(), events.len());
    let mut outcomes = Vec::new();
    for event in events {
        assert!(!prober.done());
        outcomes.push(prober.record(event));
    }
    assert!(prober.done());
    assert_eq!(outcomes.len(), 4);
    for (i, outcome) in outcomes.iter().enumerate() {
        assert_eq!(outcome.sequence_number, i);
        assert_eq!(outcome.host, "example.com:80");
    }
    assert!(matches!(outcomes[0].result, ProbeResult::Success { millis: 12 }));
    assert!(matches!(outcomes[1].result, ProbeResult::Failure { .. }));
    assert!(matches!(outcomes[2].result, ProbeResult::Failure { .. }));
    assert!(matches!(outcomes[3].result, ProbeResult::Success { millis: 7 }));
}

#[test]
fn test_probe_zero_attempts() {
    let prober = Prober::new("example.com:80".to_string(), 0);
    assert!(prober.done());
}

#[test]
fn test_outcome_classification() {
    let host = "h:1".to_string();
    let ok = outcome_for(&host, 0, AttemptEvent::Connected { elapsed_millis: 3 });
    assert!(matches!(ok.result, ProbeResult::Success { millis: 3 }));

    let no_addr = outcome_for(&host, 1, AttemptEvent::NoAddress);
    match no_addr.result {
        ProbeResult::Failure { cause } => assert_eq!(cause, "Unable to resolve DNS name"),
        ProbeResult::Success { .. } => panic!("expected a failure"),
    }

    let resolve = outcome_for(
        &host,
        2,
        AttemptEvent::ResolveFailed { error: "no such host".to_string() },
    );
    match resolve.result {
        ProbeResult::Failure { cause } => assert_eq!(cause, "no such host"),
        ProbeResult::Success { .. } => panic!("expected a failure"),
    }

    let clock = outcome_for(
        &host,
        3,
        AttemptEvent::ClockFailed { error: "clock went backwards".to_string() },
    );
    match clock.result {
        ProbeResult::Failure { cause } => assert_eq!(cause, "clock went backwards"),
        ProbeResult::Success { .. } => panic!("expected a failure"),
    }
}

#[test]
fn test_refused_connection_outcome() {
    // One attempt against an unbound port: the connect attempt reports a
    // connection-refused error and the run yields exactly one failed outcome
    // carrying that cause.
    let host = "127.0.0.1:1".to_string();
    let mut prober = Prober::new(host.clone(), 1);
    let outcome = prober.record(AttemptEvent::ConnectFailed {
        error: "Connection refused (os error 111)".to_string(),
    });
    assert!(prober.done());
    assert_eq!(outcome.host, host);
    assert_eq!(outcome.sequence_number, 0);
    match outcome.result {
        ProbeResult::Failure { cause } => assert!(cause.contains("refused")),
        ProbeResult::Success { .. } => panic!("expected a failure"),
    }
}
