use tcping::ConfigError;
use tcping::expected_event_count;
use tcping::normalize_target;
use tcping::plan_targets;

#[test]
fn test_normalize_appends_default_port() {
    let host = "example.com".to_string();
    assert_eq!(normalize_target(&host, 80), "example.com:80");
    assert_eq!(normalize_target(&host, 443), "example.com:443");
}

#[test]
fn test_normalize_keeps_explicit_port() {
    let host = "example.com:8080".to_string();
    assert_eq!(normalize_target(&host, 80), "example.com:8080");
}

#[test]
fn test_plan_targets_empty_is_config_error() {
    // An empty target list is a startup error, reported before any probing:
    // no outcome and no statistics record is ever produced for it.
    let hosts: Vec<String> = Vec::new();
    let planned = plan_targets(&hosts, 80);
    match planned {
        Err(e) => {
            assert!(matches!(e, ConfigError::NoTargets));
            assert_eq!(e.message(), "No Endpoints given");
        },
        Ok(_) => panic!("an empty target list must be rejected"),
    }
}

#[test]
fn test_plan_targets_normalizes_each_host() {
    let hosts = vec!["a".to_string(), "b:443".to_string(), "c".to_string()];
    let planned = plan_targets(&hosts, 80).expect("non-empty list is accepted");
    assert_eq!(planned, vec!["a:80".to_string(), "b:443".to_string(), "c:80".to_string()]);
}

#[test]
fn test_expected_event_count() {
    assert_eq!(expected_event_count(3, 16), Some(48));
    assert_eq!(expected_event_count(0, 16), Some(0));
    assert_eq!(expected_event_count(usize::MAX, 2), None);
}
