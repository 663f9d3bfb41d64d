use nacos_rust_client::bootstrap::{on_fetch_result, subscription_state, Fault, LiveReload};
use nacos_rust_client::logging::{
    on_config_change, severity_from_str, ChangeOutcome, LogControl, Severity,
};
use nacos_rust_client::registrar::{
    build_instances, registration_state, DiscoveryAction, DiscoveryVisibility,
    SimpleNamingEventListener,
};
use nacos_rust_client::types::Rotation;
use nacos_rust_client::yaml::{decode_ac, port_value, rotation_from_str, worker_count, DecodeError};

fn payload(level: &str) -> String {
    format!(
        "application:\n  shutdown-timeout: 30\n  workers: 4\n  hosts:\n    - 10.0.0.1\n    - 10.0.0.2\n  hosts-v6: []\n  port: 8080\n  log:\n    level: {}\n    path: ./logs\n    rotation: hourly\n    file-name-prefix: app.log\n",
        level
    )
}

#[test]
fn full_payload_decodes_exactly() {
    let ac = decode_ac(&payload("INFO")).unwrap();
    assert_eq!(ac.application.shutdown_timeout, 30);
    assert_eq!(ac.application.workers, 4);
    assert_eq!(ac.application.hosts, vec!["10.0.0.1", "10.0.0.2"]);
    assert!(ac.application.hosts_v6.is_empty());
    assert_eq!(ac.application.port, 8080);
    assert_eq!(ac.application.log.level, "INFO");
    assert_eq!(ac.application.log.path, "./logs");
    assert_eq!(ac.application.log.rotation, Rotation::Hourly);
    assert_eq!(ac.application.log.file_name_prefix, "app.log");
}

#[test]
fn unparsable_payload_is_a_syntax_error() {
    assert_eq!(decode_ac("application: [unclosed\n").unwrap_err(), DecodeError::Syntax);
}

#[test]
fn wrong_shape_payload_is_a_shape_error() {
    assert_eq!(decode_ac("application: 3\n").unwrap_err(), DecodeError::Shape);
    assert_eq!(decode_ac("unrelated: true\n").unwrap_err(), DecodeError::Shape);
    // a host that is not a string
    let text = "application:\n  shutdown-timeout: 1\n  workers: 1\n  hosts:\n    - 1\n  hosts-v6: []\n  port: 1\n  log:\n    level: INFO\n    path: p\n    rotation: never\n    file-name-prefix: f\n";
    assert_eq!(decode_ac(text).unwrap_err(), DecodeError::Shape);
    // an unknown rotation name
    let text = "application:\n  shutdown-timeout: 1\n  workers: 1\n  hosts: []\n  hosts-v6: []\n  port: 1\n  log:\n    level: INFO\n    path: p\n    rotation: sometimes\n    file-name-prefix: f\n";
    assert_eq!(decode_ac(text).unwrap_err(), DecodeError::Shape);
    // one single missing field fails the whole decode; nothing partial comes back
    let text = "application:\n  shutdown-timeout: 1\n  workers: 1\n  hosts: []\n  hosts-v6: []\n  log:\n    level: INFO\n    path: p\n    rotation: never\n    file-name-prefix: f\n";
    assert_eq!(decode_ac(text).unwrap_err(), DecodeError::Shape);
    // a port that does not fit
    let text = "application:\n  shutdown-timeout: 1\n  workers: 1\n  hosts: []\n  hosts-v6: []\n  port: 70000\n  log:\n    level: INFO\n    path: p\n    rotation: never\n    file-name-prefix: f\n";
    assert_eq!(decode_ac(text).unwrap_err(), DecodeError::Shape);
}

#[test]
fn fetch_outcomes_map_to_the_fault_taxonomy() {
    assert_eq!(on_fetch_result(None).unwrap_err(), Fault::ConfigFetch);
    assert_eq!(on_fetch_result(Some("application: [unclosed\n".to_string())).unwrap_err(), Fault::ConfigDecode);
    assert_eq!(on_fetch_result(Some("application: 3\n".to_string())).unwrap_err(), Fault::ConfigDecode);
    let ac = on_fetch_result(Some(payload("WARN"))).unwrap();
    assert_eq!(ac.application.port, 8080);
}

#[test]
fn only_startup_faults_are_fatal() {
    assert!(Fault::ConfigLoad.is_fatal());
    assert!(Fault::ConfigFetch.is_fatal());
    assert!(Fault::ConfigDecode.is_fatal());
    assert!(!Fault::Subscription.is_fatal());
    assert!(!Fault::Registration.is_fatal());
    assert!(!Fault::DecodeOnChange.is_fatal());
}

#[test]
fn severity_mapping_is_case_insensitive() {
    assert_eq!(severity_from_str("TRACE"), Severity::Trace);
    assert_eq!(severity_from_str("trace"), Severity::Trace);
    assert_eq!(severity_from_str("TrAcE"), Severity::Trace);
    assert_eq!(severity_from_str("debug"), Severity::Debug);
    assert_eq!(severity_from_str("Info"), Severity::Info);
    assert_eq!(severity_from_str("warn"), Severity::Warn);
    assert_eq!(severity_from_str("ERROR"), Severity::Error);
}

#[test]
fn unrecognized_severity_maps_to_info() {
    assert_eq!(severity_from_str("verbose"), Severity::Info);
    assert_eq!(severity_from_str(""), Severity::Info);
    assert_eq!(severity_from_str("warning"), Severity::Info);
}

#[test]
fn lowercase_debug_notification_lowers_the_threshold() {
    let mut ctrl = LogControl::new(Severity::Info);
    let outcome = on_config_change(&mut ctrl, &payload("debug"));
    assert_eq!(outcome, ChangeOutcome::Applied(Severity::Debug));
    assert_eq!(ctrl.current(), Severity::Debug);
}

#[test]
fn malformed_notification_leaves_the_threshold_unchanged() {
    let mut ctrl = LogControl::new(Severity::Info);
    assert_eq!(on_config_change(&mut ctrl, "application: [unclosed\n"), ChangeOutcome::Rejected);
    assert_eq!(ctrl.current(), Severity::Info);
    assert_eq!(on_config_change(&mut ctrl, "application: 3\n"), ChangeOutcome::Rejected);
    assert_eq!(ctrl.current(), Severity::Info);
}

#[test]
fn two_hosts_give_two_instances_in_order() {
    let hosts = vec!["10.0.0.1".to_string(), "10.0.0.2".to_string()];
    let instances = build_instances(&hosts, 8080);
    assert_eq!(instances.len(), 2);
    assert_eq!(instances[0].ip, "10.0.0.1");
    assert_eq!(instances[1].ip, "10.0.0.2");
    assert!(instances.iter().all(|i| i.port == 8080 && i.weight == 1));
}

#[test]
fn no_hosts_give_an_empty_batch() {
    assert!(build_instances(&Vec::new(), 8080).is_empty());
}

#[test]
fn failed_registration_degrades_and_does_not_raise() {
    assert_eq!(registration_state(false), DiscoveryVisibility::Degraded);
    assert_eq!(registration_state(true), DiscoveryVisibility::Visible);
    assert_eq!(subscription_state(false), LiveReload::Degraded);
    assert_eq!(subscription_state(true), LiveReload::Live);
}

#[test]
fn discovery_events_are_log_only() {
    let listener = SimpleNamingEventListener;
    assert_eq!(listener.event(), DiscoveryAction::LogOnly);
}

#[test]
fn rotation_names_follow_the_document_spelling() {
    assert_eq!(rotation_from_str("hourly"), Some(Rotation::Hourly));
    assert_eq!(rotation_from_str("daily"), Some(Rotation::Daily));
    assert_eq!(rotation_from_str("never"), Some(Rotation::Never));
    assert_eq!(rotation_from_str("Hourly"), None);
    assert_eq!(rotation_from_str("sometimes"), None);
}

#[test]
fn numeric_fields_are_range_checked() {
    assert_eq!(port_value(8080), Some(8080));
    assert_eq!(port_value(65535), Some(65535));
    assert_eq!(port_value(65536), None);
    assert_eq!(worker_count(4), Some(4));
    assert_eq!(worker_count(0), Some(0));
}
