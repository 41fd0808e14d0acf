use testcontainers_oxia::address::service_address;
use testcontainers_oxia::round_trip::OperationResult;
use testcontainers_oxia::round_trip::RecordVersion;
use testcontainers_oxia::round_trip::round_trip_consistent;
use testcontainers_oxia::standalone::EXTERNAL_PORT;
use testcontainers_oxia::standalone::INTERNAL_PORT;
use testcontainers_oxia::standalone::OxiaStandalone;

#[test]
fn default_descriptor_values() {
    let d = OxiaStandalone::default();
    assert_eq!(d.name(), "oxia/oxia");
    assert_eq!(d.tag(), "latest");
    assert_eq!(d.log_level, "info");
}

#[test]
fn default_exposed_ports() {
    let d = OxiaStandalone::default();
    assert_eq!(d.expose_ports(), vec![6648u16, 6649u16]);
    assert_eq!(EXTERNAL_PORT, 6648);
    assert_eq!(INTERNAL_PORT, 6649);
}

#[test]
fn with_tag_reads_back() {
    let d = OxiaStandalone::default().with_tag("1.2.3".to_string());
    assert_eq!(d.tag(), "1.2.3");
}

#[test]
fn later_builder_calls_keep_earlier_settings() {
    let d = OxiaStandalone::default()
        .with_image("custom/oxia".to_string())
        .with_tag("1.2.3".to_string())
        .with_log_level("debug".to_string());
    assert_eq!(d.name(), "custom/oxia");
    assert_eq!(d.tag(), "1.2.3");
    assert_eq!(d.log_level, "debug");
}

#[test]
fn ready_condition_is_exact_stdout_substring() {
    let d = OxiaStandalone::default();
    let conditions = d.ready_conditions();
    assert_eq!(conditions.len(), 1);
    assert_eq!(conditions[0].message(), "Started Grpc server");
}

#[test]
fn launch_command_shape() {
    let d = OxiaStandalone::default();
    let cmd = d.cmd();
    assert_eq!(
        cmd,
        vec![
            "bin/oxia".to_string(),
            "standalone".to_string(),
            "--log-level".to_string(),
            "info".to_string(),
        ]
    );
}

#[test]
fn launch_command_carries_log_level() {
    let d = OxiaStandalone::default().with_log_level("debug".to_string());
    let cmd = d.cmd();
    assert_eq!(cmd[3], "debug");
}

#[test]
fn service_address_formats_port() {
    assert_eq!(service_address(6648), "127.0.0.1:6648");
    assert_eq!(service_address(33445), "127.0.0.1:33445");
}

#[test]
fn service_address_edge_ports() {
    assert_eq!(service_address(0), "127.0.0.1:0");
    assert_eq!(service_address(9), "127.0.0.1:9");
    assert_eq!(service_address(10), "127.0.0.1:10");
    assert_eq!(service_address(65535), "127.0.0.1:65535");
}

#[test]
fn round_trip_matching_results() {
    let put = OperationResult {
        key: "test_key".to_string(),
        version: RecordVersion { version_id: 7 },
    };
    let get = OperationResult {
        key: "test_key".to_string(),
        version: RecordVersion { version_id: 7 },
    };
    assert!(round_trip_consistent(&put, &get));
}

#[test]
fn round_trip_key_mismatch() {
    let put = OperationResult {
        key: "test_key".to_string(),
        version: RecordVersion { version_id: 7 },
    };
    let get = OperationResult {
        key: "other_key".to_string(),
        version: RecordVersion { version_id: 7 },
    };
    assert!(!round_trip_consistent(&put, &get));
}

#[test]
fn round_trip_version_mismatch() {
    let put = OperationResult {
        key: "test_key".to_string(),
        version: RecordVersion { version_id: 7 },
    };
    let get = OperationResult {
        key: "test_key".to_string(),
        version: RecordVersion { version_id: 8 },
    };
    assert!(!round_trip_consistent(&put, &get));
}
