use tms_heartbeat::heartbeat::heartbeat_qos;
use tms_heartbeat::heartbeat::heartbeat_topic;
use tms_heartbeat::role::parse_server_type;
use tms_heartbeat::role::ServerType;

#[test]
fn accepted_role_values() {
    assert_eq!(parse_server_type("pub"), Some(ServerType::Pub));
    assert_eq!(parse_server_type("sub"), Some(ServerType::Sub));
}

#[test]
fn rejected_role_values_select_no_loop() {
    // An invalid flag value yields no role: the process reports an error and
    // starts neither loop.
    assert_eq!(parse_server_type("foo"), None);
    assert_eq!(parse_server_type(""), None);
    assert_eq!(parse_server_type("Pub"), None);
    assert_eq!(parse_server_type("pub "), None);
}

#[test]
fn labels_round_trip() {
    assert_eq!(parse_server_type(ServerType::Pub.label()), Some(ServerType::Pub));
    assert_eq!(parse_server_type(ServerType::Sub.label()), Some(ServerType::Sub));
}

#[test]
fn fixed_descriptors() {
    let t = heartbeat_topic();
    assert_eq!(t.name, "heartbeat_topic");
    assert_eq!(t.payload_type, "TMS_Heartbeat");
    let q = heartbeat_qos();
    assert!(q.reliable);
    assert_eq!(q.max_blocking_nanos, 0);
}
