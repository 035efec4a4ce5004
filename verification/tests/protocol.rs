use ptd_cli::protocol::{HelloMessage, InstanceRegistry, ResponseMessage};

#[test]
fn success_response_has_result_and_no_error() {
    let resp = ResponseMessage::success("r1".into(), serde_json::Value::String("ok".into()));
    assert_eq!(resp.id, "r1");
    assert!(resp.result.is_some());
    assert!(resp.error.is_none());
}

#[test]
fn error_response_has_error_and_no_result() {
    let resp = ResponseMessage::error("r1".into(), "TIMEOUT", "timed out");
    assert_eq!(resp.id, "r1");
    assert!(resp.result.is_none());
    let e = resp.error.unwrap();
    assert_eq!(e.code, "TIMEOUT");
    assert_eq!(e.message, "timed out");
}

#[test]
fn registry_clone_is_equal() {
    let r = InstanceRegistry {
        instance_id: "abc-12345".into(),
        browser: "chrome".into(),
        extension_id: "ext-id".into(),
        version: "0.0.5".into(),
        socket_path: "/tmp/a.sock".into(),
        connected_at: "t0".into(),
        last_seen_at: "t1".into(),
    };
    let c = r.clone();
    assert_eq!(c.instance_id, r.instance_id);
    assert_eq!(c.last_seen_at, "t1");
    let h = HelloMessage {
        instance_id: "abc-123".into(),
        browser: "chrome".into(),
        extension_id: "ext-id".into(),
        version: "0.0.5".into(),
        capabilities: vec!["bridge-v1".into()],
    };
    assert_eq!(h.capabilities.len(), 1);
}
