use ptd_cli::protocol::{HelloMessage, InstanceRegistry};
use ptd_cli::registry::{prune_stale, registry_entry, PublishError};

fn hello() -> HelloMessage {
    HelloMessage {
        instance_id: "abc-123".into(),
        browser: "chrome".into(),
        extension_id: "ext-id".into(),
        version: "0.0.5".into(),
        capabilities: vec![],
    }
}

#[test]
fn entry_copies_the_hello() {
    let e = registry_entry(&hello(), "/tmp/ptd/abc-123.sock".into(), false).unwrap();
    assert_eq!(e.instance_id, "abc-123");
    assert_eq!(e.browser, "chrome");
    assert_eq!(e.extension_id, "ext-id");
    assert_eq!(e.version, "0.0.5");
    assert_eq!(e.socket_path, "/tmp/ptd/abc-123.sock");
    assert_eq!(e.connected_at, e.last_seen_at);
    assert!(e.connected_at.len() >= 25);
    assert!(e.connected_at.ends_with("+00:00"));
}

#[test]
fn live_endpoint_refuses_publication() {
    match registry_entry(&hello(), "/tmp/x.sock".into(), true) {
        Err(PublishError::AlreadyRunning { instance_id }) => assert_eq!(instance_id, "abc-123"),
        other => panic!("unexpected {:?}", other),
    }
}

#[test]
fn prune_lists_unhealthy_ids() {
    let mk = |id: &str| InstanceRegistry {
        instance_id: id.into(),
        browser: "b".into(),
        extension_id: "e".into(),
        version: "v".into(),
        socket_path: "s".into(),
        connected_at: "t".into(),
        last_seen_at: "t".into(),
    };
    let entries = vec![mk("one"), mk("two"), mk("three")];
    assert_eq!(prune_stale(&entries, &vec![true, false, false]), vec!["two".to_string(), "three".to_string()]);
    assert!(prune_stale(&entries, &vec![true, true, true]).is_empty());
    assert!(prune_stale(&Vec::new(), &Vec::new()).is_empty());
}
