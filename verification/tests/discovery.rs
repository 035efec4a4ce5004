use ptd_cli::discovery::{filter_healthy, filter_prefix, select_instance, SelectError};
use ptd_cli::protocol::InstanceRegistry;

fn inst(id: &str, browser: &str) -> InstanceRegistry {
    InstanceRegistry {
        instance_id: id.into(),
        browser: browser.into(),
        extension_id: "ext".into(),
        version: "1".into(),
        socket_path: format!("/tmp/{id}.sock"),
        connected_at: "t".into(),
        last_seen_at: "t".into(),
    }
}

#[test]
fn single_healthy_instance_is_selected() {
    let all = vec![inst("aaaa1111", "chrome"), inst("bbbb2222", "firefox")];
    let got = select_instance(&all, &vec![false, true], None).unwrap();
    assert_eq!(got.instance_id, "bbbb2222");
}

#[test]
fn no_healthy_instance_exits_with_two() {
    let all = vec![inst("aaaa1111", "chrome")];
    let err = select_instance(&all, &vec![false], None).unwrap_err();
    assert!(matches!(err, SelectError::NoneRunning));
    assert_eq!(err.exit_code(), 2);
    let lines = err.report();
    assert_eq!(lines[0], "No running PT-Depiler instance found.");
    assert_eq!(lines[1], "Make sure the browser is open with the PT-Depiler extension.");
}

#[test]
fn several_healthy_instances_exit_with_three() {
    let all = vec![inst("aaaa1111", "chrome"), inst("bbbb2222", "firefox")];
    let err = select_instance(&all, &vec![true, true], None).unwrap_err();
    assert_eq!(err.exit_code(), 3);
    let lines = err.report();
    assert_eq!(lines.len(), 3);
    assert_eq!(lines[1], "  aaaa1111 (chrome, ext: ext)");
    assert_eq!(lines[2], "  bbbb2222 (firefox, ext: ext)");
}

#[test]
fn prefix_selects_among_healthy() {
    let all = vec![inst("aaaa1111", "chrome"), inst("aaab2222", "edge"), inst("aaaa3333", "brave")];
    let health = vec![true, true, false];
    let got = select_instance(&all, &health, Some("aaaa".into())).unwrap();
    assert_eq!(got.instance_id, "aaaa1111");

    let err = select_instance(&all, &health, Some("aaa".into())).unwrap_err();
    assert_eq!(err.exit_code(), 3);
    let lines = err.report();
    assert_eq!(lines[0], "Multiple instances match 'aaa':");
    assert_eq!(lines[2], "  aaab2222 (edge)");

    let err = select_instance(&all, &health, Some("zz".into())).unwrap_err();
    assert_eq!(err.exit_code(), 1);
    assert_eq!(err.report(), vec!["no healthy instance matching 'zz'".to_string()]);
}

#[test]
fn filters_keep_order() {
    let all = vec![inst("x1", "a"), inst("y2", "b"), inst("x3", "c")];
    let healthy = filter_healthy(&all, &vec![true, false, true]);
    assert_eq!(healthy.len(), 2);
    assert_eq!(healthy[1].instance_id, "x3");
    let xs = filter_prefix(&all, "x");
    assert_eq!(xs.len(), 2);
    assert_eq!(xs[0].instance_id, "x1");
    assert_eq!(filter_prefix(&all, "").len(), 3);
}

#[test]
fn prefix_with_no_healthy_instance_exits_with_two() {
    let all = vec![inst("aaaa1111", "chrome")];
    let err = select_instance(&all, &vec![false], Some("aaaa".into())).unwrap_err();
    assert!(matches!(err, SelectError::NoneRunning));
    assert_eq!(err.exit_code(), 2);
    let err = select_instance(&Vec::new(), &Vec::new(), Some("x".into())).unwrap_err();
    assert_eq!(err.exit_code(), 2);
}
