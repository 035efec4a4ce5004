use ptd_cli::commands::downloader::{downloader_call, DownloaderArgs, DownloaderCommand};
use ptd_cli::commands::install::{native_host_manifest, AllowedCallers, BrowserFamily, InstallArgs, InstallError};
use ptd_cli::commands::status::status_report;
use ptd_cli::protocol::InstanceRegistry;

#[test]
fn downloader_subcommands_map_to_methods() {
    let c = downloader_call(DownloaderArgs { command: DownloaderCommand::List });
    assert_eq!(c.method, "getDownloaderList");
    assert!(c.downloader_id.is_none());
    let c = downloader_call(DownloaderArgs { command: DownloaderCommand::Status { downloader_id: "d1".into() } });
    assert_eq!(c.method, "getDownloaderStatus");
    assert_eq!(c.downloader_id.as_deref(), Some("d1"));
    let c = downloader_call(DownloaderArgs { command: DownloaderCommand::Config { downloader_id: "d2".into() } });
    assert_eq!(c.method, "getDownloaderConfig");
    assert_eq!(c.downloader_id.as_deref(), Some("d2"));
    let c = downloader_call(DownloaderArgs { command: DownloaderCommand::Version { downloader_id: "d3".into() } });
    assert_eq!(c.method, "getDownloaderVersion");
    assert_eq!(c.downloader_id.as_deref(), Some("d3"));
}

#[test]
fn chrome_manifest_uses_the_extension_origin() {
    let args = InstallArgs { browser: BrowserFamily::Chrome, extension_id: Some("abcdef".into()) };
    let m = native_host_manifest(&args, "com.example.host", "/usr/bin/ptd-host").unwrap();
    assert_eq!(m.name, "com.example.host");
    assert_eq!(m.description, "PT-Depiler CLI Native Messaging Host");
    assert_eq!(m.path, "/usr/bin/ptd-host");
    assert_eq!(m.transport, "stdio");
    match m.allowed {
        AllowedCallers::Origins(o) => assert_eq!(o, vec!["chrome-extension://abcdef/".to_string()]),
        other => panic!("unexpected {:?}", other),
    }
}

#[test]
fn firefox_manifest_names_the_extension() {
    let args = InstallArgs { browser: BrowserFamily::Firefox, extension_id: None };
    let m = native_host_manifest(&args, "h", "/p").unwrap();
    match m.allowed {
        AllowedCallers::Extensions(e) => assert_eq!(e, vec!["ptdepiler.ptplugins@gmail.com".to_string()]),
        other => panic!("unexpected {:?}", other),
    }
    assert!(BrowserFamily::Firefox.is_firefox());
    assert!(!BrowserFamily::Edge.is_firefox());
}

#[test]
fn chrome_family_without_extension_id_fails() {
    let args = InstallArgs { browser: BrowserFamily::Brave, extension_id: None };
    let err = native_host_manifest(&args, "h", "/p").unwrap_err();
    assert!(matches!(err, InstallError::MissingExtensionId));
    assert_eq!(
        err.report(),
        vec![
            "--extension-id is required for Chrome-family browsers.".to_string(),
            "Find it at chrome://extensions with Developer Mode enabled.".to_string()
        ]
    );
}

fn inst(id: &str) -> InstanceRegistry {
    InstanceRegistry {
        instance_id: id.into(),
        browser: "chrome".into(),
        extension_id: "ext".into(),
        version: "1".into(),
        socket_path: "s".into(),
        connected_at: "2024-01-01T00:00:00+00:00".into(),
        last_seen_at: "2024-01-01T00:00:00+00:00".into(),
    }
}

#[test]
fn status_report_lists_instances() {
    let entries = vec![inst("0123456789abcdef"), inst("fedcba9876543210")];
    let lines = status_report(&entries, &vec![true, false]);
    assert_eq!(lines.len(), 4);
    assert_eq!(lines[0], "  01234567 [healthy] browser=chrome ext=ext since=2024-01-01T00:00:00+00:00");
    assert_eq!(lines[1], "  fedcba98 [stale] browser=chrome ext=ext since=2024-01-01T00:00:00+00:00");
    assert_eq!(lines[2], "");
    assert_eq!(lines[3], "2 instance(s), 1 healthy");
}

#[test]
fn status_report_when_empty() {
    let lines = status_report(&Vec::new(), &Vec::new());
    assert_eq!(
        lines,
        vec![
            "No PT-Depiler instances found.".to_string(),
            "Make sure the browser is open with the PT-Depiler extension and native host installed.".to_string()
        ]
    );
}

#[test]
fn status_counts_with_many_instances() {
    let entries: Vec<InstanceRegistry> = (0..12).map(|i| inst(&format!("instance-{i:02}"))).collect();
    let health: Vec<bool> = (0..12).map(|i| i % 3 != 0).collect();
    let lines = status_report(&entries, &health);
    assert_eq!(lines.last().unwrap(), "12 instance(s), 8 healthy");
    assert_eq!(lines[0], "  instance [stale] browser=chrome ext=ext since=2024-01-01T00:00:00+00:00");
}
