use logga::watcher::{handle, has_extension, Dispatch, EventKind, ExtensionKey, UploadPlan, WatchEvent};

fn event(kind: EventKind, paths: &[&str]) -> WatchEvent {
    WatchEvent { kind, paths: paths.iter().map(|p| p.to_string()).collect() }
}

#[test]
fn a_created_archive_is_uploaded_under_its_base_name() {
    let d = handle(&event(EventKind::Create, &["/watched/archive.zip"]), "backups");
    match d {
        Dispatch::Upload(plan) => {
            assert_eq!(plan.key, "archive.zip");
            assert_eq!(plan.bucket, "backups");
            assert_eq!(plan.path, "/watched/archive.zip");
        }
        other => panic!("expected an upload, got {:?}", other),
    }
}

#[test]
fn a_created_text_file_is_not_uploaded() {
    let d = handle(&event(EventKind::Create, &["/watched/notes.txt"]), "backups");
    assert!(matches!(d, Dispatch::Ignore));
}

#[test]
fn a_removal_is_never_uploaded() {
    for path in ["/watched/archive.zip", "/watched/notes.txt", "archive.ZIP"] {
        let d = handle(&event(EventKind::Remove, &[path]), "backups");
        assert!(matches!(d, Dispatch::Ignore));
    }
    assert!(matches!(handle(&event(EventKind::Remove, &[]), "backups"), Dispatch::Ignore));
}

#[test]
fn other_events_are_never_uploaded() {
    let d = handle(&event(EventKind::Other, &["/watched/archive.zip"]), "backups");
    assert!(matches!(d, Dispatch::Ignore));
    assert!(matches!(handle(&event(EventKind::Other, &[]), "backups"), Dispatch::Ignore));
}

#[test]
fn a_creation_without_paths_is_a_warning() {
    let d = handle(&event(EventKind::Create, &[]), "backups");
    assert!(matches!(d, Dispatch::EmptyPaths));
}

#[test]
fn only_the_first_path_counts() {
    let d = handle(&event(EventKind::Create, &["a.txt", "b.zip"]), "backups");
    assert!(matches!(d, Dispatch::Ignore));
    let d = handle(&event(EventKind::Create, &["a.zip", "b.txt"]), "backups");
    assert!(matches!(d, Dispatch::Upload(plan) if plan.key == "a.zip"));
}

#[test]
fn the_extension_matches_in_any_case() {
    for path in ["a.zip", "a.ZIP", "a.Zip", "a.zIp", "dir.d/b.tar.ZiP"] {
        assert!(has_extension(path, ExtensionKey::Zip), "{}", path);
    }
    for path in ["a.zi", "a.zipp", "zip", ".zip", "a.zip.txt", "a.zip/..", "", "a.7z"] {
        assert!(!has_extension(path, ExtensionKey::Zip), "{}", path);
    }
    assert_eq!(ExtensionKey::Zip.name(), "Zip");
}

#[test]
fn a_plan_becomes_a_request_with_the_bytes_of_the_file() {
    let plan = UploadPlan {
        path: "/watched/archive.zip".to_string(),
        bucket: "backups".to_string(),
        key: "archive.zip".to_string(),
    };
    let request = plan.request(vec![0x50, 0x4b, 0x03, 0x04]);
    assert_eq!(request.bucket, "backups");
    assert_eq!(request.key, "archive.zip");
    assert_eq!(request.bytes, vec![0x50, 0x4b, 0x03, 0x04]);
}
