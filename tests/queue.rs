use deadqueue::unlimited::Queue;
use queue_remote_fs::path_set::PathSet;
use queue_remote_fs::queue::{
    check_file_size, complete_download, delete_outcome_for, download_outcome_for, plan_upload_work, request_download,
    publish, send_outcome, settle_download, stale_local_files, upload_message, upload_outcome_for, verify_upload_listing, CubeError,
    ErrorKind, RemoteFile, RemoteFsOp, RemoteFsOpResult, UploadWork,
};
use queue_remote_fs::text::append_decimal;
use tokio::sync::broadcast;

fn listed(path: &str, size: u64) -> RemoteFile {
    RemoteFile { remote_path: path.to_string(), file_size: size }
}

fn names(set: &PathSet) -> Vec<String> {
    let mut v = set.to_vec();
    v.sort();
    v
}

#[test]
fn happy_upload_returns_listed_size() {
    let r = verify_upload_listing("data/a", 100, Ok(vec![listed("data/a", 100)]));
    assert!(matches!(r, Ok(100)));
}

#[test]
fn upload_size_mismatch_is_internal_error() {
    let r = verify_upload_listing("data/a", 100, Ok(vec![listed("data/a", 99)]));
    let e = r.unwrap_err();
    assert_eq!(e.kind(), ErrorKind::Internal);
    assert_eq!(
        e.message(),
        "File sizes for data/a doesn't match after upload. Expected to be 100 but 99 uploaded"
    );
}

#[test]
fn upload_not_listed_is_internal_error() {
    let e = verify_upload_listing("data/a", 100, Ok(vec![])).unwrap_err();
    assert_eq!(e.kind(), ErrorKind::Internal);
    assert_eq!(e.message(), "File data/a can't be listed after upload");
}

#[test]
fn upload_listing_failure_is_passed_on() {
    let e = verify_upload_listing("data/a", 100, Err(CubeError::Io("timeout".to_string())))
        .unwrap_err();
    assert!(matches!(e, CubeError::Io(ref m) if m == "timeout"));
}

#[test]
fn upload_checks_only_first_listed_entry() {
    let r = verify_upload_listing("data/a", 7, Ok(vec![listed("data/a", 7), listed("data/ab", 3)]));
    assert!(matches!(r, Ok(7)));
}

#[test]
fn file_size_check() {
    assert!(check_file_size("x", None, 41).is_ok());
    assert!(check_file_size("x", Some(42), 42).is_ok());
    let e = check_file_size("x", Some(42), 41).unwrap_err();
    assert_eq!(e.kind(), ErrorKind::CorruptData);
    assert_eq!(e.message(), "Expected file size for 'x' is 42 but 41 received");
}

#[test]
fn corrupt_download_fails_and_clears_in_flight_path() {
    let mut downloading = PathSet::new();
    assert!(request_download(&mut downloading, "x", Some(42)).is_some());
    let message = complete_download(&mut downloading, "x".to_string(), Ok("/cache/x".to_string()));
    let result = download_outcome_for(message, "x").unwrap();
    let r = settle_download("x", Some(42), 41, result);
    assert!(matches!(
        r,
        Err(CubeError::CorruptData { ref remote_path, expected: 42, received: 41 }) if remote_path == "x"
    ));
    assert!(!downloading.contains("x"));
    assert!(request_download(&mut downloading, "x", Some(42)).is_some());
}

#[test]
fn settled_download_returns_published_path() {
    let r = settle_download("x", Some(42), 42, Ok("/cache/x".to_string()));
    assert_eq!(r.unwrap(), "/cache/x");
    let r = settle_download("x", None, 5, Err(CubeError::Internal("gone".to_string())));
    assert!(matches!(r, Err(CubeError::Internal(ref m)) if m == "gone"));
}

#[test]
fn failed_download_is_returned_unchanged_whatever_the_local_size() {
    let r = settle_download("x", Some(42), 41, Err(CubeError::ChannelClosed));
    assert!(matches!(r, Err(CubeError::ChannelClosed)));
    let r = settle_download("x", Some(42), 41, Err(CubeError::Io("refused".to_string())));
    assert!(matches!(r, Err(CubeError::Io(ref m)) if m == "refused"));
}

#[test]
fn duplicate_download_requests_enqueue_once() {
    let mut downloading = PathSet::new();
    match request_download(&mut downloading, "x", Some(42)) {
        Some(RemoteFsOp::Download(p, size)) => {
            assert_eq!(p, "x");
            assert_eq!(size, Some(42));
        }
        other => panic!("unexpected {:?}", other),
    }
    assert!(request_download(&mut downloading, "x", Some(42)).is_none());
    assert!(downloading.contains("x"));
    downloading.remove("x");
    assert!(matches!(
        request_download(&mut downloading, "x", None),
        Some(RemoteFsOp::Download(ref p, None)) if p == "x"
    ));
}

#[test]
fn requested_operations_go_through_the_queue() {
    let queue: Queue<RemoteFsOp> = Queue::new();
    let mut downloading = PathSet::new();
    for path in ["x", "x", "y", "x"] {
        if let Some(op) = request_download(&mut downloading, path, None) {
            queue.push(op);
        }
    }
    assert_eq!(queue.len(), 2);
    assert_eq!(names(&downloading), vec!["x".to_string(), "y".to_string()]);
}

#[test]
fn reconciler_removes_only_unlisted_files() {
    let mut local = PathSet::new();
    local.insert("a");
    local.insert("b");
    local.insert("c");
    let remote = vec!["a".to_string(), "b".to_string(), "meta".to_string()];
    let stale = stale_local_files(local, &remote);
    assert_eq!(names(&stale), vec!["c".to_string()]);
}

#[test]
fn reconciler_with_everything_listed_removes_nothing() {
    let mut local = PathSet::new();
    local.insert("a");
    let stale = stale_local_files(local, &vec!["a".to_string(), "a".to_string()]);
    assert!(stale.is_empty());
}

#[test]
fn path_set_operations() {
    let mut s = PathSet::new();
    assert!(s.is_empty());
    assert!(s.insert("p"));
    assert!(!s.insert("p"));
    assert!(s.contains("p"));
    assert!(!s.contains("q"));
    assert_eq!(s.to_vec().len(), 1);
    s.remove("q");
    assert!(s.contains("p"));
    s.remove("p");
    assert!(s.is_empty());
}

#[test]
fn outcomes_are_matched_by_kind_and_path() {
    let up = RemoteFsOpResult::Upload("data/a".to_string(), Ok(100));
    assert!(matches!(upload_outcome_for(up.clone(), "data/a"), Some(Ok(100))));
    assert!(upload_outcome_for(up.clone(), "data/b").is_none());
    assert!(delete_outcome_for(up.clone(), "data/a").is_none());
    assert!(download_outcome_for(up, "data/a").is_none());

    let del = RemoteFsOpResult::Delete("data/a".to_string(), Ok(()));
    assert!(matches!(delete_outcome_for(del.clone(), "data/a"), Some(Ok(()))));
    assert!(upload_outcome_for(del, "data/a").is_none());

    let down = RemoteFsOpResult::Download("x".to_string(), Ok("/cache/x".to_string()));
    match download_outcome_for(down.clone(), "x") {
        Some(Ok(p)) => assert_eq!(p, "/cache/x"),
        other => panic!("unexpected {:?}", other),
    }
    assert!(download_outcome_for(down, "xy").is_none());
}

#[test]
fn upload_worker_honours_tombstones() {
    let mut deleted = PathSet::new();
    let op = RemoteFsOp::Upload { temp_upload_path: "/tmp/a".to_string(), remote_path: "data/a".to_string() };
    match plan_upload_work(&deleted, op) {
        UploadWork::Upload { temp_upload_path, remote_path } => {
            assert_eq!(temp_upload_path, "/tmp/a");
            assert_eq!(remote_path, "data/a");
        }
        other => panic!("unexpected {:?}", other),
    }
    deleted.insert("data/a");
    let op = RemoteFsOp::Upload { temp_upload_path: "/tmp/a".to_string(), remote_path: "data/a".to_string() };
    assert!(matches!(plan_upload_work(&deleted, op), UploadWork::Skip));
    let op = RemoteFsOp::Delete("data/a".to_string());
    assert!(matches!(plan_upload_work(&deleted, op), UploadWork::Delete(ref p) if p == "data/a"));
}

#[test]
fn error_kinds_and_messages() {
    assert_eq!(CubeError::ChannelClosed.kind(), ErrorKind::ChannelClosed);
    assert_eq!(CubeError::Io("disk".to_string()).kind(), ErrorKind::Io);
    assert_eq!(CubeError::Io("disk".to_string()).message(), "disk");
    let e = CubeError::UploadSizeMismatch { remote_path: "p".to_string(), expected: 0, uploaded: u64::MAX };
    assert_eq!(
        e.clone().message(),
        "File sizes for p doesn't match after upload. Expected to be 0 but 18446744073709551615 uploaded"
    );
}

#[test]
fn decimal_text() {
    for n in [0u64, 7, 10, 99, 1234567890, u64::MAX] {
        let mut s = String::from("#");
        append_decimal(&mut s, n);
        assert_eq!(s, format!("#{}", n));
    }
}

#[test]
fn completing_a_download_clears_the_path_and_publishes_its_outcome() {
    let (tx, mut rx) = broadcast::channel::<RemoteFsOpResult>(16);
    let mut downloading = PathSet::new();
    request_download(&mut downloading, "x", Some(42));
    request_download(&mut downloading, "y", None);
    let message = complete_download(&mut downloading, "x".to_string(), Ok("/cache/x".to_string()));
    assert!(publish(&tx, message).is_ok());
    assert!(!downloading.contains("x"));
    assert!(downloading.contains("y"));
    match download_outcome_for(rx.try_recv().unwrap(), "x") {
        Some(Ok(p)) => assert_eq!(p, "/cache/x"),
        other => panic!("unexpected {:?}", other),
    }
}

#[test]
fn publishing_without_receivers_is_channel_closed() {
    let (tx, rx) = broadcast::channel::<RemoteFsOpResult>(16);
    assert!(publish(&tx, RemoteFsOpResult::Delete("d".to_string(), Ok(()))).is_ok());
    drop(rx);
    let r = publish(&tx, RemoteFsOpResult::Delete("d".to_string(), Ok(())));
    assert!(matches!(r, Err(CubeError::ChannelClosed)));
    assert!(send_outcome(Ok(3)).is_ok());
}

#[test]
fn failed_upload_is_published_without_listing() {
    let m = upload_message("data/a".to_string(), Err(CubeError::Io("denied".to_string())), None);
    assert!(matches!(
        upload_outcome_for(m, "data/a"),
        Some(Err(CubeError::Io(ref e))) if e == "denied"
    ));
}

#[test]
fn upload_message_carries_the_listing_verdict() {
    let m = upload_message("data/a".to_string(), Ok(100), Some(Ok(vec![listed("data/a", 100)])));
    assert!(matches!(upload_outcome_for(m, "data/a"), Some(Ok(100))));
    let m = upload_message("data/a".to_string(), Ok(100), Some(Ok(vec![listed("data/a", 99)])));
    match upload_outcome_for(m, "data/a") {
        Some(Err(e)) => assert_eq!(
            e.message(),
            "File sizes for data/a doesn't match after upload. Expected to be 100 but 99 uploaded"
        ),
        other => panic!("unexpected {:?}", other),
    }
}
