use powerhouse::storage::{
    check_root, filesystem_status, is_supported_filesystem, RootInspection, ScanLimits,
    StorageIntelligenceError,
};

#[test]
fn missing_path_is_reported() {
    // Inspecting the path (without following symlinks) found nothing there.
    let result = check_root("/definitely/not/a/linux-powerhouse-path", RootInspection::NotFound);
    assert!(matches!(result, Err(StorageIntelligenceError::MissingPath(_))));
}

#[test]
fn symlink_root_is_rejected() {
    let result = check_root("/tmp/link", RootInspection::NotDirectory);
    assert!(matches!(result, Err(StorageIntelligenceError::NotDirectory(ref p)) if p == "/tmp/link"));
}

#[test]
fn real_directories_are_accepted_and_inspection_failures_reported() {
    assert!(check_root("/tmp", RootInspection::Directory).is_ok());
    let failure = std::io::Error::new(std::io::ErrorKind::PermissionDenied, "denied");
    let result = check_root("/root", RootInspection::Failed(failure));
    assert!(matches!(result, Err(StorageIntelligenceError::Io { ref path, .. }) if path == "/root"));
}

#[test]
fn default_scan_limits_are_bounded() {
    let limits = ScanLimits::default();
    assert_eq!(limits.max_depth, 4);
    assert_eq!(limits.max_entries, 10_000);
    assert_eq!(limits.top_n, 20);
}

#[test]
fn filesystem_capacity_is_computed_from_block_counts() {
    let status = filesystem_status("/", 4096, 100, 40, 50);
    assert_eq!(status.total_bytes, 409_600);
    assert_eq!(status.available_bytes, 163_840);
    assert_eq!(status.used_bytes, 204_800);
    assert_eq!(status.usage_percent, 50);
    let empty = filesystem_status("/x", 4096, 0, 0, 0);
    assert_eq!(empty.usage_percent, 0);
    let saturated = filesystem_status("/y", u64::MAX, 2, 1, 0);
    assert_eq!(saturated.total_bytes, u64::MAX);
    assert_eq!(saturated.usage_percent, 1);
}

#[test]
fn only_real_filesystems_are_reported() {
    assert!(is_supported_filesystem("ext4"));
    assert!(is_supported_filesystem("tmpfs"));
    assert!(!is_supported_filesystem("proc"));
    assert!(!is_supported_filesystem("EXT4"));
}
