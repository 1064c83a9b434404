use powerhouse::storage::{
    filesystem_status, mount_points, order_filesystems, top_consumers, EntryKind, ScanLimits,
    ScanState, StorageConsumer, Visit,
};

fn consumer(path: &str, bytes: u64) -> StorageConsumer {
    StorageConsumer { path: path.to_owned(), bytes, is_directory: false }
}

#[test]
fn consumers_are_ranked_by_size_then_path_components() {
    let cs = vec![
        consumer("/r/a-b", 10),
        consumer("/r/a/x", 10),
        consumer("/r/big", 99),
        consumer("/r/a", 10),
    ];
    let top: Vec<String> = top_consumers(&cs, 3).into_iter().map(|c| c.path).collect();
    assert_eq!(top, vec!["/r/big", "/r/a", "/r/a/x"]);
    let mut paths: Vec<std::path::PathBuf> =
        ["/r/a-b", "/r/a/x", "/r/a"].iter().map(std::path::PathBuf::from).collect();
    paths.sort();
    assert_eq!(paths[1], std::path::PathBuf::from("/r/a/x"));
}

#[test]
fn scan_state_stops_at_the_entry_bound() {
    let mut state = ScanState::new(ScanLimits { max_depth: 1, max_entries: 2, top_n: 5 });
    assert!(state.may_continue());
    state.count_entry();
    let total = state.record(0, "/r/a".to_owned(), 7, false);
    assert!(state.may_continue());
    state.count_entry();
    let total = state.record(total, "/r/b".to_owned(), 0, false);
    assert!(!state.may_continue());
    assert!(state.truncated);
    assert!(state.may_descend(0));
    assert!(!state.may_descend(1));
    state.skip_entry();
    let analysis = state.finish("/r".to_owned(), total);
    assert_eq!(analysis.total_bytes, 7);
    assert_eq!(analysis.entries_scanned, 2);
    assert_eq!(analysis.skipped_entries, 1);
    assert!(analysis.truncated);
    assert_eq!(analysis.top_consumers.len(), 1);
}

#[test]
fn directory_totals_saturate() {
    let mut state = ScanState::new(ScanLimits::default());
    let total = state.record(u64::MAX - 1, "/x".to_owned(), 5, true);
    assert_eq!(total, u64::MAX);
}

#[test]
fn mounted_filesystems_are_filtered_and_unescaped() {
    let mounts = "proc /proc proc rw 0 0\n/dev/sda1 / ext4 rw 0 0\n\
                  tmpfs /run/my\\040dir tmpfs rw 0 0\nshort line\n";
    assert_eq!(mount_points(mounts), vec!["/".to_owned(), "/run/my dir".to_owned()]);
}

#[test]
fn filesystems_are_ordered_and_deduplicated() {
    let statuses = vec![
        filesystem_status("/var", 1, 10, 5, 5),
        filesystem_status("/", 1, 10, 5, 5),
        filesystem_status("/var", 1, 20, 5, 5),
    ];
    let ordered = order_filesystems(&statuses);
    let mounts: Vec<&str> = ordered.iter().map(|s| s.mount_point.as_str()).collect();
    assert_eq!(mounts, vec!["/", "/var"]);
    assert_eq!(ordered[1].total_bytes, 10);
}

#[test]
fn symlinks_are_skipped_and_never_followed() {
    let mut state = ScanState::new(ScanLimits::default());
    assert_eq!(state.visit(EntryKind::Symlink, 0), Visit::Skip);
    assert_eq!(state.entries_scanned, 1);
    assert_eq!(state.skipped_entries, 1);
    assert!(!state.truncated);
    assert_eq!(state.visit(EntryKind::UnknownType, 0), Visit::Skip);
    assert_eq!(state.visit(EntryKind::Unreadable, 0), Visit::Skip);
    assert_eq!(state.entries_scanned, 2);
    assert_eq!(state.skipped_entries, 3);
}

#[test]
fn directories_are_entered_only_below_the_depth_limit() {
    let mut state = ScanState::new(ScanLimits { max_depth: 1, max_entries: 10, top_n: 5 });
    assert_eq!(state.visit(EntryKind::Directory, 0), Visit::Descend);
    assert!(!state.truncated);
    assert_eq!(state.visit(EntryKind::Directory, 1), Visit::Empty);
    assert!(state.truncated);
    assert_eq!(state.visit(EntryKind::File, 1), Visit::Measure);
    assert_eq!(state.visit(EntryKind::Other, 1), Visit::Empty);
    assert_eq!(state.entries_scanned, 4);
    assert_eq!(state.skipped_entries, 0);
}
