use rustdrivesync::sync::scanner::LocalFile;
use rustdrivesync::sync::state::{FileState, SyncState};
use rustdrivesync::sync::tracker::{ChangeTracker, ChangeType, FileChange};

fn create_test_local_file(path: &str, size: u64, modified: i64) -> LocalFile {
    LocalFile {
        path: path.to_string(),
        relative_path: path.to_string(),
        size,
        modified,
        md5_hash: None,
    }
}

fn create_test_file_state(path: &str, size: u64, modified: i64, md5: &str) -> FileState {
    FileState {
        relative_path: path.to_string(),
        drive_file_id: "test_id".to_string(),
        size,
        modified,
        md5_hash: md5.to_string(),
        last_synced: modified,
    }
}

#[test]
fn test_detect_new_file() {
    let local_files = vec![create_test_local_file("new.txt", 100, 1000)];
    let sync_state = SyncState::new("/local".to_string(), "drive_id".to_string());

    let changes = ChangeTracker::detect_changes(&local_files, &sync_state);
    assert_eq!(changes.len(), 1);
    assert_eq!(changes[0].change_type, ChangeType::New);
}

#[test]
fn test_detect_modified_file() {
    let local_files = vec![create_test_local_file("modified.txt", 200, 2000)];
    let mut sync_state = SyncState::new("/local".to_string(), "drive_id".to_string());
    sync_state.update_file(create_test_file_state("modified.txt", 100, 1000, "old_hash"));

    let changes = ChangeTracker::detect_changes(&local_files, &sync_state);
    assert_eq!(changes.len(), 1);
    assert_eq!(changes[0].change_type, ChangeType::Modified);
}

#[test]
fn test_detect_deleted_file() {
    let local_files = vec![];
    let mut sync_state = SyncState::new("/local".to_string(), "drive_id".to_string());
    sync_state.update_file(create_test_file_state("deleted.txt", 100, 1000, "hash"));

    let changes = ChangeTracker::detect_changes(&local_files, &sync_state);
    assert_eq!(changes.len(), 1);
    assert_eq!(changes[0].change_type, ChangeType::Deleted);
}

#[test]
fn test_filter_sync_needed() {
    let changes = vec![
        FileChange::new(create_test_local_file("new.txt", 100, 1000)),
        FileChange::deleted(
            "deleted.txt".to_string(),
            create_test_file_state("deleted.txt", 100, 1000, "hash"),
        ),
    ];

    let sync_needed = ChangeTracker::filter_sync_needed(changes);
    assert_eq!(sync_needed.len(), 1);
    assert_eq!(sync_needed[0].change_type, ChangeType::New);
}

#[test]
fn recorded_unchanged_file_is_unchanged() {
    let mut state = SyncState::new("/l".to_string(), "d".to_string());
    state.update_file(create_test_file_state("same.txt", 100, 1000, "h"));
    let local = vec![create_test_local_file("same.txt", 100, 1000)];
    let changes = ChangeTracker::detect_changes(&local, &state);
    assert_eq!(changes.len(), 1);
    assert_eq!(changes[0].change_type, ChangeType::Unchanged);
    assert!(ChangeTracker::filter_sync_needed(changes).is_empty());
}

#[test]
fn known_hash_that_differs_is_modified() {
    let mut state = SyncState::new("/l".to_string(), "d".to_string());
    state.update_file(create_test_file_state("f.txt", 100, 1000, "aaa"));
    let mut f = create_test_local_file("f.txt", 100, 1000);
    f.md5_hash = Some("bbb".to_string());
    assert!(ChangeTracker::is_modified(&f, state.get_file("f.txt").unwrap()));
    f.md5_hash = Some("aaa".to_string());
    assert!(!ChangeTracker::is_modified(&f, state.get_file("f.txt").unwrap()));
}

#[test]
fn changes_come_in_local_order_then_deletions() {
    let mut state = SyncState::new("/l".to_string(), "d".to_string());
    state.update_file(create_test_file_state("gone1", 1, 1, "h"));
    state.update_file(create_test_file_state("kept", 5, 5, "h"));
    state.update_file(create_test_file_state("gone2", 1, 1, "h"));
    let local = vec![
        create_test_local_file("fresh", 1, 1),
        create_test_local_file("kept", 6, 5),
    ];
    let changes = ChangeTracker::detect_changes(&local, &state);
    assert_eq!(changes.len(), 4);
    assert_eq!(changes[0].relative_path, "fresh");
    assert_eq!(changes[0].change_type, ChangeType::New);
    assert_eq!(changes[1].relative_path, "kept");
    assert_eq!(changes[1].change_type, ChangeType::Modified);
    assert_eq!(changes[2].change_type, ChangeType::Deleted);
    assert_eq!(changes[3].change_type, ChangeType::Deleted);
    let mut deleted: Vec<String> = vec![changes[2].relative_path.clone(), changes[3].relative_path.clone()];
    deleted.sort();
    assert_eq!(deleted, vec!["gone1".to_string(), "gone2".to_string()]);
    assert!(changes[2].local_file.is_none());

    let (new, modified, gone) = ChangeTracker::group_by_type(&changes);
    assert_eq!(new.len(), 1);
    assert_eq!(modified.len(), 1);
    assert_eq!(gone.len(), 2);
    let needed = ChangeTracker::filter_sync_needed(changes);
    assert_eq!(needed.len(), 2);
}

#[test]
fn constructors_set_kind_and_states() {
    let f = create_test_local_file("a", 1, 2);
    let s = create_test_file_state("a", 1, 2, "h");
    let c = FileChange::unchanged(f.clone(), s.clone());
    assert_eq!(c.change_type, ChangeType::Unchanged);
    assert_eq!(c.relative_path, "a");
    assert!(c.previous_state.is_some() && c.local_file.is_some());
    let m = FileChange::modified(f, s);
    assert_eq!(m.change_type, ChangeType::Modified);
}
