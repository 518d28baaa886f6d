use rustdrivesync::sync::state::{unix_time_of, FileState, SyncState, SyncStateManager};

fn file_state(path: &str, id: &str) -> FileState {
    FileState {
        relative_path: path.to_string(),
        drive_file_id: id.to_string(),
        size: 1024,
        modified: 1234567890,
        md5_hash: "abc123".to_string(),
        last_synced: 1234567900,
    }
}

#[test]
fn test_sync_state_creation() {
    let state = SyncState::new("/local/path".to_string(), "drive_id_123".to_string());
    assert_eq!(state.version(), "1.0");
    assert_eq!(state.file_count(), 0);
    assert!(state.last_full_sync().is_none());
}

#[test]
fn test_file_state_operations() {
    let mut state = SyncState::new("/local/path".to_string(), "drive_id_123".to_string());

    let file_state = FileState {
        relative_path: "test.txt".to_string(),
        drive_file_id: "file_123".to_string(),
        size: 1024,
        modified: 1234567890,
        md5_hash: "abc123".to_string(),
        last_synced: 1234567900,
    };

    // Adicionar arquivo
    state.update_file(file_state.clone());
    assert_eq!(state.file_count(), 1);
    assert!(state.is_synced("test.txt"));

    // Obter arquivo
    let retrieved = state.get_file("test.txt").unwrap();
    assert_eq!(retrieved.drive_file_id, "file_123");

    // Remover arquivo
    state.remove_file("test.txt");
    assert_eq!(state.file_count(), 0);
    assert!(!state.is_synced("test.txt"));
}

#[test]
fn test_mark_full_sync() {
    let mut state = SyncState::new("/local/path".to_string(), "drive_id_123".to_string());
    assert!(state.last_full_sync().is_none());

    state.mark_full_sync();
    assert!(state.last_full_sync().is_some());
}

#[test]
fn read_after_update_returns_latest() {
    let mut state = SyncState::new("/l".to_string(), "d".to_string());
    state.update_file(file_state("a.txt", "first"));
    state.update_file(file_state("b.txt", "other"));
    state.update_file(file_state("a.txt", "second"));
    assert_eq!(state.file_count(), 2);
    assert_eq!(state.get_file("a.txt").unwrap().drive_file_id, "second");
    assert_eq!(state.get_file("b.txt").unwrap().drive_file_id, "other");
    assert!(state.get_file("c.txt").is_none());
}

#[test]
fn remove_returns_recorded_state_once() {
    let mut state = SyncState::new("/l".to_string(), "d".to_string());
    state.update_file(file_state("a.txt", "id_a"));
    let removed = state.remove_file("a.txt").unwrap();
    assert_eq!(removed.drive_file_id, "id_a");
    assert!(state.remove_file("a.txt").is_none());
    assert_eq!(state.file_count(), 0);
}

#[test]
fn mark_full_sync_at_records_time_and_keeps_files() {
    let mut state = SyncState::new("/l".to_string(), "d".to_string());
    state.update_file(file_state("a.txt", "id_a"));
    state.mark_full_sync_at(42);
    assert_eq!(state.last_full_sync(), Some(42));
    assert_eq!(state.file_count(), 1);
    assert_eq!(state.local_directory(), "/l");
    assert_eq!(state.drive_folder_id(), "d");
}

#[test]
fn from_parts_later_entry_wins() {
    let files = vec![
        ("a.txt".to_string(), file_state("a.txt", "old")),
        ("b.txt".to_string(), file_state("b.txt", "b")),
        ("a.txt".to_string(), file_state("a.txt", "new")),
    ];
    let state = SyncState::from_parts("1.0".to_string(), "/l".to_string(), "d".to_string(), Some(7), files);
    assert_eq!(state.file_count(), 2);
    assert_eq!(state.get_file("a.txt").unwrap().drive_file_id, "new");
    assert_eq!(state.last_full_sync(), Some(7));
    assert_eq!(state.files().len(), 2);
}

#[test]
fn manager_holds_path_and_state() {
    let mut m = SyncStateManager::new("./state.json".to_string(), "/l".to_string(), "d".to_string());
    assert_eq!(m.state_file_path(), "./state.json");
    m.state_mut().update_file(file_state("x", "y"));
    assert!(m.state().is_synced("x"));
    let m2 = SyncStateManager::with_state("s.json".to_string(), SyncState::new("/a".to_string(), "b".to_string()));
    assert_eq!(m2.state().file_count(), 0);
}

#[test]
fn unix_time_of_clock_readings() {
    assert_eq!(unix_time_of(Ok(5)), 5);
    assert_eq!(unix_time_of(Err(5)), -5);
    assert_eq!(unix_time_of(Ok(u64::MAX)), i64::MAX);
    assert_eq!(unix_time_of(Err(u64::MAX)), i64::MIN);
    let mut state = SyncState::new("/l".to_string(), "d".to_string());
    state.mark_full_sync();
    assert!(state.last_full_sync().unwrap() > 1_600_000_000);
}
