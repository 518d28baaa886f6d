use rustdrivesync::cli::resolve_sync_mode;
use rustdrivesync::sync::engine_v2::{
    change_for_event, file_state_at, next_watch_action, plan_uploads, scanner_for, tally,
    target_folder_name, upload_step, TaskOutcome, UploadStep, WatchAction,
};
use rustdrivesync::sync::scanner::LocalFile;
use rustdrivesync::sync::state::{FileState, SyncState};
use rustdrivesync::sync::tracker::{ChangeType, FileChange};
use rustdrivesync::sync::engine::{SyncMode as LegacySyncMode, SyncStats as LegacySyncStats};
use rustdrivesync::sync::{SyncMode, SyncStats};
use rustdrivesync::watcher::{FileEvent, FileEventType};

fn local(path: &str, size: u64) -> LocalFile {
    LocalFile {
        path: format!("/root/{}", path),
        relative_path: path.to_string(),
        size,
        modified: 10,
        md5_hash: None,
    }
}

#[test]
fn engine_test_sync_mode() {
    assert_eq!(LegacySyncMode::Once, LegacySyncMode::Once);
    assert_ne!(LegacySyncMode::Once, LegacySyncMode::Watch);
}

#[test]
fn engine_v2_test_sync_mode() {
    assert_eq!(SyncMode::Once, SyncMode::Once);
    assert_ne!(SyncMode::Once, SyncMode::Watch);
}

#[test]
fn engine_test_sync_stats() {
    let mut stats = LegacySyncStats::default();
    assert_eq!(stats.files_uploaded, 0);

    stats.record_upload(1024, true);
    assert_eq!(stats.files_uploaded, 1);
    assert_eq!(stats.bytes_uploaded, 1024);

    stats.record_upload(2048, false);
    assert_eq!(stats.files_updated, 1);
    assert_eq!(stats.bytes_uploaded, 3072);

    stats.record_failure();
    assert_eq!(stats.files_failed, 1);
}

#[test]
fn engine_v2_test_sync_stats() {
    let mut stats = SyncStats::default();
    assert_eq!(stats.files_uploaded, 0);

    stats.record_upload(1024, true);
    assert_eq!(stats.files_uploaded, 1);
    assert_eq!(stats.bytes_uploaded, 1024);

    stats.record_upload(2048, false);
    assert_eq!(stats.files_updated, 1);
    assert_eq!(stats.bytes_uploaded, 3072);

    stats.record_failure();
    assert_eq!(stats.files_failed, 1);
    assert!(!stats.all_succeeded());
}

#[test]
fn sync_mode_from_flags_and_configuration() {
    assert_eq!(resolve_sync_mode(true, true, "watch"), SyncMode::Once);
    assert_eq!(resolve_sync_mode(false, true, "once"), SyncMode::Watch);
    assert_eq!(resolve_sync_mode(false, false, "watch"), SyncMode::Watch);
    assert_eq!(resolve_sync_mode(false, false, "once"), SyncMode::Once);
    assert_eq!(resolve_sync_mode(false, false, "other"), SyncMode::Once);
}

#[test]
fn tally_counts_outcomes() {
    let outcomes = vec![
        TaskOutcome::Uploaded { size: 8, is_new: true },
        TaskOutcome::Failed,
        TaskOutcome::Uploaded { size: 15, is_new: false },
        TaskOutcome::Panicked,
        TaskOutcome::Uploaded { size: u64::MAX, is_new: true },
    ];
    let s = tally(&outcomes);
    assert_eq!(s.files_uploaded, 2);
    assert_eq!(s.files_updated, 1);
    assert_eq!(s.files_failed, 2);
    assert_eq!(s.bytes_uploaded, 22);
    assert_eq!(s.files_scanned, 0);
    let run = SyncStats::of_run(3, &s);
    assert_eq!(run.files_scanned, 3);
    assert_eq!(run.files_failed, 2);
}

#[test]
fn scanner_limit_in_megabytes() {
    let s = scanner_for(vec!["x".to_string()], 100);
    assert_eq!(s.max_file_size(), Some(100 * 1024 * 1024));
    assert_eq!(s.ignore_patterns(), &vec!["x".to_string()]);
    let unlimited = scanner_for(vec![], 0);
    assert_eq!(unlimited.max_file_size(), Some(u64::MAX));
}

#[test]
fn default_folder_name() {
    assert_eq!(target_folder_name(&None), "RustDriveSync");
    assert_eq!(target_folder_name(&Some("Backups".to_string())), "Backups");
}

#[test]
fn plan_uploads_selects_new_and_modified() {
    let mut state = SyncState::new("/root".to_string(), "f".to_string());
    state.update_file(file_state_at(&local("same", 5), "id1".to_string(), 5, None, 1));
    state.update_file(file_state_at(&local("changed", 5), "id2".to_string(), 5, None, 1));
    let files = vec![local("same", 5), local("changed", 6), local("fresh", 1)];
    let plan = plan_uploads(&files, &state);
    let names: Vec<&str> = plan.iter().map(|c| c.relative_path.as_str()).collect();
    assert_eq!(names, vec!["changed", "fresh"]);
}

#[test]
fn recorded_state_after_upload() {
    let f = local("a.txt", 5);
    let s = file_state_at(&f, "drive1".to_string(), 5, None, 99);
    assert_eq!(s.md5_hash, "unknown");
    assert_eq!(s.relative_path, "a.txt");
    assert_eq!(s.modified, 10);
    assert_eq!(s.last_synced, 99);
    let s2 = file_state_at(&f, "drive1".to_string(), 5, Some("abc".to_string()), 99);
    assert_eq!(s2.md5_hash, "abc");
    let s3 = rustdrivesync::sync::engine_v2::create_file_state(&f, "d".to_string(), 5, None);
    assert_eq!(s3.drive_file_id, "d");
    assert!(s3.last_synced > 0);
}

#[test]
fn upload_steps() {
    let c = FileChange::new(local("a", 7));
    match upload_step(&c, true).unwrap() {
        UploadStep::Simulate { size } => assert_eq!(size, 7),
        _ => panic!("expected a simulation"),
    }
    match upload_step(&c, false).unwrap() {
        UploadStep::Upload { path, size } => {
            assert_eq!(path, "/root/a");
            assert_eq!(size, 7);
        }
        _ => panic!("expected an upload"),
    }
    let d = FileChange::deleted(
        "x".to_string(),
        FileState {
            relative_path: "x".to_string(),
            drive_file_id: "i".to_string(),
            size: 1,
            modified: 1,
            md5_hash: "h".to_string(),
            last_synced: 1,
        },
    );
    let e = upload_step(&d, false).unwrap_err();
    assert_eq!(e.message(), "Erro da API do Google Drive: Arquivo local não disponível");
}

#[test]
fn watched_file_changes() {
    let mut state = SyncState::new("/root".to_string(), "f".to_string());
    assert!(change_for_event(local("big", 11), Some(10), &state).is_none());
    let c = change_for_event(local("a", 3), Some(10), &state).unwrap();
    assert_eq!(c.change_type, ChangeType::New);
    state.update_file(file_state_at(&local("a", 3), "id".to_string(), 3, None, 1));
    let c = change_for_event(local("a", 3), None, &state).unwrap();
    assert_eq!(c.change_type, ChangeType::Modified);
    assert_eq!(c.previous_state.unwrap().drive_file_id, "id");
}

#[test]
fn watch_loop_steps() {
    assert!(matches!(next_watch_action(true, None), WatchAction::Stop));
    assert!(matches!(next_watch_action(false, None), WatchAction::Wait));
    let ev = FileEvent::new(FileEventType::Created, "a".to_string());
    assert!(matches!(next_watch_action(false, Some(ev)), WatchAction::Sync(_)));
    let ev = FileEvent::new(FileEventType::Deleted, "a".to_string());
    assert!(matches!(next_watch_action(false, Some(ev)), WatchAction::Ignore(_)));
    let ev = FileEvent::new(FileEventType::Modified, "a".to_string());
    assert!(matches!(next_watch_action(true, Some(ev)), WatchAction::Stop));
}

#[test]
fn record_outcome_counts_each_outcome_once() {
    let mut stats = SyncStats::default();
    stats.record_outcome(&TaskOutcome::Uploaded { size: 10, is_new: true });
    stats.record_outcome(&TaskOutcome::Uploaded { size: 5, is_new: false });
    stats.record_outcome(&TaskOutcome::Failed);
    stats.record_outcome(&TaskOutcome::Panicked);
    assert_eq!(stats.files_uploaded, 1);
    assert_eq!(stats.files_updated, 1);
    assert_eq!(stats.files_failed, 2);
    assert_eq!(stats.bytes_uploaded, 15);
}
