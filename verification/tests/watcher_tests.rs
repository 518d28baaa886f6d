use rustdrivesync::watcher::file_watcher::{classify_notification, NotificationKind};
use rustdrivesync::watcher::{FileEvent, FileEventType, WatcherConfig};
use std::time::Duration;

#[test]
fn test_watcher_config_default() {
    let config = WatcherConfig::default();
    assert!(!config.ignore_patterns.is_empty());
    assert_eq!(config.debounce_duration, Duration::from_secs(2));
}

#[test]
fn test_watcher_config_should_ignore() {
    let config = WatcherConfig::default();
    assert!(config.should_ignore("/path/to/.git/config"));
    assert!(config.should_ignore("/path/node_modules/pkg"));
    assert!(!config.should_ignore("/path/to/file.txt"));
}

#[test]
fn test_file_event_needs_sync() {
    let created = FileEvent::new(FileEventType::Created, "test.txt".to_string());
    assert!(created.needs_sync());

    let modified = FileEvent::new(FileEventType::Modified, "test.txt".to_string());
    assert!(modified.needs_sync());

    let deleted = FileEvent::new(FileEventType::Deleted, "test.txt".to_string());
    assert!(!deleted.needs_sync());
}

#[test]
fn test_watcher_config_with_custom_debounce() {
    let config = WatcherConfig::default().with_debounce(Duration::from_secs(5));
    assert_eq!(config.debounce_duration, Duration::from_secs(5));
}

#[test]
fn notifications_become_events() {
    assert_eq!(classify_notification(&NotificationKind::Any, true), FileEventType::Modified);
    assert_eq!(classify_notification(&NotificationKind::Any, false), FileEventType::Deleted);
    assert_eq!(classify_notification(&NotificationKind::AnyContinuous, false), FileEventType::Modified);
    assert_eq!(classify_notification(&NotificationKind::Unknown, true), FileEventType::Other);
    let config = WatcherConfig::default();
    assert!(config.event_for("/x/state.json".to_string(), &NotificationKind::Any, true).is_none());
    let e = config.event_for("/x/a.txt".to_string(), &NotificationKind::Any, false).unwrap();
    assert_eq!(e.event_type, FileEventType::Deleted);
    assert_eq!(e.path, "/x/a.txt");
}

#[test]
fn custom_patterns_are_added_to_defaults() {
    let config = WatcherConfig::default().with_ignore_patterns(vec!["*.tmp".to_string()]);
    assert!(config.should_ignore("/p/.git/x"));
    assert!(config.should_ignore("/p/a.tmp"));
    assert!(!config.should_ignore("/p/a.txt"));
    assert!(config.event_for("/p/dump.tmp".to_string(), &NotificationKind::Any, true).is_none());
    let copy = config.clone();
    assert_eq!(copy.ignore_patterns.len(), 9);
    assert_eq!(copy.ignore_patterns[8], "*.tmp".to_string());
    assert_eq!(copy.debounce_duration, Duration::from_secs(2));
    assert!(!FileEvent::new(FileEventType::Other, "x".to_string()).needs_sync());
}
