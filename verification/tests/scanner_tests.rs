use rustdrivesync::checksum::{content_md5, Md5Stream};
use rustdrivesync::sync::scanner::{FileScanner, LocalFile};

fn file(path: &str, size: u64) -> LocalFile {
    LocalFile {
        path: format!("/base/{}", path),
        relative_path: path.to_string(),
        size,
        modified: 0,
        md5_hash: None,
    }
}

#[test]
fn test_scanner_creation() {
    let scanner = FileScanner::new();
    assert!(!scanner.ignore_patterns().is_empty());
    assert!(scanner.max_file_size().is_none());
}

#[test]
fn test_should_ignore() {
    let scanner = FileScanner::new();
    assert!(scanner.should_ignore("/path/to/.git/config"));
    assert!(scanner.should_ignore("/path/node_modules/package"));
    assert!(!scanner.should_ignore("/path/to/file.txt"));
}

#[test]
fn size_limit_keeps_files_up_to_the_limit() {
    let scanner = FileScanner::new().with_max_file_size(10);
    let kept = scanner.keep_within_size(vec![file("a", 8), file("b", 10), file("c", 11)]);
    let names: Vec<&str> = kept.iter().map(|f| f.relative_path.as_str()).collect();
    assert_eq!(names, vec!["a", "b"]);
    assert_eq!(scanner.config().max_file_size, Some(10));
    let none = FileScanner::new().with_max_file_size(0);
    assert!(none.keep_within_size(vec![file("a", 1)]).is_empty());
    let unlimited = FileScanner::default();
    assert_eq!(unlimited.keep_within_size(vec![file("a", u64::MAX)]).len(), 1);
}

#[test]
fn ignore_patterns_are_substrings() {
    let scanner = FileScanner::new().with_ignore_patterns(vec![".log".to_string(), "subdir1".to_string()]);
    let kept = scanner.keep_unignored(vec![
        "/d/subdir1/file3.txt".to_string(),
        "/d/subdir2/file6.txt".to_string(),
        "/d/app.log".to_string(),
        "/d/.git/HEAD".to_string(),
    ]);
    assert_eq!(kept, vec!["/d/subdir2/file6.txt".to_string(), "/d/.git/HEAD".to_string()]);
    let everything = FileScanner::new().with_ignore_patterns(vec!["".to_string()]);
    assert!(everything.should_ignore("anything"));
    assert!(everything.is_too_large(5) == false);
}

#[test]
fn record_md5_stores_lowercase_hex_digest() {
    let mut f = file("a", 3);
    let h = f.record_md5(b"abc");
    assert_eq!(h, "900150983cd24fb0d6963f7d28e17f72");
    assert_eq!(f.md5_hash, Some("900150983cd24fb0d6963f7d28e17f72".to_string()));
    assert_eq!(f.size, 3);
    let mut g = file("b", 0);
    assert_eq!(g.record_md5(b""), "d41d8cd98f00b204e9800998ecf8427e");
}

#[test]
fn compute_file_hash_is_the_md5_of_the_content() {
    let h = rustdrivesync::base::compute_file_hash(b"abc").unwrap();
    assert_eq!(h, "900150983cd24fb0d6963f7d28e17f72");
    let handle = rustdrivesync::base::FileScanner::new("/dir".to_string());
    assert_eq!(handle.path, "/dir");
}

#[test]
fn content_md5_is_the_lowercase_hex_digest() {
    assert_eq!(content_md5(b"abc"), "900150983cd24fb0d6963f7d28e17f72");
    assert_eq!(content_md5(b"The quick brown fox jumps over the lazy dog"), "9e107d9d372bb6826bd81d3542a419d6");
    assert_eq!(content_md5(b"").len(), 32);
}

#[test]
fn md5_stream_fed_in_pieces_gives_the_whole_checksum() {
    let mut s = Md5Stream::new();
    s.update(b"The quick brown ");
    s.update(b"");
    s.update(b"fox jumps over the lazy dog");
    assert_eq!(s.finish(), "9e107d9d372bb6826bd81d3542a419d6");
    assert_eq!(Md5Stream::new().finish(), content_md5(b""));
}

#[test]
fn glob_patterns_ignore_matching_paths() {
    let scanner = FileScanner::new()
        .with_ignore_patterns(vec!["*.tmp".to_string(), "*.partial".to_string()]);
    assert!(scanner.should_ignore("/var/backups/database/dump.tmp"));
    assert!(scanner.should_ignore("/var/backups/database/dump.sql.partial"));
    assert!(!scanner.should_ignore("/var/backups/database/dump.sql"));
    let scanner = FileScanner::new()
        .with_ignore_patterns(vec!["backup_*.sql".to_string(), "log?.txt".to_string()]);
    assert!(scanner.should_ignore("/data/backup_2024_01.sql"));
    assert!(!scanner.should_ignore("/data/backup.sql"));
    assert!(scanner.should_ignore("/data/log1.txt"));
    assert!(!scanner.should_ignore("/data/log.txt"));
    assert!(!scanner.should_ignore("/data/log12.txt"));
}
