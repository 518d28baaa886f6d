use rustdrivesync::google_drive::models::{
    FolderInfo, ListFilesFilter, LocalFileMetadata, UploadOptions,
};
use rustdrivesync::google_drive::query::{
    exact_match_id, file_info_from_listing, folder_from_answer, folder_mime_type,
    folder_search_query, list_files_query, RemoteFile,
};
use rustdrivesync::google_drive::rate_limiter::{
    near_limit, BudgetDecision, RateLimitedClient, RequestWindow,
};
use rustdrivesync::google_drive::upload::{
    detect_mime_type, hash_before_upload, uploaded_file, use_resumable_upload, verify_checksum,
};
use rustdrivesync::google_drive::DriveRateLimiter;
use rustdrivesync::RustDriveSyncError;

#[test]
fn test_list_files_filter_default() {
    let filter = ListFilesFilter::default();
    assert!(filter.parent_folder_id.is_none());
    assert!(filter.name_contains.is_none());
}

#[test]
fn test_drive_storage_backend_creation() {
    // Teste básico de compilação
    // Testes reais requerem credenciais do Google
}

#[test]
fn test_chunk_size_rounding() {
    let options = UploadOptions::default().with_chunk_size(1_000_000);
    // Deve arredondar para múltiplo de 256KB (768KB)
    assert_eq!(options.chunk_size % (256 * 1024), 0);
}

#[test]
fn chunk_size_rounding_values() {
    assert_eq!(UploadOptions::default().with_chunk_size(1_000_000).chunk_size, 786432);
    assert_eq!(UploadOptions::default().with_chunk_size(0).chunk_size, 262144);
    assert_eq!(UploadOptions::default().with_chunk_size(262143).chunk_size, 262144);
    assert_eq!(UploadOptions::default().with_chunk_size(524288).chunk_size, 524288);
    let o = UploadOptions::with_parent("p".to_string()).with_resumable(false);
    assert!(!o.use_resumable);
    assert_eq!(o.parent_folder_id, Some("p".to_string()));
    assert_eq!(o.chunk_size, 5 * 1024 * 1024);
}

#[test]
fn test_mime_type_detection() {
    let test_cases = vec![
        ("test.txt", "text/plain"),
        ("image.jpg", "image/jpeg"),
        ("image.jpeg", "image/jpeg"),
        ("picture.png", "image/png"),
        ("unknown.unknown123", "application/octet-stream"),
        ("document.pdf", "application/pdf"),
        ("data.json", "application/json"),
        ("video.mp4", "video/mp4"),
        ("audio.mp3", "audio/mpeg"),
        ("archive.zip", "application/zip"),
        ("page.html", "text/html"),
        ("style.css", "text/css"),
        ("script.js", "text/javascript"),
        ("image.webp", "image/webp"),
        ("data.xyz", "chemical/x-xyz"),
    ];

    for (filename, expected_mime) in test_cases {
        let detected = detect_mime_type(filename);

        assert_eq!(detected, expected_mime, "MIME type incorreto para {}", filename);
    }
}

#[test]
fn test_rate_limiter_available_permits() {
    let limiter = DriveRateLimiter::with_limits(5, 100, 60);
    assert_eq!(limiter.available_permits(), 5);
}

#[test]
fn rate_limiter_slots() {
    let limiter = DriveRateLimiter::with_limits(1, 10, 1);
    let g = limiter.try_acquire();
    assert!(g.is_some());
    assert!(limiter.try_acquire().is_none());
    let shared = limiter.clone();
    assert_eq!(shared.available_permits(), 0);
    drop(g);
    assert_eq!(shared.available_permits(), 1);
    assert!(!limiter.is_near_limit());
    assert!(near_limit(1, 10));
    assert!(!near_limit(2, 10));
    assert!(near_limit(1, 7));
    assert!(!near_limit(0, 0));
    assert!(!near_limit(usize::MAX, 10));
    let d = DriveRateLimiter::default();
    assert_eq!(d.available_permits(), 10);
    let mut client = RateLimitedClient::new(7u32, DriveRateLimiter::new());
    *client.inner_mut() += 1;
    assert_eq!(*client.inner(), 8);
    assert_eq!(client.limiter().available_permits(), 10);
}

#[test]
fn folder_and_listing_queries() {
    assert_eq!(folder_mime_type(), "application/vnd.google-apps.folder");
    assert_eq!(
        folder_search_query("Docs", &None),
        "mimeType='application/vnd.google-apps.folder' and name='Docs' and trashed=false"
    );
    assert_eq!(
        folder_search_query("Docs", &Some("p1".to_string())),
        "mimeType='application/vnd.google-apps.folder' and name='Docs' and trashed=false and 'p1' in parents"
    );
    assert_eq!(list_files_query(&ListFilesFilter::default()), "trashed=false");
    let filter = ListFilesFilter {
        parent_folder_id: Some("p".to_string()),
        name_contains: Some("rep".to_string()),
        mime_type: Some("text/plain".to_string()),
        max_results: Some(1),
    };
    assert_eq!(
        list_files_query(&filter),
        "trashed=false and 'p' in parents and name contains 'rep' and mimeType='text/plain'"
    );
}

#[test]
fn exact_name_matching() {
    let files = vec![
        RemoteFile { id: Some("1".to_string()), name: Some("report.txt.bak".to_string()) },
        RemoteFile { id: Some("2".to_string()), name: Some("report.txt".to_string()) },
        RemoteFile { id: Some("3".to_string()), name: Some("report.txt".to_string()) },
    ];
    assert_eq!(exact_match_id(&files, "report.txt"), Some("2".to_string()));
    assert_eq!(exact_match_id(&files, "other"), None);
    let no_id = vec![RemoteFile { id: None, name: Some("a".to_string()) }];
    assert_eq!(exact_match_id(&no_id, "a"), None);
}

#[test]
fn answers_of_the_drive() {
    let f: FolderInfo = folder_from_answer(None, None, "wanted", Some("p".to_string()));
    assert_eq!(f.id, "");
    assert_eq!(f.name, "wanted");
    assert_eq!(f.parent_id, Some("p".to_string()));
    let g = folder_from_answer(Some("x".to_string()), Some("real".to_string()), "wanted", None);
    assert_eq!((g.id.as_str(), g.name.as_str()), ("x", "real"));
    let info = file_info_from_listing(None, Some("n".to_string()), Some(-1), None, Some(5), None);
    assert_eq!(info.id, "");
    assert_eq!(info.size, u64::MAX);
    assert_eq!(info.mime_type, "");
    assert_eq!(info.modified_time, Some(5));
    let info = file_info_from_listing(None, None, None, None, None, None);
    assert_eq!(info.size, 0);
}

#[test]
fn upload_rules() {
    let opts = UploadOptions::default();
    assert!(!use_resumable_upload(&opts, 5 * 1024 * 1024));
    assert!(use_resumable_upload(&opts, 5 * 1024 * 1024 + 1));
    assert!(!use_resumable_upload(&opts.with_resumable(false), u64::MAX));
    assert!(hash_before_upload(5 * 1024 * 1024 - 1));
    assert!(!hash_before_upload(5 * 1024 * 1024));
}

#[test]
fn checksum_verification() {
    let meta = LocalFileMetadata {
        path: "/a/doc.pdf".to_string(),
        name: "doc.pdf".to_string(),
        size: 3,
        mime_type: "application/pdf".to_string(),
        md5_hash: Some("abc".to_string()),
    };
    assert!(verify_checksum(&Some("abc".to_string()), &meta).is_ok());
    assert!(verify_checksum(&None, &meta).is_ok());
    match verify_checksum(&Some("def".to_string()), &meta) {
        Err(RustDriveSyncError::ChecksumMismatch { file, expected, actual }) => {
            assert_eq!(file, "doc.pdf");
            assert_eq!(expected, "abc");
            assert_eq!(actual, "def");
        }
        _ => panic!("expected a checksum mismatch"),
    }
    let unknown = LocalFileMetadata { md5_hash: None, ..meta };
    assert!(verify_checksum(&Some("def".to_string()), &unknown).is_ok());
}

#[test]
fn test_rate_limiter_creation() {
    let limiter = DriveRateLimiter::with_limits(10, 100, 60);
    assert!(limiter.available_permits() > 0);
}

#[test]
fn test_rate_limiter_default() {
    let limiter = DriveRateLimiter::new();
    assert_eq!(limiter.available_permits(), 10);
}

#[test]
fn test_try_acquire() {
    let limiter = DriveRateLimiter::with_limits(1, 10, 1);

    let guard1 = limiter.try_acquire();
    assert!(guard1.is_some());

    let guard2 = limiter.try_acquire();
    assert!(guard2.is_none());

    drop(guard1);

    let guard3 = limiter.try_acquire();
    assert!(guard3.is_some());
}

#[test]
fn rate_limiter_taking_slots_counts_down_and_clones_share() {
    let limiter1 = DriveRateLimiter::with_limits(3, 100, 60);
    let limiter2 = limiter1.clone();
    let g1 = limiter1.try_acquire();
    let g2 = limiter2.try_acquire();
    assert!(g1.is_some() && g2.is_some());
    assert_eq!(limiter1.available_permits(), 1);
    let g3 = limiter1.try_acquire();
    assert!(g3.is_some());
    assert_eq!(limiter1.available_permits(), 0);
    assert_eq!(limiter2.available_permits(), 0);
    drop(g1);
    drop(g2);
    drop(g3);
    assert_eq!(limiter2.available_permits(), 3);
}

#[test]
fn rate_limiter_near_limit_below_a_fifth_free() {
    let limiter = DriveRateLimiter::with_limits(10, 800, 100);
    assert!(!limiter.is_near_limit());
    let mut guards = Vec::new();
    for _ in 0..8 {
        guards.push(limiter.try_acquire().unwrap());
    }
    assert_eq!(limiter.available_permits(), 2);
    assert!(!limiter.is_near_limit());
    guards.push(limiter.try_acquire().unwrap());
    assert_eq!(limiter.available_permits(), 1);
    assert!(limiter.is_near_limit());
    guards.clear();
    assert!(!limiter.is_near_limit());
}

#[test]
fn request_window_spends_the_budget_then_waits() {
    let limiter = DriveRateLimiter::with_limits(2, 3, 100);
    let mut w = limiter.request_window();
    assert_eq!(w.request_at(1000), BudgetDecision::Proceed);
    assert_eq!(w.request_at(1010), BudgetDecision::Proceed);
    assert_eq!(w.request_at(1020), BudgetDecision::Proceed);
    assert_eq!(w.request_at(1030), BudgetDecision::WaitSecs { secs: 70 });
    assert_eq!(w.request_at(1099), BudgetDecision::WaitSecs { secs: 1 });
    assert_eq!(w.request_at(1100), BudgetDecision::Proceed);
    assert_eq!(w.request_at(1101), BudgetDecision::Proceed);
    assert_eq!(w.request_at(50), BudgetDecision::Proceed);
    let mut unlimited = RequestWindow::new(0, 100);
    for t in 0..10 {
        assert_eq!(unlimited.request_at(t), BudgetDecision::Proceed);
    }
}

#[test]
fn uploaded_file_fills_missing_answers() {
    let meta = LocalFileMetadata {
        path: "/d/a.txt".to_string(),
        name: "a.txt".to_string(),
        size: 12,
        mime_type: "text/plain".to_string(),
        md5_hash: None,
    };
    let f = uploaded_file(None, None, Some("r".to_string()), None, &meta, None);
    assert_eq!(f.file_id, "");
    assert_eq!(f.name, "a.txt");
    assert_eq!(f.size, 12);
    assert_eq!(f.md5_checksum, Some("r".to_string()));
    let g = uploaded_file(
        Some("id1".to_string()),
        Some("b.txt".to_string()),
        Some("r".to_string()),
        Some("link".to_string()),
        &meta,
        Some("local".to_string()),
    );
    assert_eq!(g.file_id, "id1");
    assert_eq!(g.name, "b.txt");
    assert_eq!(g.md5_checksum, Some("local".to_string()));
    assert_eq!(g.web_view_link, Some("link".to_string()));
}
