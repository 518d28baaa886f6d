//! The sections of the configuration file and their default values.
use vstd::prelude::*;

verus! {

/// Logging settings.
#[derive(Debug)]
pub struct GeneralConfig {
    pub log_level: String,
    pub log_file: Option<String>,
    pub log_format: String,
}

/// The local directory to synchronise.
#[derive(Debug)]
pub struct SourceConfig {
    pub path: String,
    pub recursive: bool,
    pub ignore_hidden: bool,
    pub follow_symlinks: bool,
    pub ignore_patterns: Vec<String>,
}

/// Access to the remote drive.
#[derive(Debug)]
pub struct GoogleDriveConfig {
    pub credentials_file: String,
    pub token_file: String,
    pub target_folder_id: Option<String>,
    pub target_folder_name: Option<String>,
    pub scopes: Vec<String>,
}

/// How synchronisation runs.
#[derive(Debug)]
pub struct SyncConfig {
    pub mode: String,
    pub interval_seconds: u64,
    pub conflict_resolution: String,
    pub max_file_size_mb: u64,
    pub chunk_size_mb: u64,
    pub max_concurrent_uploads: usize,
    pub verify_upload: bool,
    pub preserve_folder_structure: bool,
    pub delete_remote_on_local_delete: bool,
}

/// Notifications after a run.
#[derive(Debug)]
pub struct NotificationsConfig {
    pub enabled: bool,
    pub on_complete: bool,
    pub on_error: bool,
    pub notification_type: String,
    pub webhook_url: Option<String>,
}

/// Where and how often the state is kept.
#[derive(Debug)]
pub struct StateConfig {
    pub state_file: String,
    pub save_interval: u64,
    pub cleanup_after_days: u64,
}

/// Default log level: "info".
pub fn default_log_level() -> (r: String)
    ensures
        r@ == "info"@,
{
    String::from_str("info")
}

/// Default log format: "text".
pub fn default_log_format() -> (r: String)
    ensures
        r@ == "text"@,
{
    String::from_str("text")
}

/// Default for the flags that are on unless said otherwise.
pub fn default_true() -> (r: bool)
    ensures
        r,
{
    true
}

/// Default synchronisation mode: "once".
pub fn default_sync_mode() -> (r: String)
    ensures
        r@ == "once"@,
{
    String::from_str("once")
}

/// Default interval between runs: 300 seconds.
pub fn default_interval() -> (r: u64)
    ensures
        r == 300,
{
    300
}

/// Default conflict resolution: "overwrite".
pub fn default_conflict_resolution() -> (r: String)
    ensures
        r@ == "overwrite"@,
{
    String::from_str("overwrite")
}

/// Default size limit: 100 MB.
pub fn default_max_file_size() -> (r: u64)
    ensures
        r == 100,
{
    100
}

/// Default upload chunk: 5 MB.
pub fn default_chunk_size() -> (r: u64)
    ensures
        r == 5,
{
    5
}

/// Default number of simultaneous uploads: 4.
pub fn default_max_concurrent() -> (r: usize)
    ensures
        r == 4,
{
    4
}

/// Default access scope: files created by the application.
pub fn default_scopes() -> (r: Vec<String>)
    ensures
        r@.len() == 1,
        r@[0]@ == "https://www.googleapis.com/auth/drive.file"@,
{
    let mut v: Vec<String> = Vec::new();
    v.push(String::from_str("https://www.googleapis.com/auth/drive.file"));
    v
}

/// Default number of attempts: 3.
pub fn default_max_attempts() -> (r: u32)
    ensures
        r == 3,
{
    3
}

/// Default initial delay between attempts: 1 second.
pub fn default_initial_delay() -> (r: u64)
    ensures
        r == 1,
{
    1
}

/// Default upper bound on the delay between attempts: 60 seconds.
pub fn default_max_delay() -> (r: u64)
    ensures
        r == 60,
{
    60
}

/// Default notification channel: "desktop".
pub fn default_notification_type() -> (r: String)
    ensures
        r@ == "desktop"@,
{
    String::from_str("desktop")
}

/// Default state file: "./state.json".
pub fn default_state_file() -> (r: String)
    ensures
        r@ == "./state.json"@,
{
    String::from_str("./state.json")
}

/// Default number of changes between saves: 10.
pub fn default_save_interval() -> (r: u64)
    ensures
        r == 10,
{
    10
}

/// Default age after which old entries are cleaned: 30 days.
pub fn default_cleanup_days() -> (r: u64)
    ensures
        r == 30,
{
    30
}

impl Default for NotificationsConfig {
    /// Notifications off; on completion and on error once enabled; desktop; no webhook.
    fn default() -> (r: Self)
        ensures
            !r.enabled,
            r.on_complete,
            r.on_error,
            r.notification_type@ == "desktop"@,
            r.webhook_url is None,
    {
        NotificationsConfig {
            enabled: false,
            on_complete: true,
            on_error: true,
            notification_type: default_notification_type(),
            webhook_url: None,
        }
    }
}

impl Default for StateConfig {
    /// "./state.json", saved every 10 changes, cleaned after 30 days.
    fn default() -> (r: Self)
        ensures
            r.state_file@ == "./state.json"@,
            r.save_interval == 10,
            r.cleanup_after_days == 30,
    {
        StateConfig {
            state_file: default_state_file(),
            save_interval: default_save_interval(),
            cleanup_after_days: default_cleanup_days(),
        }
    }
}

} // verus!
