//! The decisions of a synchronisation run: what to upload, what to record, what to count.
use crate::error::{Result, RustDriveSyncError};
use crate::sync::scanner::{clone_opt_string, FileScanner, LocalFile, too_large};
use crate::sync::state::{unix_now, FileState, SyncState};
use crate::sync::tracker::{
    change_of, detected, differs_from, upload_needed, ChangeTracker, ChangeType, FileChange,
};
use crate::text::texts;
use crate::watcher::FileEvent;
use vstd::prelude::*;

verus! {

/// How a run proceeds.
#[derive(Debug, PartialEq, Eq, Structural)]
pub enum SyncMode {
    /// One synchronisation, then stop.
    Once,
    /// Synchronise, then keep watching for changes.
    Watch,
}

impl Clone for SyncMode {
    fn clone(&self) -> (r: Self)
        ensures
            r == *self,
    {
        match self {
            SyncMode::Once => SyncMode::Once,
            SyncMode::Watch => SyncMode::Watch,
        }
    }
}

/// The counts of a run.
#[derive(Debug)]
pub struct SyncStats {
    /// Files found by the scan.
    pub files_scanned: usize,
    /// New files uploaded.
    pub files_uploaded: usize,
    /// Modified files uploaded again.
    pub files_updated: usize,
    /// Files that could not be synchronised.
    pub files_failed: usize,
    /// Bytes uploaded.
    pub bytes_uploaded: u64,
}

impl Default for SyncStats {
    /// All counts zero.
    fn default() -> (r: Self)
        ensures
            r.files_scanned == 0,
            r.files_uploaded == 0,
            r.files_updated == 0,
            r.files_failed == 0,
            r.bytes_uploaded == 0,
    {
        SyncStats {
            files_scanned: 0,
            files_uploaded: 0,
            files_updated: 0,
            files_failed: 0,
            bytes_uploaded: 0,
        }
    }
}

impl Clone for SyncStats {
    fn clone(&self) -> (r: Self)
        ensures
            r == *self,
    {
        SyncStats { ..*self }
    }
}

impl SyncStats {
    /// Counts an upload of `size` bytes, of a new file or of a modified one.
    pub fn record_upload(&mut self, size: u64, is_new: bool)
        requires
            old(self).files_uploaded < usize::MAX,
            old(self).files_updated < usize::MAX,
            old(self).bytes_uploaded + size <= u64::MAX,
        ensures
            final(self).files_uploaded == old(self).files_uploaded + if is_new {
                1int
            } else {
                0
            },
            final(self).files_updated == old(self).files_updated + if is_new {
                0int
            } else {
                1
            },
            final(self).bytes_uploaded == old(self).bytes_uploaded + size,
            final(self).files_failed == old(self).files_failed,
            final(self).files_scanned == old(self).files_scanned,
    {
        if is_new {
            self.files_uploaded = self.files_uploaded + 1;
        } else {
            self.files_updated = self.files_updated + 1;
        }
        self.bytes_uploaded = self.bytes_uploaded + size;
    }

    /// Counts a failure.
    pub fn record_failure(&mut self)
        requires
            old(self).files_failed < usize::MAX,
        ensures
            final(self).files_failed == old(self).files_failed + 1,
            final(self).files_uploaded == old(self).files_uploaded,
            final(self).files_updated == old(self).files_updated,
            final(self).bytes_uploaded == old(self).bytes_uploaded,
            final(self).files_scanned == old(self).files_scanned,
    {
        self.files_failed = self.files_failed + 1;
    }

    /// Counts the outcome of one upload, once: an upload of `size` bytes of a new or a
    /// modified file, or a failure.
    pub fn record_outcome(&mut self, outcome: &TaskOutcome)
        requires
            *outcome matches TaskOutcome::Uploaded { size, is_new } ==> old(self).bytes_uploaded
                + size <= u64::MAX && (is_new ==> old(self).files_uploaded < usize::MAX) && (
            !is_new ==> old(self).files_updated < usize::MAX),
            !(*outcome is Uploaded) ==> old(self).files_failed < usize::MAX,
        ensures
            final(self).files_scanned == old(self).files_scanned,
            final(self).files_uploaded == old(self).files_uploaded + count_uploads(
                seq![*outcome],
                true,
            ),
            final(self).files_updated == old(self).files_updated + count_uploads(
                seq![*outcome],
                false,
            ),
            final(self).files_failed == old(self).files_failed + count_failures(seq![*outcome]),
            final(self).bytes_uploaded == old(self).bytes_uploaded + uploaded_bytes(
                seq![*outcome],
            ),
    {
        proof {
            let one = seq![*outcome];
            assert(one.drop_last() =~= Seq::<TaskOutcome>::empty());
            assert(one.last() == *outcome);
            assert(count_uploads(one.drop_last(), true) == 0);
            assert(count_uploads(one.drop_last(), false) == 0);
            assert(count_failures(one.drop_last()) == 0);
            assert(uploaded_bytes(one.drop_last()) == 0);
        }
        match outcome {
            TaskOutcome::Uploaded { size, is_new } => {
                if *is_new {
                    self.files_uploaded = self.files_uploaded + 1;
                } else {
                    self.files_updated = self.files_updated + 1;
                }
                self.bytes_uploaded = self.bytes_uploaded + *size;
            },
            _ => self.record_failure(),
        }
    }

    /// Whether the run had no failure (the state then records a complete synchronisation).
    pub fn all_succeeded(&self) -> (r: bool)
        ensures
            r == (self.files_failed == 0),
    {
        self.files_failed == 0
    }

    /// The counts of a run that scanned `files_scanned` files and whose uploads counted
    /// `uploads`.
    pub fn of_run(files_scanned: usize, uploads: &SyncStats) -> (r: Self)
        ensures
            r == (SyncStats { files_scanned, ..*uploads }),
    {
        SyncStats { files_scanned, ..*uploads }
    }
}

/// How the upload of one file ended.
#[derive(Debug)]
pub enum TaskOutcome {
    /// The file (new or modified) was uploaded; `size` bytes were counted.
    Uploaded { size: u64, is_new: bool },
    /// The upload failed.
    Failed,
    /// The task that ran the upload did not complete.
    Panicked,
}

/// The number of uploads of new files (`new`) or of modified files (`!new`) in `o`.
pub open spec fn count_uploads(o: Seq<TaskOutcome>, new: bool) -> nat
    decreases o.len(),
{
    if o.len() == 0 {
        0
    } else {
        count_uploads(o.drop_last(), new) + match o.last() {
            TaskOutcome::Uploaded { is_new, .. } => if is_new == new {
                1nat
            } else {
                0
            },
            _ => 0,
        }
    }
}

/// The number of failed or unfinished uploads in `o`.
pub open spec fn count_failures(o: Seq<TaskOutcome>) -> nat
    decreases o.len(),
{
    if o.len() == 0 {
        0
    } else {
        count_failures(o.drop_last()) + match o.last() {
            TaskOutcome::Uploaded { .. } => 0nat,
            _ => 1,
        }
    }
}

/// The bytes of the uploads in `o`, summed modulo 2^64.
pub open spec fn uploaded_bytes(o: Seq<TaskOutcome>) -> u64
    decreases o.len(),
{
    if o.len() == 0 {
        0
    } else {
        match o.last() {
            TaskOutcome::Uploaded { size, .. } => vstd::wrapping::u64_specs::wrapping_add(
                uploaded_bytes(o.drop_last()),
                size,
            ),
            _ => uploaded_bytes(o.drop_last()),
        }
    }
}

/// The counts of a set of uploads: new and modified files uploaded, failures (including
/// unfinished tasks), and the bytes uploaded summed modulo 2^64; nothing scanned.
pub fn tally(outcomes: &Vec<TaskOutcome>) -> (r: SyncStats)
    ensures
        r.files_scanned == 0,
        r.files_uploaded == count_uploads(outcomes@, true),
        r.files_updated == count_uploads(outcomes@, false),
        r.files_failed == count_failures(outcomes@),
        r.bytes_uploaded == uploaded_bytes(outcomes@),
{
    let mut stats = SyncStats::default();
    let mut i: usize = 0;
    while i < outcomes.len()
        invariant
            i <= outcomes@.len(),
            stats.files_scanned == 0,
            stats.files_uploaded == count_uploads(outcomes@.take(i as int), true),
            stats.files_updated == count_uploads(outcomes@.take(i as int), false),
            stats.files_failed == count_failures(outcomes@.take(i as int)),
            stats.bytes_uploaded == uploaded_bytes(outcomes@.take(i as int)),
            stats.files_uploaded + stats.files_updated + stats.files_failed <= i,
        decreases outcomes@.len() - i,
    {
        assert(outcomes@.take(i + 1).drop_last() =~= outcomes@.take(i as int));
        assert(outcomes@.take(i + 1).last() == outcomes@[i as int]);
        match &outcomes[i] {
            TaskOutcome::Uploaded { size, is_new } => {
                if *is_new {
                    stats.files_uploaded = stats.files_uploaded + 1;
                } else {
                    stats.files_updated = stats.files_updated + 1;
                }
                stats.bytes_uploaded = stats.bytes_uploaded.wrapping_add(*size);
            },
            _ => {
                stats.files_failed = stats.files_failed + 1;
            },
        }
        i = i + 1;
    }
    assert(outcomes@.take(outcomes@.len() as int) =~= outcomes@);
    stats
}

/// Every upload is counted once: the new and modified files uploaded and the failures add up
/// to the number of uploads attempted.
pub proof fn law_tally_counts_every_upload(outcomes: Seq<TaskOutcome>)
    ensures
        count_uploads(outcomes, true) + count_uploads(outcomes, false) + count_failures(outcomes)
            == outcomes.len(),
    decreases outcomes.len(),
{
    if outcomes.len() > 0 {
        law_tally_counts_every_upload(outcomes.drop_last());
    }
}

/// The size limit of a scan, in bytes, for a configured limit in MB: none when it is zero.
pub open spec fn size_limit_bytes(max_file_size_mb: u64) -> Option<u64> {
    if max_file_size_mb > 0 {
        Some((max_file_size_mb * 1048576) as u64)
    } else {
        None
    }
}

/// The scanner of a run: the configured ignore patterns, and the configured size limit
/// (a limit of 0 MB means no limit, which the scanner holds as `u64::MAX` bytes).
pub fn scanner_for(ignore_patterns: Vec<String>, max_file_size_mb: u64) -> (r: FileScanner)
    requires
        max_file_size_mb * 1048576 <= u64::MAX,
    ensures
        r@.ignore_patterns == texts(ignore_patterns@),
        r@.max_file_size == Some(
            match size_limit_bytes(max_file_size_mb) {
                Some(b) => b,
                None => u64::MAX,
            },
        ),
{
    let limit = if max_file_size_mb > 0 {
        max_file_size_mb * 1048576
    } else {
        u64::MAX
    };
    FileScanner::new().with_ignore_patterns(ignore_patterns).with_max_file_size(limit)
}

/// The name of the remote root folder: the configured one, or "RustDriveSync".
pub fn target_folder_name(configured: &Option<String>) -> (r: String)
    ensures
        r@ == match *configured {
            Some(n) => n@,
            None => "RustDriveSync"@,
        },
{
    match configured {
        Some(n) => n.clone(),
        None => String::from_str("RustDriveSync"),
    }
}

/// The changes that a run uploads: the new and modified files among the local files.
pub fn plan_uploads(local_files: &[LocalFile], sync_state: &SyncState) -> (r: Vec<FileChange>)
    ensures
        r@ == upload_needed(detected(local_files@, sync_state@.files, sync_state.entry_list())),
{
    let changes = ChangeTracker::detect_changes(local_files, sync_state);
    ChangeTracker::filter_sync_needed(changes)
}

/// What is done for one change.
#[derive(Debug)]
pub enum UploadStep {
    /// A dry run: nothing is sent, the file's size is counted.
    Simulate { size: u64 },
    /// The file at `path` is uploaded.
    Upload { path: String, size: u64 },
}

/// The step for a change: an error when the change has no local file, a simulation in a
/// dry run, an upload otherwise.
pub fn upload_step(change: &FileChange, dry_run: bool) -> (r: Result<UploadStep>)
    ensures
        match change.local_file {
            None => r matches Err(RustDriveSyncError::DriveApiError { message }) && message@
                == "Arquivo local não disponível"@,
            Some(f) => if dry_run {
                r == Ok::<UploadStep, RustDriveSyncError>(UploadStep::Simulate { size: f.size })
            } else {
                r == Ok::<UploadStep, RustDriveSyncError>(
                    UploadStep::Upload { path: f.path, size: f.size },
                )
            },
        },
{
    match &change.local_file {
        None => Err(
            RustDriveSyncError::DriveApiError {
                message: String::from_str("Arquivo local não disponível"),
            },
        ),
        Some(f) => {
            if dry_run {
                Ok(UploadStep::Simulate { size: f.size })
            } else {
                Ok(UploadStep::Upload { path: f.path.clone(), size: f.size })
            }
        },
    }
}

/// The recorded hash when no MD5 was reported: "unknown".
fn unknown_hash() -> (r: String)
    ensures
        r@ == "unknown"@,
{
    String::from_str("unknown")
}

/// The state recorded for `local_file` after an upload, synchronised at `now`.
pub fn file_state_at(
    local_file: &LocalFile,
    drive_file_id: String,
    size: u64,
    md5: Option<String>,
    now: i64,
) -> (r: FileState)
    ensures
        r.relative_path == local_file.relative_path,
        r.drive_file_id == drive_file_id,
        r.size == size,
        r.modified == local_file.modified,
        r.md5_hash@ == match md5 {
            Some(h) => h@,
            None => "unknown"@,
        },
        r.last_synced == now,
{
    let md5_hash = match md5 {
        Some(h) => h,
        None => unknown_hash(),
    };
    FileState {
        relative_path: local_file.relative_path.clone(),
        drive_file_id,
        size,
        modified: local_file.modified,
        md5_hash,
        last_synced: now,
    }
}

/// The state recorded for `local_file` after an upload, synchronised now.
pub fn create_file_state(
    local_file: &LocalFile,
    drive_file_id: String,
    size: u64,
    md5: Option<String>,
) -> (r: FileState)
    ensures
        r.relative_path == local_file.relative_path,
        r.drive_file_id == drive_file_id,
        r.size == size,
        r.modified == local_file.modified,
        r.md5_hash@ == match md5 {
            Some(h) => h@,
            None => "unknown"@,
        },
{
    let now = unix_now();
    file_state_at(local_file, drive_file_id, size, md5, now)
}

/// The change for a file reported by the watcher: none when it is over the size limit,
/// otherwise a new file when nothing is recorded under its path and a modified file
/// (with the recorded state) when something is.
pub open spec fn event_change(
    local_file: LocalFile,
    max_file_size: Option<u64>,
    files: Map<Seq<char>, FileState>,
) -> Option<FileChange> {
    if too_large(local_file.size, max_file_size) {
        None
    } else if !files.contains_key(local_file.relative_path@) {
        Some(
            FileChange {
                relative_path: local_file.relative_path,
                change_type: ChangeType::New,
                local_file: Some(local_file),
                previous_state: None,
            },
        )
    } else {
        Some(
            FileChange {
                relative_path: local_file.relative_path,
                change_type: ChangeType::Modified,
                local_file: Some(local_file),
                previous_state: Some(files[local_file.relative_path@]),
            },
        )
    }
}

/// The change to synchronise for a file reported by the watcher (see `event_change`).
pub fn change_for_event(
    local_file: LocalFile,
    max_file_size: Option<u64>,
    sync_state: &SyncState,
) -> (r: Option<FileChange>)
    ensures
        r == event_change(local_file, max_file_size, sync_state@.files),
        max_file_size matches Some(m) && local_file.size > m ==> r is None,
{
    let over = match max_file_size {
        Some(max) => local_file.size > max,
        None => false,
    };
    if over {
        return None;
    }
    match sync_state.get_file(local_file.relative_path.as_str()) {
        None => Some(FileChange::new(local_file)),
        Some(previous) => {
            let previous = previous.clone();
            Some(FileChange::modified(local_file, previous))
        },
    }
}

/// A watched file over a set size limit is never synchronised, whether or not something is
/// recorded under its path. A file within the limit (or with no limit) gives a new file when
/// nothing is recorded under its path, and otherwise a modified file that carries the
/// recorded state.
pub proof fn law_oversized_event_is_skipped(
    local_file: LocalFile,
    max_file_size: Option<u64>,
    files: Map<Seq<char>, FileState>,
)
    ensures
        max_file_size matches Some(m) && local_file.size > m ==> event_change(
            local_file,
            max_file_size,
            files,
        ) is None,
        !(max_file_size matches Some(m) && local_file.size > m) ==> ({
            &&& event_change(local_file, max_file_size, files) is Some
            &&& event_change(local_file, max_file_size, files)->0.local_file == Some(local_file)
            &&& event_change(local_file, max_file_size, files)->0.relative_path
                == local_file.relative_path
            &&& !files.contains_key(local_file.relative_path@) ==> event_change(
                local_file,
                max_file_size,
                files,
            )->0.change_type == ChangeType::New && event_change(
                local_file,
                max_file_size,
                files,
            )->0.previous_state is None
            &&& files.contains_key(local_file.relative_path@) ==> event_change(
                local_file,
                max_file_size,
                files,
            )->0.change_type == ChangeType::Modified && event_change(
                local_file,
                max_file_size,
                files,
            )->0.previous_state == Some(files[local_file.relative_path@])
        }),
{
}

/// What the watch loop does next.
#[derive(Debug)]
pub enum WatchAction {
    /// Shutdown was requested: leave the loop.
    Stop,
    /// No event arrived in time: wait again.
    Wait,
    /// The event needs no upload.
    Ignore(FileEvent),
    /// The event's file is to be synchronised.
    Sync(FileEvent),
}

/// The next step of the watch loop, given whether shutdown was requested and the event
/// that arrived, if any.
pub fn next_watch_action(shutdown_requested: bool, event: Option<FileEvent>) -> (r: WatchAction)
    ensures
        shutdown_requested ==> r is Stop,
        !shutdown_requested ==> match event {
            None => r is Wait,
            Some(e) => if e.event_type is Created || e.event_type is Modified {
                r == WatchAction::Sync(e)
            } else {
                r == WatchAction::Ignore(e)
            },
        },
{
    if shutdown_requested {
        return WatchAction::Stop;
    }
    match event {
        None => WatchAction::Wait,
        Some(e) => {
            if e.needs_sync() {
                WatchAction::Sync(e)
            } else {
                WatchAction::Ignore(e)
            }
        },
    }
}

/// A file recorded after its upload, and unchanged since, needs no new upload: when the
/// state holds, under the file's path, the state recorded for it with its own size, and
/// its hash is unknown or equal to the recorded one, the file is found unchanged.
pub proof fn law_recorded_file_is_unchanged(
    local_file: LocalFile,
    files: Map<Seq<char>, FileState>,
    recorded: FileState,
)
    requires
        files.contains_key(local_file.relative_path@),
        files[local_file.relative_path@] == recorded,
        recorded.size == local_file.size,
        recorded.modified == local_file.modified,
        local_file.md5_hash matches Some(h) ==> h@ == recorded.md5_hash@,
    ensures
        change_of(local_file, files).change_type == ChangeType::Unchanged,
        !differs_from(local_file, recorded),
{
}

} // verus!
