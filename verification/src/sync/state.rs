//! Persistent synchronisation state: which files were uploaded, and as what.
use crate::text::same_text;
use std::time::{Duration, SystemTime, SystemTimeError, UNIX_EPOCH};
use vstd::prelude::*;

verus! {

/// What is known of one uploaded file.
#[derive(Debug)]
pub struct FileState {
    /// Path relative to the synchronised directory.
    pub relative_path: String,
    /// Identifier of the file on the remote side.
    pub drive_file_id: String,
    /// Size in bytes.
    pub size: u64,
    /// Last modification time (Unix seconds).
    pub modified: i64,
    /// MD5 of the content.
    pub md5_hash: String,
    /// When it was last synchronised (Unix seconds).
    pub last_synced: i64,
}

impl Clone for FileState {
    fn clone(&self) -> (r: Self)
        ensures
            r == *self,
    {
        FileState {
            relative_path: self.relative_path.clone(),
            drive_file_id: self.drive_file_id.clone(),
            size: self.size,
            modified: self.modified,
            md5_hash: self.md5_hash.clone(),
            last_synced: self.last_synced,
        }
    }
}

/// The keys of a list of entries, as texts.
pub open spec fn entry_keys(entries: Seq<(String, FileState)>) -> Seq<Seq<char>> {
    entries.map_values(|e: (String, FileState)| e.0@)
}

/// The map that a list of entries with distinct keys stands for.
pub open spec fn entries_map(entries: Seq<(String, FileState)>) -> Map<Seq<char>, FileState> {
    Map::new(
        |k: Seq<char>| entry_keys(entries).contains(k),
        |k: Seq<char>| entries[entry_keys(entries).index_of(k)].1,
    )
}

/// The map obtained from `m` by inserting the entries of `s` from first to last.
pub open spec fn insert_all(m: Map<Seq<char>, FileState>, s: Seq<(String, FileState)>) -> Map<
    Seq<char>,
    FileState,
>
    decreases s.len(),
{
    if s.len() == 0 {
        m
    } else {
        insert_all(m, s.drop_last()).insert(s.last().0@, s.last().1)
    }
}

/// With distinct keys, the value stored under the key of entry `i` is that entry's value.
pub proof fn lemma_entries_map_at(entries: Seq<(String, FileState)>, i: int)
    requires
        entry_keys(entries).no_duplicates(),
        0 <= i < entries.len(),
    ensures
        entries_map(entries).contains_key(entries[i].0@),
        entries_map(entries)[entries[i].0@] == entries[i].1,
{
    let keys = entry_keys(entries);
    assert(keys[i] == entries[i].0@);
    assert(keys.contains(entries[i].0@));
    let j = keys.index_of(entries[i].0@);
    assert(keys[j] == keys[i]);
}

/// The domain of the map of a list of entries is the set of its keys, and is finite.
pub proof fn lemma_entries_map_dom(entries: Seq<(String, FileState)>)
    ensures
        entries_map(entries).dom() == entry_keys(entries).to_set(),
        entries_map(entries).dom().finite(),
{
    assert(entries_map(entries).dom() =~= entry_keys(entries).to_set());
    entry_keys(entries).lemma_cardinality_of_set();
}

/// Replacing the value of entry `i` (keeping its key) replaces the map's value at that key.
proof fn lemma_entries_map_update(entries: Seq<(String, FileState)>, i: int, key: String, v: FileState)
    requires
        entry_keys(entries).no_duplicates(),
        0 <= i < entries.len(),
        key@ == entries[i].0@,
    ensures
        entry_keys(entries.update(i, (key, v))) == entry_keys(entries),
        entries_map(entries.update(i, (key, v))) == entries_map(entries).insert(key@, v),
{
    let s2 = entries.update(i, (key, v));
    assert(entry_keys(s2) =~= entry_keys(entries));
    let m1 = entries_map(entries).insert(key@, v);
    let m2 = entries_map(s2);
    assert forall|k: Seq<char>| m2.contains_key(k) implies m2[k] == m1[k] by {
        let j = entry_keys(s2).index_of(k);
        assert(entry_keys(s2)[j] == k);
        if j == i {
        } else {
            assert(entry_keys(entries)[i] == key@);
            assert(entry_keys(entries)[j] == k);
            assert(k != key@);
            lemma_entries_map_at(entries, j);
        }
    }
    assert(m2 =~= m1);
}

/// Appending an entry with a new key inserts it in the map.
proof fn lemma_entries_map_push(entries: Seq<(String, FileState)>, key: String, v: FileState)
    requires
        entry_keys(entries).no_duplicates(),
        !entry_keys(entries).contains(key@),
    ensures
        entry_keys(entries.push((key, v))) == entry_keys(entries).push(key@),
        entry_keys(entries.push((key, v))).no_duplicates(),
        entries_map(entries.push((key, v))) == entries_map(entries).insert(key@, v),
{
    let s2 = entries.push((key, v));
    assert(entry_keys(s2) =~= entry_keys(entries).push(key@));
    let m1 = entries_map(entries).insert(key@, v);
    let m2 = entries_map(s2);
    assert forall|k: Seq<char>| m2.contains_key(k) implies m2[k] == m1[k] by {
        let j = entry_keys(s2).index_of(k);
        assert(entry_keys(s2)[j] == k);
        if j == entries.len() {
        } else {
            assert(entry_keys(entries)[j] == k);
            assert(k != key@);
            lemma_entries_map_at(entries, j);
        }
    }
    assert forall|k: Seq<char>| m1.contains_key(k) implies m2.contains_key(k) by {
        if k == key@ {
            assert(entry_keys(s2)[entries.len() as int] == k);
        } else {
            let j = entry_keys(entries).index_of(k);
            assert(entry_keys(s2)[j] == k);
        }
    }
    assert(m2 =~= m1);
}

/// Removing entry `i` removes its key from the map.
proof fn lemma_entries_map_remove(entries: Seq<(String, FileState)>, i: int)
    requires
        entry_keys(entries).no_duplicates(),
        0 <= i < entries.len(),
    ensures
        entry_keys(entries.remove(i)) == entry_keys(entries).remove(i),
        entry_keys(entries.remove(i)).no_duplicates(),
        entries_map(entries.remove(i)) == entries_map(entries).remove(entries[i].0@),
{
    let s2 = entries.remove(i);
    let k0 = entries[i].0@;
    assert(entry_keys(s2) =~= entry_keys(entries).remove(i));
    let m1 = entries_map(entries).remove(k0);
    let m2 = entries_map(s2);
    assert forall|k: Seq<char>| #[trigger] m2.contains_key(k) implies m1.contains_key(k) && m2[k]
        == m1[k] by {
        let j = entry_keys(s2).index_of(k);
        assert(entry_keys(s2)[j] == k);
        let jj = if j < i {
            j
        } else {
            j + 1
        };
        assert(entry_keys(entries)[jj] == k);
        assert(jj != i);
        assert(entry_keys(entries)[i] == k0);
        assert(k != k0);
        lemma_entries_map_at(entries, jj);
        assert(s2[j] == entries[jj]);
        lemma_entries_map_at(s2, j);
    }
    assert forall|k: Seq<char>| #[trigger] m1.contains_key(k) implies m2.contains_key(k) by {
        assert(entries_map(entries).contains_key(k));
        assert(entry_keys(entries).contains(k));
        let j = entry_keys(entries).index_of(k);
        assert(entry_keys(entries)[j] == k);
        assert(entry_keys(entries)[i] == k0);
        assert(j != i);
        let jj = if j < i {
            j
        } else {
            j - 1
        };
        assert(entry_keys(s2)[jj] == k);
        assert(entry_keys(s2).contains(k));
    }
    assert(m2.dom() =~= m1.dom());
    assert(m2 =~= m1);
}

/// Reading after recording: the state recorded under a file's path is the one just
/// recorded, and what is recorded under any other path is unchanged.
pub proof fn law_read_after_update(v: SyncStateView, fs: FileState, other: Seq<char>)
    ensures
        lookup(updated(v, fs), fs.relative_path@) == Some(fs),
        other != fs.relative_path@ ==> lookup(updated(v, fs), other) == lookup(v, other),
{
}

/// Removing after recording gives back what was recorded, and leaves the state as removing
/// alone would: the path is no longer recorded, every other path is as before.
pub proof fn law_remove_after_update(v: SyncStateView, fs: FileState)
    ensures
        lookup(updated(v, fs), fs.relative_path@) == Some(fs),
        removed(updated(v, fs), fs.relative_path@) == removed(v, fs.relative_path@),
        lookup(removed(updated(v, fs), fs.relative_path@), fs.relative_path@) is None,
{
    assert(removed(updated(v, fs), fs.relative_path@).files =~= removed(
        v,
        fs.relative_path@,
    ).files);
}

/// Recording the same file state twice is the same as recording it once.
pub proof fn law_update_idempotent(v: SyncStateView, fs: FileState)
    ensures
        updated(updated(v, fs), fs) == updated(v, fs),
{
    assert(updated(updated(v, fs), fs).files =~= updated(v, fs).files);
}

/// The number of recorded files grows by one when a new path is recorded, and stays the same
/// when a recorded path is recorded again; forgetting a recorded path lowers it by one.
pub proof fn law_count_after_update_and_remove(v: SyncStateView, fs: FileState, path: Seq<char>)
    requires
        v.files.dom().finite(),
    ensures
        updated(v, fs).files.len() == v.files.len() + if v.files.contains_key(fs.relative_path@) {
            0int
        } else {
            1
        },
        removed(v, path).files.len() == v.files.len() - if v.files.contains_key(path) {
            1int
        } else {
            0
        },
{
    if !v.files.contains_key(path) {
        assert(removed(v, path).files =~= v.files);
    }
}

/// Recording or forgetting files leaves the version, the directory, the remote folder and
/// the time of the last complete synchronisation as they were.
pub proof fn law_updates_keep_metadata(v: SyncStateView, fs: FileState, path: Seq<char>)
    ensures
        updated(v, fs).version == v.version && removed(v, path).version == v.version,
        updated(v, fs).local_directory == v.local_directory && removed(v, path).local_directory
            == v.local_directory,
        updated(v, fs).drive_folder_id == v.drive_folder_id && removed(v, path).drive_folder_id
            == v.drive_folder_id,
        updated(v, fs).last_full_sync == v.last_full_sync && removed(v, path).last_full_sync
            == v.last_full_sync,
{
}

/// Looks for the entry whose key is `key`.
fn find_entry(entries: &Vec<(String, FileState)>, key: &str) -> (r: Option<usize>)
    ensures
        match r {
            Some(i) => i < entries@.len() && entries@[i as int].0@ == key@,
            None => !entry_keys(entries@).contains(key@),
        },
{
    let mut i: usize = 0;
    while i < entries.len()
        invariant
            i <= entries@.len(),
            forall|j: int| 0 <= j < i ==> entries@[j].0@ != key@,
        decreases entries@.len() - i,
    {
        if same_text(entries[i].0.as_str(), key) {
            return Some(i);
        }
        i = i + 1;
    }
    assert forall|j: int| 0 <= j < entry_keys(entries@).len() implies entry_keys(entries@)[j]
        != key@ by {
        assert(entry_keys(entries@)[j] == entries@[j].0@);
    }
    None
}

/// Declares `std::time::SystemTime`, a reading of the system clock.
#[verifier::external_type_specification]
#[verifier::external_body]
pub struct ExSystemTime(SystemTime);

/// Declares `std::time::SystemTimeError`, the distance of a time before the epoch.
#[verifier::external_type_specification]
#[verifier::external_body]
pub struct ExSystemTimeError(SystemTimeError);

/// Reads the system clock (`SystemTime::now`). Nothing is stated of the reading.
#[verifier::external_body]
fn system_now() -> SystemTime {
    SystemTime::now()
}

/// Measures a time against the Unix epoch (`SystemTime::duration_since(UNIX_EPOCH)`): the
/// time since the epoch, or an error when the time is before it. It does not panic.
#[verifier::external_body]
fn since_epoch(t: SystemTime) -> std::result::Result<Duration, SystemTimeError> {
    t.duration_since(UNIX_EPOCH)
}

/// The whole seconds of a duration (`Duration::as_secs`).
#[verifier::external_body]
fn whole_seconds(d: Duration) -> u64 {
    d.as_secs()
}

/// How far before the epoch the measured time was (`SystemTimeError::duration`).
#[verifier::external_body]
fn before_epoch(e: &SystemTimeError) -> Duration {
    e.duration()
}

/// A reading of the system clock against the Unix epoch: `Ok` with the whole seconds since
/// the epoch, or `Err` with the whole seconds before it.
fn clock_reading() -> std::result::Result<u64, u64> {
    match since_epoch(system_now()) {
        Ok(d) => Ok(whole_seconds(d)),
        Err(e) => Err(whole_seconds(before_epoch(&e))),
    }
}

/// The Unix time of a clock reading (`Ok` seconds after the epoch, `Err` seconds before it):
/// negative before the epoch, clamped to the range of `i64`.
pub open spec fn unix_seconds(reading: std::result::Result<u64, u64>) -> i64 {
    match reading {
        Ok(s) => if s <= i64::MAX {
            s as i64
        } else {
            i64::MAX
        },
        Err(s) => if s <= i64::MAX {
            (-(s as int)) as i64
        } else {
            i64::MIN
        },
    }
}

/// The Unix time of a clock reading (see `unix_seconds`).
pub fn unix_time_of(reading: std::result::Result<u64, u64>) -> (r: i64)
    ensures
        r == unix_seconds(reading),
{
    match reading {
        Ok(s) => if s <= i64::MAX as u64 {
            s as i64
        } else {
            i64::MAX
        },
        Err(s) => if s <= i64::MAX as u64 {
            -(s as i64)
        } else {
            i64::MIN
        },
    }
}

/// The current Unix time, in seconds, from the system clock.
pub(crate) fn unix_now() -> i64 {
    unix_time_of(clock_reading())
}

/// The state as plain values: the uploaded files keyed by relative path.
pub struct SyncStateView {
    pub version: Seq<char>,
    pub local_directory: Seq<char>,
    pub drive_folder_id: Seq<char>,
    pub last_full_sync: Option<i64>,
    pub files: Map<Seq<char>, FileState>,
}

/// The state after recording `fs` under its relative path.
pub open spec fn updated(v: SyncStateView, fs: FileState) -> SyncStateView {
    SyncStateView { files: v.files.insert(fs.relative_path@, fs), ..v }
}

/// The state after forgetting the file recorded under `path`.
pub open spec fn removed(v: SyncStateView, path: Seq<char>) -> SyncStateView {
    SyncStateView { files: v.files.remove(path), ..v }
}

/// The state recorded under `path`, if any.
pub open spec fn lookup(v: SyncStateView, path: Seq<char>) -> Option<FileState> {
    if v.files.contains_key(path) {
        Some(v.files[path])
    } else {
        None
    }
}

/// The overall synchronisation state.
#[derive(Debug)]
pub struct SyncState {
    version: String,
    local_directory: String,
    drive_folder_id: String,
    last_full_sync: Option<i64>,
    entries: Vec<(String, FileState)>,
}

impl View for SyncState {
    type V = SyncStateView;

    closed spec fn view(&self) -> SyncStateView {
        SyncStateView {
            version: self.version@,
            local_directory: self.local_directory@,
            drive_folder_id: self.drive_folder_id@,
            last_full_sync: self.last_full_sync,
            files: entries_map(self.entries@),
        }
    }
}

impl SyncState {
    #[verifier::type_invariant]
    spec fn keys_distinct(self) -> bool {
        entry_keys(self.entries@).no_duplicates()
    }

    /// The entries in the order in which they are kept.
    pub closed spec fn entry_list(self) -> Seq<(String, FileState)> {
        self.entries@
    }

    /// A new state with no file recorded, in format version "1.0".
    pub fn new(local_directory: String, drive_folder_id: String) -> (r: Self)
        ensures
            r@.version == "1.0"@,
            r@.local_directory == local_directory@,
            r@.drive_folder_id == drive_folder_id@,
            r@.last_full_sync is None,
            r@.files == Map::<Seq<char>, FileState>::empty(),
    {
        let r = SyncState {
            version: String::from_str("1.0"),
            local_directory,
            drive_folder_id,
            last_full_sync: None,
            entries: Vec::new(),
        };
        assert(entries_map(r.entries@) =~= Map::<Seq<char>, FileState>::empty());
        r
    }

    /// A state with the given fields whose files are `files`, inserted from first to last
    /// (a later entry with the same key replaces an earlier one).
    pub fn from_parts(
        version: String,
        local_directory: String,
        drive_folder_id: String,
        last_full_sync: Option<i64>,
        files: Vec<(String, FileState)>,
    ) -> (r: Self)
        ensures
            r@.version == version@,
            r@.local_directory == local_directory@,
            r@.drive_folder_id == drive_folder_id@,
            r@.last_full_sync == last_full_sync,
            r@.files == insert_all(Map::<Seq<char>, FileState>::empty(), files@),
    {
        let mut r = SyncState {
            version,
            local_directory,
            drive_folder_id,
            last_full_sync,
            entries: Vec::new(),
        };
        assert(entries_map(r.entries@) =~= Map::<Seq<char>, FileState>::empty());
        let mut i: usize = 0;
        while i < files.len()
            invariant
                i <= files@.len(),
                r@.version == version@,
                r@.local_directory == local_directory@,
                r@.drive_folder_id == drive_folder_id@,
                r@.last_full_sync == last_full_sync,
                r@.files == insert_all(Map::<Seq<char>, FileState>::empty(), files@.take(i as int)),
            decreases files@.len() - i,
        {
            let key = files[i].0.clone();
            let value = files[i].1.clone();
            r.insert_keyed(key, value);
            assert(files@.take(i + 1).drop_last() =~= files@.take(i as int));
            i = i + 1;
        }
        assert(files@.take(files@.len() as int) =~= files@);
        r
    }

    /// Records `value` under `key`, replacing what was there.
    fn insert_keyed(&mut self, key: String, value: FileState)
        ensures
            final(self)@ == (SyncStateView { files: old(self)@.files.insert(key@, value), ..old(self)@ }),
    {
        proof {
            use_type_invariant(&*self);
        }
        let mut entries: Vec<(String, FileState)> = Vec::new();
        std::mem::swap(&mut entries, &mut self.entries);
        let ghost old_entries = entries@;
        match find_entry(&entries, key.as_str()) {
            Some(i) => {
                proof {
                    lemma_entries_map_update(old_entries, i as int, key, value);
                }
                entries.set(i, (key, value));
            },
            None => {
                proof {
                    lemma_entries_map_push(old_entries, key, value);
                }
                entries.push((key, value));
            },
        }
        self.entries = entries;
    }

    /// Adds the state of a file, or replaces the one recorded under its relative path.
    pub fn update_file(&mut self, file_state: FileState)
        ensures
            final(self)@ == updated(old(self)@, file_state),
    {
        let key = file_state.relative_path.clone();
        self.insert_keyed(key, file_state);
    }

    /// Removes the file recorded under `relative_path`, returning its state if there was one.
    pub fn remove_file(&mut self, relative_path: &str) -> (r: Option<FileState>)
        ensures
            final(self)@ == removed(old(self)@, relative_path@),
            r == lookup(old(self)@, relative_path@),
    {
        proof {
            use_type_invariant(&*self);
        }
        let mut entries: Vec<(String, FileState)> = Vec::new();
        std::mem::swap(&mut entries, &mut self.entries);
        let ghost old_entries = entries@;
        let r = match find_entry(&entries, relative_path) {
            Some(i) => {
                proof {
                    lemma_entries_map_at(old_entries, i as int);
                    lemma_entries_map_remove(old_entries, i as int);
                }
                let (_, state) = entries.remove(i);
                Some(state)
            },
            None => {
                assert(entries_map(old_entries).remove(relative_path@) =~= entries_map(
                    old_entries,
                ));
                None
            },
        };
        self.entries = entries;
        r
    }

    /// The state recorded under `relative_path`, if any.
    pub fn get_file(&self, relative_path: &str) -> (r: Option<&FileState>)
        ensures
            match r {
                Some(f) => lookup(self@, relative_path@) == Some(*f),
                None => lookup(self@, relative_path@) is None,
            },
    {
        proof {
            use_type_invariant(self);
        }
        match find_entry(&self.entries, relative_path) {
            Some(i) => {
                proof {
                    lemma_entries_map_at(self.entries@, i as int);
                }
                Some(&self.entries[i].1)
            },
            None => None,
        }
    }

    /// Whether a file is recorded under `relative_path`.
    pub fn is_synced(&self, relative_path: &str) -> (r: bool)
        ensures
            r == lookup(self@, relative_path@) is Some,
    {
        match find_entry(&self.entries, relative_path) {
            Some(i) => {
                proof {
                    use_type_invariant(self);
                    lemma_entries_map_at(self.entries@, i as int);
                }
                true
            },
            None => false,
        }
    }

    /// Records `timestamp` as the time of the last complete synchronisation.
    pub fn mark_full_sync_at(&mut self, timestamp: i64)
        ensures
            final(self)@ == (SyncStateView { last_full_sync: Some(timestamp), ..old(self)@ }),
    {
        proof {
            use_type_invariant(&*self);
        }
        self.last_full_sync = Some(timestamp);
    }

    /// Records the current time as the time of the last complete synchronisation.
    pub fn mark_full_sync(&mut self)
        ensures
            final(self)@.last_full_sync is Some,
            final(self)@.files == old(self)@.files,
            final(self)@.version == old(self)@.version,
            final(self)@.local_directory == old(self)@.local_directory,
            final(self)@.drive_folder_id == old(self)@.drive_folder_id,
    {
        let now = unix_now();
        self.mark_full_sync_at(now);
    }

    /// The number of files recorded.
    pub fn file_count(&self) -> (r: usize)
        ensures
            r == self@.files.len(),
            self@.files.dom().finite(),
    {
        proof {
            use_type_invariant(self);
            lemma_entries_map_dom(self.entries@);
            entry_keys(self.entries@).unique_seq_to_set();
        }
        self.entries.len()
    }

    /// The format version of the state.
    pub fn version(&self) -> (r: &String)
        ensures
            r@ == self@.version,
    {
        &self.version
    }

    /// The local directory that is synchronised.
    pub fn local_directory(&self) -> (r: &String)
        ensures
            r@ == self@.local_directory,
    {
        &self.local_directory
    }

    /// The identifier of the remote root folder.
    pub fn drive_folder_id(&self) -> (r: &String)
        ensures
            r@ == self@.drive_folder_id,
    {
        &self.drive_folder_id
    }

    /// The time of the last complete synchronisation, if any.
    pub fn last_full_sync(&self) -> (r: Option<i64>)
        ensures
            r == self@.last_full_sync,
    {
        self.last_full_sync
    }

    /// The recorded files with their keys, in the order in which they are kept; the keys
    /// are distinct and the list stands for the map of files.
    pub fn files(&self) -> (r: &Vec<(String, FileState)>)
        ensures
            r@ == self.entry_list(),
            entry_keys(r@).no_duplicates(),
            entries_map(r@) == self@.files,
    {
        proof {
            use_type_invariant(self);
        }
        &self.entries
    }
}

/// A state together with the file it is kept in.
#[derive(Debug)]
pub struct SyncStateManager {
    state_file_path: String,
    state: SyncState,
}

impl SyncStateManager {
    /// The path of the state file.
    pub closed spec fn path(self) -> Seq<char> {
        self.state_file_path@
    }

    /// The state held.
    pub closed spec fn held(self) -> SyncStateView {
        self.state@
    }

    /// A manager of a new, empty state kept in `state_file_path`.
    pub fn new(state_file_path: String, local_directory: String, drive_folder_id: String) -> (r:
        Self)
        ensures
            r.path() == state_file_path@,
            r.held().version == "1.0"@,
            r.held().local_directory == local_directory@,
            r.held().drive_folder_id == drive_folder_id@,
            r.held().last_full_sync is None,
            r.held().files == Map::<Seq<char>, FileState>::empty(),
    {
        SyncStateManager { state_file_path, state: SyncState::new(local_directory, drive_folder_id) }
    }

    /// A manager of `state`, read from `state_file_path`.
    pub fn with_state(state_file_path: String, state: SyncState) -> (r: Self)
        ensures
            r.path() == state_file_path@,
            r.held() == state@,
    {
        SyncStateManager { state_file_path, state }
    }

    /// The path of the state file.
    pub fn state_file_path(&self) -> (r: &String)
        ensures
            r@ == self.path(),
    {
        &self.state_file_path
    }

    /// The state.
    pub fn state(&self) -> (r: &SyncState)
        ensures
            r@ == self.held(),
    {
        &self.state
    }

    /// The state, for changes.
    pub fn state_mut(&mut self) -> (r: &mut SyncState)
        ensures
            r@ == old(self).held(),
            final(self).held() == final(r)@,
            final(self).path() == old(self).path(),
    {
        &mut self.state
    }
}

} // verus!
