//! Change detection: compares the files found locally with the recorded state.
use crate::sync::scanner::{clone_opt_string, LocalFile};
use crate::sync::state::{
    entries_map, entry_keys, lemma_entries_map_at, lemma_entries_map_dom, FileState, SyncState,
};
use crate::text::{list_contains, texts};
use vstd::prelude::*;

verus! {

/// The kind of change found for a file.
#[derive(Debug, PartialEq, Eq, Structural)]
pub enum ChangeType {
    /// Never synchronised.
    New,
    /// Size, modification time or hash differ from the recorded state.
    Modified,
    /// Recorded, but no longer present locally.
    Deleted,
    /// Present and matching the recorded state.
    Unchanged,
}

/// A change found for one file.
#[derive(Debug)]
pub struct FileChange {
    /// Path relative to the synchronised directory.
    pub relative_path: String,
    /// The kind of change.
    pub change_type: ChangeType,
    /// The local file (`None` for a deleted file).
    pub local_file: Option<LocalFile>,
    /// The recorded state (`None` for a new file).
    pub previous_state: Option<FileState>,
}

/// A copy of an optional file state.
fn clone_opt_state(s: &Option<FileState>) -> (r: Option<FileState>)
    ensures
        r == *s,
{
    match s {
        Some(t) => Some(t.clone()),
        None => None,
    }
}

/// A copy of an optional local file.
fn clone_opt_local(s: &Option<LocalFile>) -> (r: Option<LocalFile>)
    ensures
        r == *s,
{
    match s {
        Some(t) => Some(t.clone()),
        None => None,
    }
}

impl Clone for ChangeType {
    fn clone(&self) -> (r: Self)
        ensures
            r == *self,
    {
        match self {
            ChangeType::New => ChangeType::New,
            ChangeType::Modified => ChangeType::Modified,
            ChangeType::Deleted => ChangeType::Deleted,
            ChangeType::Unchanged => ChangeType::Unchanged,
        }
    }
}

impl Clone for FileChange {
    fn clone(&self) -> (r: Self)
        ensures
            r == *self,
    {
        FileChange {
            relative_path: self.relative_path.clone(),
            change_type: self.change_type.clone(),
            local_file: clone_opt_local(&self.local_file),
            previous_state: clone_opt_state(&self.previous_state),
        }
    }
}

impl FileChange {
    /// The change of a file that was never synchronised.
    pub fn new(local_file: LocalFile) -> (r: Self)
        ensures
            r == (FileChange {
                relative_path: local_file.relative_path,
                change_type: ChangeType::New,
                local_file: Some(local_file),
                previous_state: None,
            }),
    {
        FileChange {
            relative_path: local_file.relative_path.clone(),
            change_type: ChangeType::New,
            local_file: Some(local_file),
            previous_state: None,
        }
    }

    /// The change of a file that differs from its recorded state.
    pub fn modified(local_file: LocalFile, previous_state: FileState) -> (r: Self)
        ensures
            r == (FileChange {
                relative_path: local_file.relative_path,
                change_type: ChangeType::Modified,
                local_file: Some(local_file),
                previous_state: Some(previous_state),
            }),
    {
        FileChange {
            relative_path: local_file.relative_path.clone(),
            change_type: ChangeType::Modified,
            local_file: Some(local_file),
            previous_state: Some(previous_state),
        }
    }

    /// The change of a recorded file that is no longer present locally.
    pub fn deleted(relative_path: String, previous_state: FileState) -> (r: Self)
        ensures
            r == (FileChange {
                relative_path: relative_path,
                change_type: ChangeType::Deleted,
                local_file: None,
                previous_state: Some(previous_state),
            }),
    {
        FileChange {
            relative_path,
            change_type: ChangeType::Deleted,
            local_file: None,
            previous_state: Some(previous_state),
        }
    }

    /// The change of a file that matches its recorded state.
    pub fn unchanged(local_file: LocalFile, previous_state: FileState) -> (r: Self)
        ensures
            r == (FileChange {
                relative_path: local_file.relative_path,
                change_type: ChangeType::Unchanged,
                local_file: Some(local_file),
                previous_state: Some(previous_state),
            }),
    {
        FileChange {
            relative_path: local_file.relative_path.clone(),
            change_type: ChangeType::Unchanged,
            local_file: Some(local_file),
            previous_state: Some(previous_state),
        }
    }
}

/// A local file differs from its recorded state when the size or the modification time
/// differ, or when its hash is known and differs from the recorded one.
pub open spec fn differs_from(f: LocalFile, prev: FileState) -> bool {
    ||| f.size != prev.size
    ||| f.modified != prev.modified
    ||| (f.md5_hash matches Some(h) && h@ != prev.md5_hash@)
}

/// The change found for the local file `f` against the recorded files.
pub open spec fn change_of(f: LocalFile, files: Map<Seq<char>, FileState>) -> FileChange {
    if files.contains_key(f.relative_path@) {
        let prev = files[f.relative_path@];
        FileChange {
            relative_path: f.relative_path,
            change_type: if differs_from(f, prev) {
                ChangeType::Modified
            } else {
                ChangeType::Unchanged
            },
            local_file: Some(f),
            previous_state: Some(prev),
        }
    } else {
        FileChange {
            relative_path: f.relative_path,
            change_type: ChangeType::New,
            local_file: Some(f),
            previous_state: None,
        }
    }
}

/// The relative paths of the local files, as texts.
pub open spec fn local_paths(local: Seq<LocalFile>) -> Seq<Seq<char>> {
    local.map_values(|f: LocalFile| f.relative_path@)
}

/// The changes of the local files, one per file, in order.
pub open spec fn local_changes(local: Seq<LocalFile>, files: Map<Seq<char>, FileState>) -> Seq<
    FileChange,
> {
    local.map_values(|f: LocalFile| change_of(f, files))
}

/// The deletion of a recorded entry.
pub open spec fn deletion_of(e: (String, FileState)) -> FileChange {
    FileChange {
        relative_path: e.0,
        change_type: ChangeType::Deleted,
        local_file: None,
        previous_state: Some(e.1),
    }
}

/// The deletions: one per recorded entry whose path is not among `present`, in entry order.
pub open spec fn deleted_changes(
    entries: Seq<(String, FileState)>,
    present: Seq<Seq<char>>,
) -> Seq<FileChange>
    decreases entries.len(),
{
    if entries.len() == 0 {
        seq![]
    } else {
        let rest = deleted_changes(entries.drop_last(), present);
        if present.contains(entries.last().0@) {
            rest
        } else {
            rest.push(deletion_of(entries.last()))
        }
    }
}

/// All changes between the local files and a state whose entries are `entries` and whose
/// map of files is `files`: the changes of the local files in order, then the deletions.
pub open spec fn detected(
    local: Seq<LocalFile>,
    files: Map<Seq<char>, FileState>,
    entries: Seq<(String, FileState)>,
) -> Seq<FileChange> {
    local_changes(local, files) + deleted_changes(entries, local_paths(local))
}

/// A change needs an upload when the file is new or modified.
pub open spec fn needs_upload(c: FileChange) -> bool {
    c.change_type is New || c.change_type is Modified
}

/// The changes of `changes` that need an upload, in order.
pub open spec fn upload_needed(changes: Seq<FileChange>) -> Seq<FileChange>
    decreases changes.len(),
{
    if changes.len() == 0 {
        seq![]
    } else {
        let rest = upload_needed(changes.drop_last());
        if needs_upload(changes.last()) {
            rest.push(changes.last())
        } else {
            rest
        }
    }
}

/// The changes of `changes` of kind `t`, in order.
pub open spec fn of_kind(changes: Seq<FileChange>, t: ChangeType) -> Seq<FileChange>
    decreases changes.len(),
{
    if changes.len() == 0 {
        seq![]
    } else {
        let rest = of_kind(changes.drop_last(), t);
        if changes.last().change_type == t {
            rest.push(changes.last())
        } else {
            rest
        }
    }
}

/// Every deletion comes from a recorded entry whose path is not present locally.
proof fn lemma_deletions_sound(entries: Seq<(String, FileState)>, present: Seq<Seq<char>>)
    ensures
        forall|j: int|
            0 <= j < deleted_changes(entries, present).len() ==> exists|i: int|
                0 <= i < entries.len() && #[trigger] deleted_changes(entries, present)[j]
                    == deletion_of(entries[i]) && !present.contains(entries[i].0@),
    decreases entries.len(),
{
    if entries.len() > 0 {
        let init = entries.drop_last();
        lemma_deletions_sound(init, present);
        let rest = deleted_changes(init, present);
        let d = deleted_changes(entries, present);
        assert forall|j: int| 0 <= j < d.len() implies exists|i: int|
            0 <= i < entries.len() && #[trigger] d[j] == deletion_of(entries[i])
                && !present.contains(entries[i].0@) by {
            if j < rest.len() {
                assert(d[j] == rest[j]);
                let i = choose|i: int|
                    0 <= i < init.len() && #[trigger] rest[j] == deletion_of(init[i])
                        && !present.contains(init[i].0@);
                assert(init[i] == entries[i]);
            } else {
                assert(d[j] == deletion_of(entries[entries.len() - 1]));
            }
        }
    }
}

/// Every recorded entry whose path is not present locally has its deletion.
proof fn lemma_deletions_complete(entries: Seq<(String, FileState)>, present: Seq<Seq<char>>)
    ensures
        forall|i: int|
            0 <= i < entries.len() && !present.contains(#[trigger] entries[i].0@) ==> deleted_changes(
                entries,
                present,
            ).contains(deletion_of(entries[i])),
    decreases entries.len(),
{
    if entries.len() > 0 {
        let init = entries.drop_last();
        lemma_deletions_complete(init, present);
        let rest = deleted_changes(init, present);
        let d = deleted_changes(entries, present);
        assert forall|i: int|
            0 <= i < entries.len() && !present.contains(#[trigger] entries[i].0@) implies d.contains(
                deletion_of(entries[i]),
            ) by {
            if i < init.len() {
                assert(init[i] == entries[i]);
                assert(rest.contains(deletion_of(init[i])));
                let j = choose|j: int| 0 <= j < rest.len() && rest[j] == deletion_of(init[i]);
                assert(d[j] == rest[j]);
            } else {
                assert(d[d.len() - 1] == deletion_of(entries[i]));
            }
        }
    }
}

/// The changes of a scan: one per local file, in order, followed by deletions. The change of
/// the local file at position `i` is `change_of` that file; it is new exactly when nothing is
/// recorded under its path.
pub proof fn law_one_change_per_local_file(
    local: Seq<LocalFile>,
    files: Map<Seq<char>, FileState>,
    entries: Seq<(String, FileState)>,
    i: int,
)
    requires
        0 <= i < local.len(),
    ensures
        detected(local, files, entries).len() == local.len() + deleted_changes(
            entries,
            local_paths(local),
        ).len(),
        detected(local, files, entries)[i] == change_of(local[i], files),
        detected(local, files, entries)[i].relative_path == local[i].relative_path,
        (detected(local, files, entries)[i].change_type == ChangeType::New) <==> !files.contains_key(
            local[i].relative_path@,
        ),
{
}

/// Deletions are exact: each names a recorded file that is absent locally, with its recorded
/// state; and each recorded file that is absent locally has a deletion.
pub proof fn law_deletions_are_exact(
    local: Seq<LocalFile>,
    files: Map<Seq<char>, FileState>,
    entries: Seq<(String, FileState)>,
)
    requires
        entry_keys(entries).no_duplicates(),
        entries_map(entries) == files,
    ensures
        forall|c: FileChange|
            #[trigger] deleted_changes(entries, local_paths(local)).contains(c) ==> {
                &&& c.change_type == ChangeType::Deleted
                &&& c.local_file is None
                &&& files.contains_key(c.relative_path@)
                &&& c.previous_state == Some(files[c.relative_path@])
                &&& !local_paths(local).contains(c.relative_path@)
            },
        forall|k: Seq<char>|
            #[trigger] files.contains_key(k) && !local_paths(local).contains(k) ==> exists|c: FileChange|
                #[trigger] deleted_changes(entries, local_paths(local)).contains(c)
                    && c.relative_path@ == k && c.previous_state == Some(files[k]),
{
    let present = local_paths(local);
    let d = deleted_changes(entries, present);
    lemma_deletions_sound(entries, present);
    lemma_deletions_complete(entries, present);
    assert forall|c: FileChange| #[trigger] d.contains(c) implies {
        &&& c.change_type == ChangeType::Deleted
        &&& c.local_file is None
        &&& files.contains_key(c.relative_path@)
        &&& c.previous_state == Some(files[c.relative_path@])
        &&& !present.contains(c.relative_path@)
    } by {
        let j = choose|j: int| 0 <= j < d.len() && d[j] == c;
        let i = choose|i: int|
            0 <= i < entries.len() && #[trigger] d[j] == deletion_of(entries[i])
                && !present.contains(entries[i].0@);
        lemma_entries_map_at(entries, i);
    }
    assert forall|k: Seq<char>| #[trigger]
        files.contains_key(k) && !present.contains(k) implies exists|c: FileChange|
        #[trigger] d.contains(c) && c.relative_path@ == k && c.previous_state == Some(files[k]) by {
        lemma_entries_map_dom(entries);
        assert(entry_keys(entries).to_set().contains(k));
        assert(entry_keys(entries).contains(k));
        let i = choose|i: int| 0 <= i < entry_keys(entries).len() && entry_keys(entries)[i] == k;
        assert(entries[i].0@ == k);
        lemma_entries_map_at(entries, i);
        assert(d.contains(deletion_of(entries[i])));
    }
}

/// The changes of a state with nothing recorded are all new, one per local file, in order.
pub proof fn law_empty_state_all_new(local: Seq<LocalFile>)
    ensures
        detected(local, Map::<Seq<char>, FileState>::empty(), Seq::empty()).len() == local.len(),
        forall|i: int|
            0 <= i < local.len() ==> #[trigger] detected(
                local,
                Map::<Seq<char>, FileState>::empty(),
                Seq::empty(),
            )[i].change_type == ChangeType::New,
{
    assert(deleted_changes(Seq::<(String, FileState)>::empty(), local_paths(local)) =~= seq![]);
}

/// The uploads selected from a list of changes are exactly its new and modified changes,
/// in order: each selected change needs an upload and comes from the list, each change of
/// the list that needs an upload is selected, and selecting again changes nothing.
pub proof fn law_upload_selection(changes: Seq<FileChange>)
    ensures
        forall|c: FileChange| #[trigger] upload_needed(changes).contains(c) ==> needs_upload(c)
            && changes.contains(c),
        forall|c: FileChange| #[trigger] changes.contains(c) && needs_upload(c) ==> upload_needed(
            changes,
        ).contains(c),
        upload_needed(upload_needed(changes)) == upload_needed(changes),
        upload_needed(changes).len() == of_kind(changes, ChangeType::New).len() + of_kind(
            changes,
            ChangeType::Modified,
        ).len(),
    decreases changes.len(),
{
    if changes.len() > 0 {
        let init = changes.drop_last();
        law_upload_selection(init);
        let u = upload_needed(changes);
        let ui = upload_needed(init);
        assert forall|c: FileChange| #[trigger] u.contains(c) implies needs_upload(c)
            && changes.contains(c) by {
            let j = choose|j: int| 0 <= j < u.len() && u[j] == c;
            if j < ui.len() {
                assert(u[j] == ui[j]);
                assert(ui.contains(c));
                let k = choose|k: int| 0 <= k < init.len() && init[k] == c;
                assert(changes[k] == c);
            } else {
                assert(changes[changes.len() - 1] == c);
            }
        }
        assert forall|c: FileChange| #[trigger] changes.contains(c) && needs_upload(c) implies u.contains(
            c,
        ) by {
            let k = choose|k: int| 0 <= k < changes.len() && changes[k] == c;
            if k < init.len() {
                assert(init[k] == c);
                assert(init.contains(c));
                assert(ui.contains(c));
                let j = choose|j: int| 0 <= j < ui.len() && ui[j] == c;
                assert(u[j] == c);
            } else {
                assert(u[u.len() - 1] == c);
            }
        }
        if needs_upload(changes.last()) {
            assert(u.drop_last() =~= ui);
        }
    }
}

/// Each change has exactly one kind: the new, modified, deleted and unchanged changes
/// together are as many as all changes.
pub proof fn law_kinds_partition(changes: Seq<FileChange>)
    ensures
        of_kind(changes, ChangeType::New).len() + of_kind(changes, ChangeType::Modified).len()
            + of_kind(changes, ChangeType::Deleted).len() + of_kind(
            changes,
            ChangeType::Unchanged,
        ).len() == changes.len(),
    decreases changes.len(),
{
    if changes.len() > 0 {
        law_kinds_partition(changes.drop_last());
    }
}

/// An edit is never missed: when a local file is recorded and its modification time, its
/// size, or its known hash differs from the recorded one, its change is Modified and it is
/// among the uploads selected from the scan; when none of them differs (and its hash is
/// unknown or equal), its change is Unchanged and it is not uploaded.
pub proof fn law_edited_file_is_uploaded(
    local: Seq<LocalFile>,
    files: Map<Seq<char>, FileState>,
    entries: Seq<(String, FileState)>,
    i: int,
)
    requires
        0 <= i < local.len(),
        files.contains_key(local[i].relative_path@),
    ensures
        ({
            let f = local[i];
            let prev = files[f.relative_path@];
            let c = detected(local, files, entries)[i];
            &&& (f.modified != prev.modified || f.size != prev.size || (f.md5_hash matches Some(h)
                && h@ != prev.md5_hash@)) ==> c.change_type == ChangeType::Modified
                && upload_needed(detected(local, files, entries)).contains(c)
            &&& (f.modified == prev.modified && f.size == prev.size && (f.md5_hash matches Some(h)
                ==> h@ == prev.md5_hash@)) ==> c.change_type == ChangeType::Unchanged
                && !upload_needed(detected(local, files, entries)).contains(c)
        }),
{
    let d = detected(local, files, entries);
    law_one_change_per_local_file(local, files, entries, i);
    law_upload_selection(d);
    assert(d.contains(d[i]));
}

/// Detects changes between local files and the recorded state.
pub struct ChangeTracker;

impl ChangeTracker {
    /// Whether `local_file` differs from `previous_state`.
    pub fn is_modified(local_file: &LocalFile, previous_state: &FileState) -> (r: bool)
        ensures
            r == differs_from(*local_file, *previous_state),
            local_file.modified != previous_state.modified ==> r,
            local_file.size != previous_state.size ==> r,
            local_file.md5_hash matches Some(h) && h@ != previous_state.md5_hash@ ==> r,
            !r ==> local_file.size == previous_state.size && local_file.modified
                == previous_state.modified,
    {
        if local_file.size != previous_state.size {
            return true;
        }
        if local_file.modified != previous_state.modified {
            return true;
        }
        match &local_file.md5_hash {
            Some(local_md5) => !(*local_md5 == previous_state.md5_hash),
            None => false,
        }
    }

    /// The change of one local file against the recorded state.
    fn change_for(local_file: &LocalFile, sync_state: &SyncState) -> (r: FileChange)
        ensures
            r == change_of(*local_file, sync_state@.files),
    {
        match sync_state.get_file(local_file.relative_path.as_str()) {
            Some(previous_state) => {
                if Self::is_modified(local_file, previous_state) {
                    FileChange::modified(local_file.clone(), previous_state.clone())
                } else {
                    FileChange::unchanged(local_file.clone(), previous_state.clone())
                }
            },
            None => FileChange::new(local_file.clone()),
        }
    }

    /// The changes between `local_files` and `sync_state`: one per local file, in order
    /// (new, modified or unchanged), then one deletion per recorded file that is not present
    /// locally, in the order in which the state keeps its entries.
    pub fn detect_changes(local_files: &[LocalFile], sync_state: &SyncState) -> (r: Vec<
        FileChange,
    >)
        ensures
            r@ == detected(local_files@, sync_state@.files, sync_state.entry_list()),
    {
        let mut changes: Vec<FileChange> = Vec::new();
        let mut paths: Vec<String> = Vec::new();
        let mut i: usize = 0;
        while i < local_files.len()
            invariant
                i <= local_files@.len(),
                changes@ == local_changes(local_files@.take(i as int), sync_state@.files),
                texts(paths@) == local_paths(local_files@.take(i as int)),
            decreases local_files@.len() - i,
        {
            let ghost before_changes = changes@;
            let ghost before_paths = paths@;
            let change = Self::change_for(&local_files[i], sync_state);
            changes.push(change);
            paths.push(local_files[i].relative_path.clone());
            assert(local_files@.take(i + 1) =~= local_files@.take(i as int).push(
                local_files@[i as int],
            ));
            assert(changes@ =~= local_changes(local_files@.take(i + 1), sync_state@.files));
            assert(texts(paths@) =~= texts(before_paths).push(local_files@[i as int].relative_path@));
            assert(texts(paths@) =~= local_paths(local_files@.take(i + 1)));
            i = i + 1;
        }
        assert(local_files@.take(local_files@.len() as int) =~= local_files@);
        let entries = sync_state.files();
        let ghost local_part = changes@;
        let mut j: usize = 0;
        while j < entries.len()
            invariant
                j <= entries@.len(),
                texts(paths@) == local_paths(local_files@),
                changes@ == local_part + deleted_changes(
                    entries@.take(j as int),
                    local_paths(local_files@),
                ),
            decreases entries@.len() - j,
        {
            assert(entries@.take(j + 1).drop_last() =~= entries@.take(j as int));
            assert(entries@.take(j + 1).last() == entries@[j as int]);
            assert(deletion_of(entries@[j as int]) == (FileChange {
                relative_path: entries@[j as int].0,
                change_type: ChangeType::Deleted,
                local_file: None,
                previous_state: Some(entries@[j as int].1),
            }));
            if !list_contains(&paths, entries[j].0.as_str()) {
                let change = FileChange::deleted(entries[j].0.clone(), entries[j].1.clone());
                changes.push(change);
            }
            assert(changes@ =~= local_part + deleted_changes(
                entries@.take(j + 1),
                local_paths(local_files@),
            ));
            j = j + 1;
        }
        assert(entries@.take(entries@.len() as int) =~= entries@);
        changes
    }

    /// The changes that need an upload (new or modified), in order.
    pub fn filter_sync_needed(changes: Vec<FileChange>) -> (r: Vec<FileChange>)
        ensures
            r@ == upload_needed(changes@),
    {
        let mut out: Vec<FileChange> = Vec::new();
        let mut i: usize = 0;
        while i < changes.len()
            invariant
                i <= changes@.len(),
                out@ == upload_needed(changes@.take(i as int)),
            decreases changes@.len() - i,
        {
            assert(changes@.take(i + 1).drop_last() =~= changes@.take(i as int));
            let keep = match changes[i].change_type {
                ChangeType::New => true,
                ChangeType::Modified => true,
                _ => false,
            };
            if keep {
                out.push(changes[i].clone());
            }
            assert(out@ =~= upload_needed(changes@.take(i + 1)));
            i = i + 1;
        }
        assert(changes@.take(changes@.len() as int) =~= changes@);
        out
    }

    /// The changes of kind `kind`, in order, by reference.
    fn select_kind<'a>(changes: &'a [FileChange], kind: ChangeType) -> (r: Vec<&'a FileChange>)
        ensures
            r@.map_values(|c: &FileChange| *c) == of_kind(changes@, kind),
    {
        let mut out: Vec<&FileChange> = Vec::new();
        let mut i: usize = 0;
        while i < changes.len()
            invariant
                i <= changes@.len(),
                out@.map_values(|c: &FileChange| *c) == of_kind(changes@.take(i as int), kind),
            decreases changes@.len() - i,
        {
            assert(changes@.take(i + 1).drop_last() =~= changes@.take(i as int));
            let ghost before = out@;
            if changes[i].change_type == kind {
                out.push(&changes[i]);
                assert(out@.map_values(|c: &FileChange| *c) =~= before.map_values(
                    |c: &FileChange| *c,
                ).push(changes@[i as int]));
            }
            assert(out@.map_values(|c: &FileChange| *c) =~= of_kind(
                changes@.take(i + 1),
                kind,
            ));
            i = i + 1;
        }
        assert(changes@.take(changes@.len() as int) =~= changes@);
        out
    }

    /// The new, modified and deleted changes, each in order.
    pub fn group_by_type(changes: &[FileChange]) -> (r: (
        Vec<&FileChange>,
        Vec<&FileChange>,
        Vec<&FileChange>,
    ))
        ensures
            r.0@.map_values(|c: &FileChange| *c) == of_kind(changes@, ChangeType::New),
            r.1@.map_values(|c: &FileChange| *c) == of_kind(changes@, ChangeType::Modified),
            r.2@.map_values(|c: &FileChange| *c) == of_kind(changes@, ChangeType::Deleted),
    {
        let new = Self::select_kind(changes, ChangeType::New);
        let modified = Self::select_kind(changes, ChangeType::Modified);
        let deleted = Self::select_kind(changes, ChangeType::Deleted);
        (new, modified, deleted)
    }
}

} // verus!
