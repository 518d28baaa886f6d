//! Search texts sent to the remote drive, and how its answers are read.
use crate::google_drive::models::{FolderInfo, ListFilesFilter};
use crate::storage::models::FileInfo;
use crate::text::same_text;
use vstd::prelude::*;

verus! {

/// The MIME type of folders on the remote drive.
pub open spec fn folder_mime_spec() -> Seq<char> {
    "application/vnd.google-apps.folder"@
}

/// The MIME type of folders on the remote drive.
pub fn folder_mime_type() -> (r: String)
    ensures
        r@ == folder_mime_spec(),
{
    String::from_str("application/vnd.google-apps.folder")
}

/// The search for a folder named `name`, not in the trash, inside `parent` when given.
pub open spec fn folder_query(name: Seq<char>, parent: Option<Seq<char>>) -> Seq<char> {
    let base = "mimeType='application/vnd.google-apps.folder' and name='"@ + name
        + "' and trashed=false"@;
    match parent {
        Some(p) => base + " and '"@ + p + "' in parents"@,
        None => base,
    }
}

/// The texts of an optional string.
pub open spec fn opt_text(s: Option<String>) -> Option<Seq<char>> {
    match s {
        Some(t) => Some(t@),
        None => None,
    }
}

/// The search text for a folder named `name` inside `parent_id` (anywhere when `None`).
pub fn folder_search_query(name: &str, parent_id: &Option<String>) -> (r: String)
    ensures
        r@ == folder_query(name@, opt_text(*parent_id)),
{
    let mut q = String::from_str("mimeType='application/vnd.google-apps.folder' and name='");
    q.append(name);
    q.append("' and trashed=false");
    match parent_id {
        Some(p) => {
            q.append(" and '");
            q.append(p.as_str());
            q.append("' in parents");
        },
        None => {},
    }
    q
}

/// The conditions of a file listing, in order: not in the trash, then the folder, the name
/// and the MIME type when the filter sets them.
pub open spec fn list_conditions(filter: ListFilesFilter) -> Seq<Seq<char>> {
    let a = seq!["trashed=false"@];
    let b = match filter.parent_folder_id {
        Some(p) => a.push("'"@ + p@ + "' in parents"@),
        None => a,
    };
    let c = match filter.name_contains {
        Some(n) => b.push("name contains '"@ + n@ + "'"@),
        None => b,
    };
    match filter.mime_type {
        Some(m) => c.push("mimeType='"@ + m@ + "'"@),
        None => c,
    }
}

/// The texts of `parts` joined with `sep` between consecutive ones.
pub open spec fn joined(parts: Seq<Seq<char>>, sep: Seq<char>) -> Seq<char>
    decreases parts.len(),
{
    if parts.len() == 0 {
        seq![]
    } else if parts.len() == 1 {
        parts[0]
    } else {
        joined(parts.drop_last(), sep) + sep + parts.last()
    }
}

/// The search text of a file listing: its conditions joined with " and ".
pub fn list_files_query(filter: &ListFilesFilter) -> (r: String)
    ensures
        r@ == joined(list_conditions(*filter), " and "@),
{
    let mut q = String::from_str("trashed=false");
    let ghost parts = seq!["trashed=false"@];
    assert(joined(parts, " and "@) == q@);
    match &filter.parent_folder_id {
        Some(p) => {
            q.append(" and ");
            q.append("'");
            q.append(p.as_str());
            q.append("' in parents");
            proof {
                let item = "'"@ + p@ + "' in parents"@;
                assert(parts.push(item).drop_last() =~= parts);
                assert(q@ =~= joined(parts, " and "@) + " and "@ + item);
                parts = parts.push(item);
            }
        },
        None => {},
    }
    match &filter.name_contains {
        Some(n) => {
            q.append(" and ");
            q.append("name contains '");
            q.append(n.as_str());
            q.append("'");
            proof {
                let item = "name contains '"@ + n@ + "'"@;
                assert(parts.push(item).drop_last() =~= parts);
                assert(q@ =~= joined(parts, " and "@) + " and "@ + item);
                parts = parts.push(item);
            }
        },
        None => {},
    }
    match &filter.mime_type {
        Some(m) => {
            q.append(" and ");
            q.append("mimeType='");
            q.append(m.as_str());
            q.append("'");
            proof {
                let item = "mimeType='"@ + m@ + "'"@;
                assert(parts.push(item).drop_last() =~= parts);
                assert(q@ =~= joined(parts, " and "@) + " and "@ + item);
                parts = parts.push(item);
            }
        },
        None => {},
    }
    assert(parts == list_conditions(*filter));
    q
}

/// A file as the remote drive lists it: its identifier and name, when reported.
#[derive(Debug)]
pub struct RemoteFile {
    pub id: Option<String>,
    pub name: Option<String>,
}

/// The position of the first file of `files` named exactly `name`, if any.
pub open spec fn first_named(files: Seq<RemoteFile>, name: Seq<char>) -> Option<int>
    decreases files.len(),
{
    if files.len() == 0 {
        None
    } else {
        match first_named(files.drop_last(), name) {
            Some(i) => Some(i),
            None => if files.last().name matches Some(n) && n@ == name {
                Some(files.len() - 1)
            } else {
                None
            },
        }
    }
}

/// A copy of an optional text.
fn copy_opt(s: &Option<String>) -> (r: Option<String>)
    ensures
        r == *s,
{
    match s {
        Some(t) => Some(t.clone()),
        None => None,
    }
}

/// The identifier of the first listed file named exactly `name` (`None` when there is no
/// such file, or when that file has no identifier).
pub fn exact_match_id(files: &Vec<RemoteFile>, name: &str) -> (r: Option<String>)
    ensures
        r == match first_named(files@, name@) {
            Some(i) => files@[i].id,
            None => None,
        },
        r matches Some(id) ==> exists|i: int|
            0 <= i < files@.len() && named_exactly(#[trigger] files@[i], name@) && files@[i].id
                == Some(id),
        (forall|i: int| 0 <= i < files@.len() ==> !named_exactly(#[trigger] files@[i], name@))
            ==> r is None,
{
    proof {
        law_exact_name_match(files@, name@);
    }
    let mut i: usize = 0;
    while i < files.len()
        invariant
            i <= files@.len(),
            first_named(files@.take(i as int), name@) is None,
        decreases files@.len() - i,
    {
        assert(files@.take(i + 1).drop_last() =~= files@.take(i as int));
        let hit = match &files[i].name {
            Some(n) => same_text(n.as_str(), name),
            None => false,
        };
        if hit {
            proof {
                lemma_first_named_prefix(files@, name@, i + 1);
            }
            return copy_opt(&files[i].id);
        }
        i = i + 1;
    }
    assert(files@.take(files@.len() as int) =~= files@);
    None
}

/// A match found in a prefix is the first match of the whole list.
proof fn lemma_first_named_prefix(files: Seq<RemoteFile>, name: Seq<char>, n: int)
    requires
        0 <= n <= files.len(),
        first_named(files.take(n), name) is Some,
    ensures
        first_named(files, name) == first_named(files.take(n), name),
    decreases files.len() - n,
{
    if n < files.len() {
        assert(files.take(n + 1).drop_last() =~= files.take(n));
        lemma_first_named_prefix(files, name, n + 1);
    } else {
        assert(files.take(n) =~= files);
    }
}

/// `file` is named exactly `name`.
pub open spec fn named_exactly(file: RemoteFile, name: Seq<char>) -> bool {
    file.name matches Some(n) && n@ == name
}

/// The exact-name lookup finds only files named exactly as asked: when it finds position
/// `i`, the file there has exactly the requested name and no earlier file has; it finds
/// something exactly when some listed file has exactly that name. A file whose name merely
/// contains or ends with the requested one is never the answer.
pub proof fn law_exact_name_match(files: Seq<RemoteFile>, name: Seq<char>)
    ensures
        first_named(files, name) matches Some(i) ==> 0 <= i < files.len() && named_exactly(
            files[i],
            name,
        ) && forall|j: int| 0 <= j < i ==> !named_exactly(#[trigger] files[j], name),
        (first_named(files, name) is Some) <==> exists|j: int|
            0 <= j < files.len() && named_exactly(#[trigger] files[j], name),
    decreases files.len(),
{
    if files.len() > 0 {
        let init = files.drop_last();
        law_exact_name_match(init, name);
        assert forall|j: int| 0 <= j < init.len() implies init[j] == files[j] by {}
        if first_named(init, name) is None {
            if named_exactly(files.last(), name) {
                assert(named_exactly(files[files.len() - 1], name));
            } else {
                assert forall|j: int| 0 <= j < files.len() implies !named_exactly(
                    #[trigger] files[j],
                    name,
                ) by {
                    if j < init.len() {
                        assert(init[j] == files[j]);
                    }
                }
            }
        } else {
            let j = choose|j: int| 0 <= j < init.len() && named_exactly(#[trigger] init[j], name);
            assert(files[j] == init[j]);
        }
    }
}

/// The folder described by an answer of the remote drive: its identifier (empty when not
/// reported), its name (the requested one when not reported) and the given parent.
pub fn folder_from_answer(
    id: Option<String>,
    name: Option<String>,
    requested_name: &str,
    parent_id: Option<String>,
) -> (r: FolderInfo)
    ensures
        r.id@ == match id {
            Some(i) => i@,
            None => Seq::<char>::empty(),
        },
        r.name@ == match name {
            Some(n) => n@,
            None => requested_name@,
        },
        r.parent_id == parent_id,
{
    let id = match id {
        Some(i) => i,
        None => String::new(),
    };
    let name = match name {
        Some(n) => n,
        None => String::from_str(requested_name),
    };
    FolderInfo { id, name, parent_id }
}

/// The description of a listed file: missing identifier, name and MIME type become empty
/// texts, a missing size becomes 0 and the reported size is taken as unsigned (`as u64`).
pub fn file_info_from_listing(
    id: Option<String>,
    name: Option<String>,
    size: Option<i64>,
    mime_type: Option<String>,
    modified_time: Option<i64>,
    md5_checksum: Option<String>,
) -> (r: FileInfo)
    ensures
        r.id@ == match id {
            Some(t) => t@,
            None => Seq::<char>::empty(),
        },
        r.name@ == match name {
            Some(t) => t@,
            None => Seq::<char>::empty(),
        },
        r.size == match size {
            Some(n) => n as u64,
            None => 0u64,
        },
        r.mime_type@ == match mime_type {
            Some(t) => t@,
            None => Seq::<char>::empty(),
        },
        r.modified_time == modified_time,
        r.md5_checksum == md5_checksum,
{
    FileInfo {
        id: match id {
            Some(t) => t,
            None => String::new(),
        },
        name: match name {
            Some(t) => t,
            None => String::new(),
        },
        size: match size {
            Some(n) => n as u64,
            None => 0,
        },
        mime_type: match mime_type {
            Some(t) => t,
            None => String::new(),
        },
        modified_time,
        md5_checksum,
    }
}

} // verus!
