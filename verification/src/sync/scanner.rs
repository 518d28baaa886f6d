//! Local files found by a directory scan, and the rules that decide which are kept.
use crate::checksum::{md5_hex, md5_hex_digest};
use crate::text::{contains_any, contains_any_of, texts};
use vstd::prelude::*;

verus! {

/// A local file found during a scan.
#[derive(Debug)]
pub struct LocalFile {
    /// Full path of the file.
    pub path: String,
    /// Path relative to the synchronised directory.
    pub relative_path: String,
    /// Size in bytes.
    pub size: u64,
    /// Last modification time (Unix seconds).
    pub modified: i64,
    /// MD5 of the content, once computed.
    pub md5_hash: Option<String>,
}

/// A copy of an optional text.
pub fn clone_opt_string(s: &Option<String>) -> (r: Option<String>)
    ensures
        r == *s,
{
    match s {
        Some(t) => Some(t.clone()),
        None => None,
    }
}

impl Clone for LocalFile {
    fn clone(&self) -> (r: Self)
        ensures
            r == *self,
    {
        LocalFile {
            path: self.path.clone(),
            relative_path: self.relative_path.clone(),
            size: self.size,
            modified: self.modified,
            md5_hash: clone_opt_string(&self.md5_hash),
        }
    }
}

impl LocalFile {
    /// Records the MD5 of `content` (the file's bytes) as the file's hash and returns it.
    pub fn record_md5(&mut self, content: &[u8]) -> (r: String)
        ensures
            r@ == md5_hex_digest(content@),
            final(self).md5_hash == Some(r),
            final(self).path == old(self).path,
            final(self).relative_path == old(self).relative_path,
            final(self).size == old(self).size,
            final(self).modified == old(self).modified,
    {
        let hash = md5_hex(content);
        self.md5_hash = Some(hash.clone());
        hash
    }
}

/// The scanner's settings as plain values.
pub struct FileScannerView {
    pub ignore_patterns: Seq<Seq<char>>,
    pub max_file_size: Option<u64>,
}

/// Decides which files of a scanned directory are kept.
pub struct FileScanner {
    /// Glob patterns of paths to ignore (`*` any run of characters, `?` any one character).
    ignore_patterns: Vec<String>,
    max_file_size: Option<u64>,
}

/// The patterns a new scanner ignores.
pub open spec fn default_scan_patterns() -> Seq<Seq<char>> {
    seq![".git"@, ".gitignore"@, "node_modules"@, "target"@, ".DS_Store"@, "Thumbs.db"@]
}

/// A path is ignored when one of the glob patterns matches a piece of it (see `glob_occurs`).
pub open spec fn ignored_by(path: Seq<char>, patterns: Seq<Seq<char>>) -> bool {
    contains_any(path, patterns)
}

/// A file is too large when a limit is set and its size exceeds it.
pub open spec fn too_large(size: u64, max_file_size: Option<u64>) -> bool {
    match max_file_size {
        Some(max) => size > max,
        None => false,
    }
}

/// The paths of `paths` that no pattern matches, in order.
pub open spec fn unignored(paths: Seq<Seq<char>>, patterns: Seq<Seq<char>>) -> Seq<Seq<char>>
    decreases paths.len(),
{
    if paths.len() == 0 {
        seq![]
    } else {
        let rest = unignored(paths.drop_last(), patterns);
        if ignored_by(paths.last(), patterns) {
            rest
        } else {
            rest.push(paths.last())
        }
    }
}

/// The files of `files` that are not too large, in order.
pub open spec fn within_limit(files: Seq<LocalFile>, max_file_size: Option<u64>) -> Seq<LocalFile>
    decreases files.len(),
{
    if files.len() == 0 {
        seq![]
    } else {
        let rest = within_limit(files.drop_last(), max_file_size);
        if too_large(files.last().size, max_file_size) {
            rest
        } else {
            rest.push(files.last())
        }
    }
}

/// The patterns of `v`, as owned strings.
fn strings_of(v: &Vec<&str>) -> (r: Vec<String>)
    ensures
        texts(r@) == v@.map_values(|s: &str| s@),
{
    let mut out: Vec<String> = Vec::new();
    let mut i: usize = 0;
    while i < v.len()
        invariant
            i <= v@.len(),
            texts(out@) == v@.take(i as int).map_values(|s: &str| s@),
        decreases v@.len() - i,
    {
        let ghost before = out@;
        let item = String::from_str(v[i]);
        out.push(item);
        assert(texts(out@) =~= texts(before).push(v@[i as int]@));
        assert(v@.take(i + 1).map_values(|s: &str| s@) =~= v@.take(i as int).map_values(
            |s: &str| s@,
        ).push(v@[i as int]@));
        i = i + 1;
    }
    assert(v@.take(v@.len() as int) =~= v@);
    out
}

/// The settings a scanner is given: the size limit.
#[derive(Debug, Clone, Copy)]
pub struct ScannerConfig {
    pub max_file_size: Option<u64>,
}

impl View for FileScanner {
    type V = FileScannerView;

    closed spec fn view(&self) -> FileScannerView {
        FileScannerView {
            ignore_patterns: texts(self.ignore_patterns@),
            max_file_size: self.max_file_size,
        }
    }
}

impl FileScanner {
    /// A scanner that ignores version-control, build and system files and has no size limit.
    pub fn new() -> (r: Self)
        ensures
            r@.ignore_patterns == default_scan_patterns(),
            r@.max_file_size is None,
    {
        let patterns: Vec<&str> = vec![
            ".git",
            ".gitignore",
            "node_modules",
            "target",
            ".DS_Store",
            "Thumbs.db",
        ];
        let ignore_patterns = strings_of(&patterns);
        assert(patterns@.map_values(|s: &str| s@) =~= default_scan_patterns());
        FileScanner { ignore_patterns, max_file_size: None }
    }

    /// The same scanner with `patterns` as its ignore patterns.
    pub fn with_ignore_patterns(self, patterns: Vec<String>) -> (r: Self)
        ensures
            r@.ignore_patterns == texts(patterns@),
            r@.max_file_size == self@.max_file_size,
    {
        FileScanner { ignore_patterns: patterns, max_file_size: self.max_file_size }
    }

    /// The same scanner with a size limit of `max_size` bytes.
    pub fn with_max_file_size(self, max_size: u64) -> (r: Self)
        ensures
            r@.ignore_patterns == self@.ignore_patterns,
            r@.max_file_size == Some(max_size),
    {
        FileScanner { ignore_patterns: self.ignore_patterns, max_file_size: Some(max_size) }
    }

    /// The ignore patterns.
    pub fn ignore_patterns(&self) -> (r: &Vec<String>)
        ensures
            texts(r@) == self@.ignore_patterns,
    {
        &self.ignore_patterns
    }

    /// The size limit, if any.
    pub fn max_file_size(&self) -> (r: Option<u64>)
        ensures
            r == self@.max_file_size,
    {
        self.max_file_size
    }

    /// Whether `path` is to be ignored: one of the glob patterns matches a piece of it.
    pub fn should_ignore(&self, path: &str) -> (r: bool)
        ensures
            r == ignored_by(path@, self@.ignore_patterns),
    {
        contains_any_of(path, &self.ignore_patterns)
    }

    /// Whether a file of `size` bytes is over the size limit.
    pub fn is_too_large(&self, size: u64) -> (r: bool)
        ensures
            r == too_large(size, self@.max_file_size),
    {
        match self.max_file_size {
            Some(max) => size > max,
            None => false,
        }
    }

    /// The scanner's size limit.
    pub fn config(&self) -> (r: ScannerConfig)
        ensures
            r.max_file_size == self@.max_file_size,
    {
        ScannerConfig { max_file_size: self.max_file_size }
    }

    /// The paths of `paths` that are not ignored, in order.
    pub fn keep_unignored(&self, paths: Vec<String>) -> (r: Vec<String>)
        ensures
            texts(r@) == unignored(texts(paths@), self@.ignore_patterns),
    {
        let mut out: Vec<String> = Vec::new();
        let mut i: usize = 0;
        while i < paths.len()
            invariant
                i <= paths@.len(),
                texts(out@) == unignored(texts(paths@).take(i as int), self@.ignore_patterns),
            decreases paths@.len() - i,
        {
            let ghost prefix = texts(paths@).take(i as int);
            assert(texts(paths@).take(i + 1).drop_last() =~= prefix);
            assert(texts(paths@).take(i + 1).last() == paths@[i as int]@);
            if !self.should_ignore(paths[i].as_str()) {
                out.push(paths[i].clone());
                assert(texts(out@) =~= unignored(texts(paths@).take(i + 1), self@.ignore_patterns));
            }
            i = i + 1;
        }
        assert(texts(paths@).take(paths@.len() as int) =~= texts(paths@));
        out
    }

    /// The files of `files` that are within the size limit, in order.
    pub fn keep_within_size(&self, files: Vec<LocalFile>) -> (r: Vec<LocalFile>)
        ensures
            r@ == within_limit(files@, self@.max_file_size),
    {
        let mut out: Vec<LocalFile> = Vec::new();
        let mut i: usize = 0;
        while i < files.len()
            invariant
                i <= files@.len(),
                out@ == within_limit(files@.take(i as int), self@.max_file_size),
            decreases files@.len() - i,
        {
            assert(files@.take(i + 1).drop_last() =~= files@.take(i as int));
            if !self.is_too_large(files[i].size) {
                out.push(files[i].clone());
            }
            assert(out@ =~= within_limit(files@.take(i + 1), self@.max_file_size));
            i = i + 1;
        }
        assert(files@.take(files@.len() as int) =~= files@);
        out
    }
}

impl Default for FileScanner {
    fn default() -> (r: Self)
        ensures
            r@.ignore_patterns == default_scan_patterns(),
            r@.max_file_size is None,
    {
        Self::new()
    }
}

} // verus!
