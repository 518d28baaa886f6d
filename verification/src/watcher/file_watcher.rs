//! File events, the watcher's settings, and how a raw notification becomes an event.
use crate::text::{contains_any, contains_any_of, texts};
use std::time::Duration;
use vstd::prelude::*;

verus! {

/// The kind of a file event.
#[derive(Debug, PartialEq, Eq, Structural)]
pub enum FileEventType {
    /// The file was created.
    Created,
    /// The file was modified.
    Modified,
    /// The file was deleted.
    Deleted,
    /// Any other event.
    Other,
}

impl Clone for FileEventType {
    fn clone(&self) -> (r: Self)
        ensures
            r == *self,
    {
        match self {
            FileEventType::Created => FileEventType::Created,
            FileEventType::Modified => FileEventType::Modified,
            FileEventType::Deleted => FileEventType::Deleted,
            FileEventType::Other => FileEventType::Other,
        }
    }
}

/// A change to a file under the watched directory.
#[derive(Debug)]
pub struct FileEvent {
    /// The kind of event.
    pub event_type: FileEventType,
    /// The path of the file.
    pub path: String,
}

impl Clone for FileEvent {
    fn clone(&self) -> (r: Self)
        ensures
            r == *self,
    {
        FileEvent { event_type: self.event_type.clone(), path: self.path.clone() }
    }
}

impl FileEvent {
    /// An event of kind `event_type` for `path`.
    pub fn new(event_type: FileEventType, path: String) -> (r: Self)
        ensures
            r == (FileEvent { event_type, path }),
    {
        FileEvent { event_type, path }
    }

    /// Whether the event asks for an upload: the file was created or modified.
    pub fn needs_sync(&self) -> (r: bool)
        ensures
            r == (self.event_type is Created || self.event_type is Modified),
    {
        match self.event_type {
            FileEventType::Created => true,
            FileEventType::Modified => true,
            _ => false,
        }
    }
}

/// The kind of a debounced notification, as the notification source reports it.
#[derive(Debug, PartialEq, Eq, Structural)]
pub enum NotificationKind {
    /// One event, or several merged.
    Any,
    /// Events that kept arriving during the debounce period.
    AnyContinuous,
    /// A kind this library does not know.
    Unknown,
}

/// The event kind a notification stands for: a single notification is a modification when
/// the file still exists and a deletion otherwise; a continuous one is a modification.
pub open spec fn event_kind_of(kind: NotificationKind, exists: bool) -> FileEventType {
    match kind {
        NotificationKind::Any => if exists {
            FileEventType::Modified
        } else {
            FileEventType::Deleted
        },
        NotificationKind::AnyContinuous => FileEventType::Modified,
        NotificationKind::Unknown => FileEventType::Other,
    }
}

/// The event kind of a notification of kind `kind` for a path that exists or not.
pub fn classify_notification(kind: &NotificationKind, exists: bool) -> (r: FileEventType)
    ensures
        r == event_kind_of(*kind, exists),
{
    match kind {
        NotificationKind::Any => if exists {
            FileEventType::Modified
        } else {
            FileEventType::Deleted
        },
        NotificationKind::AnyContinuous => FileEventType::Modified,
        NotificationKind::Unknown => FileEventType::Other,
    }
}

/// The duration of `secs` seconds, as `Duration::from_secs` builds it.
pub uninterp spec fn duration_of_secs(secs: u64) -> Duration;

/// Builds a duration of `secs` seconds with `Duration::from_secs`.
#[verifier::external_body]
pub(crate) fn seconds(secs: u64) -> (r: Duration)
    ensures
        r == duration_of_secs(secs),
{
    Duration::from_secs(secs)
}

/// The patterns the watcher ignores by default.
pub open spec fn default_watch_patterns() -> Seq<Seq<char>> {
    seq![
        ".git"@,
        ".gitignore"@,
        "node_modules"@,
        "target"@,
        ".DS_Store"@,
        "Thumbs.db"@,
        ".sync_state.json"@,
        "state.json"@,
    ]
}

/// The watcher's settings.
#[derive(Debug)]
pub struct WatcherConfig {
    /// How long notifications are merged before they are reported.
    pub debounce_duration: Duration,
    /// Glob patterns (`*` any run of characters, `?` any one character); a path that one of
    /// them matches a piece of is ignored.
    pub ignore_patterns: Vec<String>,
}

impl Clone for WatcherConfig {
    fn clone(&self) -> (r: Self)
        ensures
            r.debounce_duration == self.debounce_duration,
            r.ignore_patterns@ == self.ignore_patterns@,
    {
        let mut patterns: Vec<String> = Vec::new();
        let mut i: usize = 0;
        while i < self.ignore_patterns.len()
            invariant
                i <= self.ignore_patterns@.len(),
                patterns@ == self.ignore_patterns@.take(i as int),
            decreases self.ignore_patterns@.len() - i,
        {
            patterns.push(self.ignore_patterns[i].clone());
            assert(patterns@ =~= self.ignore_patterns@.take(i + 1));
            i = i + 1;
        }
        assert(self.ignore_patterns@.take(self.ignore_patterns@.len() as int)
            =~= self.ignore_patterns@);
        WatcherConfig { debounce_duration: self.debounce_duration, ignore_patterns: patterns }
    }
}

impl Default for WatcherConfig {
    /// Two seconds of debounce; version-control, build, system and state files ignored.
    fn default() -> (r: Self)
        ensures
            r.debounce_duration == duration_of_secs(2),
            texts(r.ignore_patterns@) == default_watch_patterns(),
    {
        let mut patterns: Vec<String> = Vec::new();
        patterns.push(String::from_str(".git"));
        patterns.push(String::from_str(".gitignore"));
        patterns.push(String::from_str("node_modules"));
        patterns.push(String::from_str("target"));
        patterns.push(String::from_str(".DS_Store"));
        patterns.push(String::from_str("Thumbs.db"));
        patterns.push(String::from_str(".sync_state.json"));
        patterns.push(String::from_str("state.json"));
        assert(texts(patterns@) =~= default_watch_patterns());
        WatcherConfig { debounce_duration: seconds(2), ignore_patterns: patterns }
    }
}

impl WatcherConfig {
    /// The same settings with `duration` as the debounce time.
    pub fn with_debounce(self, duration: Duration) -> (r: Self)
        ensures
            r.debounce_duration == duration,
            r.ignore_patterns == self.ignore_patterns,
    {
        WatcherConfig { debounce_duration: duration, ignore_patterns: self.ignore_patterns }
    }

    /// The same settings with `patterns` added after the ignore patterns already set.
    pub fn with_ignore_patterns(self, patterns: Vec<String>) -> (r: Self)
        ensures
            r.debounce_duration == self.debounce_duration,
            r.ignore_patterns@ == self.ignore_patterns@ + patterns@,
    {
        let mut all = self.ignore_patterns;
        let ghost first = all@;
        let mut i: usize = 0;
        while i < patterns.len()
            invariant
                i <= patterns@.len(),
                all@ == first + patterns@.take(i as int),
            decreases patterns@.len() - i,
        {
            all.push(patterns[i].clone());
            assert(patterns@.take(i + 1) =~= patterns@.take(i as int).push(patterns@[i as int]));
            assert(all@ =~= first + patterns@.take(i + 1));
            i = i + 1;
        }
        assert(patterns@.take(patterns@.len() as int) =~= patterns@);
        WatcherConfig { debounce_duration: self.debounce_duration, ignore_patterns: all }
    }

    /// Whether `path` is ignored: one of the glob patterns matches a piece of it.
    pub fn should_ignore(&self, path: &str) -> (r: bool)
        ensures
            r == contains_any(path@, texts(self.ignore_patterns@)),
    {
        contains_any_of(path, &self.ignore_patterns)
    }

    /// The event reported for a notification of kind `kind` about `path` (which exists or
    /// not): none when the path is ignored.
    pub fn event_for(&self, path: String, kind: &NotificationKind, exists: bool) -> (r: Option<
        FileEvent,
    >)
        ensures
            contains_any(path@, texts(self.ignore_patterns@)) ==> r is None,
            !contains_any(path@, texts(self.ignore_patterns@)) ==> r == Some(
                FileEvent { event_type: event_kind_of(*kind, exists), path },
            ),
    {
        if self.should_ignore(path.as_str()) {
            return None;
        }
        let event_type = classify_notification(kind, exists);
        Some(FileEvent::new(event_type, path))
    }
}

} // verus!
