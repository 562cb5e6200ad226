//! Watch targets: which notifications matter for a target, and where its
//! watch is rooted.

use vstd::prelude::*;
use crate::paths::optional_text;
use crate::paths::parent_dir;
use crate::paths::parent_of_path;
use crate::paths::path_texts;

verus! {

/// A file or directory that the user asked to have watched.
///
/// It is made once at startup and never changes. The canonical path is the
/// absolute, symlink-free spelling of the raw path; all comparisons go by it.
#[derive(Clone, Debug, PartialEq, Eq)]
pub struct WatchTarget {
    raw_path: String,
    canonical_path: String,
    is_directory: bool,
}

/// What a watch target is, as plain values.
pub ghost struct TargetView {
    pub raw_path: Seq<char>,
    pub canonical_path: Seq<char>,
    pub is_directory: bool,
}

impl View for WatchTarget {
    type V = TargetView;

    closed spec fn view(&self) -> TargetView {
        TargetView {
            raw_path: self.raw_path@,
            canonical_path: self.canonical_path@,
            is_directory: self.is_directory,
        }
    }
}

/// What the file system said of a raw path: where it really is, and whether
/// a directory is there.
#[derive(Clone, Debug, PartialEq, Eq)]
pub struct ResolvedPath {
    pub canonical_path: String,
    pub is_directory: bool,
}

/// A watched path that could not be resolved to an absolute location. It is
/// fatal: nothing is watched in its place.
#[derive(Clone, Debug, PartialEq, Eq)]
pub struct ConfigError {
    pub raw_path: String,
    pub reason: String,
}

/// A raw message from a watch source.
#[derive(Clone, Debug, PartialEq, Eq)]
pub enum Notification {
    /// Something happened to these paths, given in canonical form.
    Changed(Vec<String>),
    /// The watch source reported an error instead of a change.
    Failed,
}

/// What a watcher does with a notification.
#[derive(Clone, Copy, Debug, PartialEq, Eq, Structural)]
pub enum WatcherAction {
    /// Send one change signal to the coordinator.
    Signal,
    /// Nothing: the notification does not concern the target.
    Skip,
    /// Log the error and go on watching.
    LogError,
}

/// The watch to register for a target.
#[derive(Clone, Debug, PartialEq, Eq)]
pub struct WatchRequest {
    /// The directory at which the watch is rooted.
    pub root: String,
    /// Whether everything below the root is watched too.
    pub recursive: bool,
}

/// Whether a notification that touches `paths` is relevant for `target`.
///
/// Under a directory every event counts, since the watch is already scoped
/// to the directory and what is below it. For a file only an event on the
/// very same canonical path counts.
pub open spec fn relevant_to(target: TargetView, paths: Seq<Seq<char>>) -> bool {
    target.is_directory || paths.contains(target.canonical_path)
}

/// The action owed for a notification that touches `paths`, or for a failed
/// one where `paths` is `None`.
pub open spec fn watcher_response(target: TargetView, paths: Option<Seq<Seq<char>>>)
    -> WatcherAction {
    match paths {
        Some(touched) => if relevant_to(target, touched) {
            WatcherAction::Signal
        } else {
            WatcherAction::Skip
        },
        None => WatcherAction::LogError,
    }
}

/// The root of the watch for `target`, given the parent of its canonical
/// path: the target itself where it is a directory, else its parent, since
/// single files cannot be watched reliably.
pub open spec fn watch_root(target: TargetView, parent: Option<Seq<char>>) -> Option<Seq<char>> {
    if target.is_directory {
        Some(target.canonical_path)
    } else {
        parent
    }
}

impl Notification {
    /// The paths that the notification touches, `None` for a failed one.
    pub open spec fn touched(&self) -> Option<Seq<Seq<char>>> {
        match self {
            Notification::Changed(paths) => Some(path_texts(paths@)),
            Notification::Failed => None,
        }
    }
}

/// Whether `request` is the recursive watch rooted at `root`, if there is
/// one, and absent if there is none.
pub open spec fn is_recursive_watch_at(request: Option<WatchRequest>, root: Option<Seq<char>>)
    -> bool {
    match root {
        Some(text) => request matches Some(watch) && watch.root@ == text && watch.recursive,
        None => request is None,
    }
}

impl ConfigError {
    /// The message for the operator.
    pub open spec fn spec_describe(&self) -> Seq<char> {
        "Failed to canonicalize path \""@ + self.raw_path@ + "\": "@ + self.reason@
    }

    /// The message for the operator: names the path as the user wrote it and
    /// the reason it could not be resolved.
    pub fn describe(&self) -> (message: String)
        ensures
            message@ == self.spec_describe(),
    {
        let mut message = "Failed to canonicalize path \"".to_owned();
        message.append(self.raw_path.as_str());
        message.append("\": ");
        message.append(self.reason.as_str());
        message
    }
}

impl WatchTarget {
    /// A target from its parts.
    pub fn new(raw_path: String, canonical_path: String, is_directory: bool) -> (target:
        WatchTarget)
        ensures
            target@ == (TargetView {
                raw_path: raw_path@,
                canonical_path: canonical_path@,
                is_directory,
            }),
    {
        WatchTarget { raw_path, canonical_path, is_directory }
    }

    /// A target for `raw_path` from what the file system said of it. A path
    /// that could not be resolved gives an error that names it, never a
    /// target that watches nothing.
    pub fn resolve(raw_path: String, probe: Result<ResolvedPath, String>) -> (resolved: Result<
        WatchTarget,
        ConfigError,
    >)
        ensures
            match probe {
                Ok(found) => resolved matches Ok(target) && target@ == (TargetView {
                    raw_path: raw_path@,
                    canonical_path: found.canonical_path@,
                    is_directory: found.is_directory,
                }),
                Err(reason) => resolved matches Err(error) && error.raw_path@ == raw_path@
                    && error.reason@ == reason@,
            },
    {
        match probe {
            Ok(found) => Ok(WatchTarget::new(raw_path, found.canonical_path, found.is_directory)),
            Err(reason) => Err(ConfigError { raw_path, reason }),
        }
    }

    /// The path as the user wrote it.
    pub fn raw_path(&self) -> (path: &str)
        ensures
            path@ == self@.raw_path,
    {
        self.raw_path.as_str()
    }

    /// The absolute, symlink-free path.
    pub fn canonical_path(&self) -> (path: &str)
        ensures
            path@ == self@.canonical_path,
    {
        self.canonical_path.as_str()
    }

    /// Whether the target is a directory.
    pub fn is_directory(&self) -> (directory: bool)
        ensures
            directory == self@.is_directory,
    {
        self.is_directory
    }

    /// Whether a notification that touches `changed` is relevant for this
    /// target. The paths in `changed` are in canonical form.
    pub fn is_relevant(&self, changed: &Vec<String>) -> (relevant: bool)
        ensures
            relevant == relevant_to(self@, path_texts(changed@)),
    {
        if self.is_directory {
            return true;
        }
        let mut seen: usize = 0;
        while seen < changed.len()
            invariant
                seen <= changed.len(),
                !self.is_directory,
                forall|i: int| 0 <= i < seen ==> changed@[i]@ != self.canonical_path@,
            decreases changed.len() - seen,
        {
            if changed[seen] == self.canonical_path {
                proof {
                    assert(path_texts(changed@)[seen as int] == self.canonical_path@);
                }
                return true;
            }
            seen += 1;
        }
        false
    }

    /// Decides what to do with one notification from the watch source.
    pub fn on_notification(&self, notification: &Notification) -> (action: WatcherAction)
        ensures
            action == watcher_response(self@, notification.touched()),
    {
        match notification {
            Notification::Changed(paths) => if self.is_relevant(paths) {
                WatcherAction::Signal
            } else {
                WatcherAction::Skip
            },
            Notification::Failed => WatcherAction::LogError,
        }
    }

    /// The watch to register for this target, given the parent of its
    /// canonical path: a recursive watch at `watch_root`, or none where a
    /// file has no parent.
    pub fn plan_watch(&self, parent: Option<String>) -> (request: Option<WatchRequest>)
        ensures
            is_recursive_watch_at(request, watch_root(self@, optional_text(parent))),
    {
        if self.is_directory {
            Some(WatchRequest { root: self.canonical_path.clone(), recursive: true })
        } else {
            match parent {
                Some(root) => Some(WatchRequest { root, recursive: true }),
                None => None,
            }
        }
    }

    /// The watch to register for this target: recursive, rooted at the
    /// target itself where it is a directory and at its parent directory
    /// where it is a file.
    pub fn watch_request(&self) -> (request: Option<WatchRequest>)
        ensures
            is_recursive_watch_at(
                request,
                watch_root(self@, parent_of_path(self@.canonical_path)),
            ),
    {
        let parent = parent_dir(self.canonical_path.as_str());
        self.plan_watch(parent)
    }
}

/// Two targets that resolve to the same place are treated alike, however the
/// user spelled them: relevance goes by the canonical path and the kind of
/// the target, never by the raw path.
pub proof fn law_spelling_does_not_matter(
    first: TargetView,
    second: TargetView,
    paths: Seq<Seq<char>>,
)
    requires
        first.canonical_path == second.canonical_path,
        first.is_directory == second.is_directory,
    ensures
        relevant_to(first, paths) == relevant_to(second, paths),
        watcher_response(first, Some(paths)) == watcher_response(second, Some(paths)),
{
}

} // verus!
