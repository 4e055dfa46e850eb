//! File change types for snapshot commits.

use vstd::prelude::*;

use crate::domain::rel_path::RelPath;

verus! {

/// Kind of file change recorded in `file_events`.
#[derive(Debug, Clone, Copy, PartialEq, Eq, Structural)]
pub enum FileEventKind {
    /// File was created.
    Create,
    /// File was modified.
    Modify,
    /// File was deleted.
    Delete,
    /// File was restored to an earlier version.
    Restore,
}

/// The sqlite `event_type` string of `kind`.
pub open spec fn event_kind_str(kind: FileEventKind) -> Seq<char> {
    match kind {
        FileEventKind::Create => "create"@,
        FileEventKind::Modify => "modify"@,
        FileEventKind::Delete => "delete"@,
        FileEventKind::Restore => "restore"@,
    }
}

impl FileEventKind {
    /// Return the sqlite `event_type` string.
    pub fn as_str(self) -> (res: &'static str)
        ensures
            res@ == event_kind_str(self),
    {
        match self {
            FileEventKind::Create => "create",
            FileEventKind::Modify => "modify",
            FileEventKind::Delete => "delete",
            FileEventKind::Restore => "restore",
        }
    }
}

/// One file change to include in a snapshot commit.
#[derive(Debug, Clone, PartialEq, Eq)]
pub struct FileChange {
    /// Path relative to the vault worktree.
    pub rel: RelPath,
    /// Change kind.
    pub kind: FileEventKind,
}

/// What the filesystem holds at a notified path.
#[derive(Debug, Clone, Copy, PartialEq, Eq, Structural)]
pub enum PathKind {
    /// Nothing exists at the path.
    Missing,
    /// A directory.
    Directory,
    /// A regular file.
    File {
        /// Size on disk, in bytes.
        size_bytes: u64,
    },
    /// Neither a regular file nor a directory: socket, fifo, or device node.
    Special,
}

/// The change a path of kind `kind` represents under a `max_file_bytes` size cap.
pub open spec fn classify_spec(kind: PathKind, max_file_bytes: u64) -> Option<FileEventKind> {
    match kind {
        PathKind::Missing => Some(FileEventKind::Delete),
        PathKind::Directory => None,
        PathKind::Special => None,
        PathKind::File { size_bytes } => if size_bytes > max_file_bytes {
            None
        } else {
            Some(FileEventKind::Modify)
        },
    }
}

impl PathKind {
    /// Return the change this path represents, or `None` when it is not snapshottable.
    ///
    /// Directories are skipped deliberately: an event on a directory says nothing about the
    /// files inside it, and recording it as a delete would remove the entire subtree.
    pub fn classify(self, max_file_bytes: u64) -> (res: Option<FileEventKind>)
        ensures
            res == classify_spec(self, max_file_bytes),
            self is Directory ==> res is None,
            self is Special ==> res is None,
            self is Missing ==> res == Some(FileEventKind::Delete),
    {
        match self {
            PathKind::Missing => Some(FileEventKind::Delete),
            PathKind::Directory => None,
            PathKind::Special => None,
            PathKind::File { size_bytes } => {
                if size_bytes > max_file_bytes {
                    None
                } else {
                    Some(FileEventKind::Modify)
                }
            },
        }
    }
}

} // verus!
