//! The watcher's dispatch rules: which store action each filesystem event
//! asks for.
//!
//! The event source itself runs outside the library; it reduces each of its
//! events to a `FileEventKind` (including the check whether a renamed path
//! still exists) and performs the returned action.

use vstd::prelude::*;

verus! {

/// What a modification event says changed.
#[derive(Clone, Copy, Debug, PartialEq, Eq, Structural)]
pub enum ModifyEventKind {
    /// The file's data changed.
    Data,
    /// The file's name changed; `path_exists` says whether the reported
    /// path still names a file.
    Name { path_exists: bool },
    /// Any other modification (metadata and the like).
    Other,
}

/// A filesystem event reduced to what dispatch needs.
#[derive(Clone, Copy, Debug, PartialEq, Eq, Structural)]
pub enum FileEventKind {
    Create { is_file: bool },
    Modify(ModifyEventKind),
    Remove { is_file: bool },
    Other,
}

/// What the watcher does with an event's path.
#[derive(Clone, Copy, Debug, PartialEq, Eq, Structural)]
pub enum WatchAction {
    /// Re-derive the path's rows from its current content.
    Reindex,
    /// Remove the path's rows.
    Delete,
    /// Do nothing.
    Ignore,
}

/// The dispatch table: file creations and data changes reindex; a rename
/// reindexes while the path still exists and deletes once it does not;
/// file removals delete; everything else is ignored.
pub open spec fn action_for_event(e: FileEventKind) -> WatchAction {
    match e {
        FileEventKind::Create { is_file } => if is_file {
            WatchAction::Reindex
        } else {
            WatchAction::Ignore
        },
        FileEventKind::Modify(m) => match m {
            ModifyEventKind::Data => WatchAction::Reindex,
            ModifyEventKind::Name { path_exists } => if path_exists {
                WatchAction::Reindex
            } else {
                WatchAction::Delete
            },
            ModifyEventKind::Other => WatchAction::Ignore,
        },
        FileEventKind::Remove { is_file } => if is_file {
            WatchAction::Delete
        } else {
            WatchAction::Ignore
        },
        FileEventKind::Other => WatchAction::Ignore,
    }
}

/// Dispatch for a creation event.
pub fn handle_create_event(is_file: bool) -> (a: WatchAction)
    ensures
        a == action_for_event(FileEventKind::Create { is_file }),
{
    if is_file {
        WatchAction::Reindex
    } else {
        WatchAction::Ignore
    }
}

/// Dispatch for a modification event.
pub fn handle_modify_event(kind: ModifyEventKind) -> (a: WatchAction)
    ensures
        a == action_for_event(FileEventKind::Modify(kind)),
{
    match kind {
        ModifyEventKind::Data => WatchAction::Reindex,
        ModifyEventKind::Name { path_exists } => {
            if path_exists {
                WatchAction::Reindex
            } else {
                WatchAction::Delete
            }
        },
        ModifyEventKind::Other => WatchAction::Ignore,
    }
}

/// Dispatch for a removal event.
pub fn handle_remove_event(is_file: bool) -> (a: WatchAction)
    ensures
        a == action_for_event(FileEventKind::Remove { is_file }),
{
    if is_file {
        WatchAction::Delete
    } else {
        WatchAction::Ignore
    }
}

/// Dispatch for any event.
pub fn handle_event(e: FileEventKind) -> (a: WatchAction)
    ensures
        a == action_for_event(e),
{
    match e {
        FileEventKind::Create { is_file } => handle_create_event(is_file),
        FileEventKind::Modify(m) => handle_modify_event(m),
        FileEventKind::Remove { is_file } => handle_remove_event(is_file),
        FileEventKind::Other => WatchAction::Ignore,
    }
}

} // verus!
