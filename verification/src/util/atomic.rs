//! Replacing a file so that a reader, or a crash, never sees half of it.

use crate::util::paths::{temp_path, temp_path_spec};
use vstd::prelude::*;
use vstd::string::*;

verus! {

/// One step on the file system.
#[derive(Debug, PartialEq, Eq)]
pub enum FsAction {
    /// Create or truncate the file, readable by its owner only, and write
    /// the data to it.
    WritePrivate { path: String, data: Vec<u8> },
    /// Rename one file over another; the file system does this in one step.
    Rename { from: String, to: String },
    /// Make the file readable by its owner only.
    Restrict { path: String },
    /// Remove the file, if it is there.
    Remove { path: String },
}

/// The files of a directory tree: their contents by path.
pub type Disk = Map<Seq<char>, Seq<u8>>;

/// The disk after a step was carried out in full.
pub open spec fn after_action(disk: Disk, action: FsAction) -> Disk {
    match action {
        FsAction::WritePrivate { path, data } => disk.insert(path@, data@),
        FsAction::Rename { from, to } => if disk.contains_key(from@) {
            disk.remove(from@).insert(to@, disk[from@])
        } else {
            disk
        },
        FsAction::Restrict { path } => disk,
        FsAction::Remove { path } => disk.remove(path@),
    }
}

/// The disk after the first `done` steps were carried out.
pub open spec fn after_actions(disk: Disk, actions: Seq<FsAction>, done: int) -> Disk
    decreases done,
{
    if done <= 0 || done > actions.len() {
        disk
    } else {
        after_action(after_actions(disk, actions, done - 1), actions[done - 1])
    }
}

/// Whether `disk` is a state in which an interruption during step `at` may
/// leave the files: a write that was cut short leaves anything at all in
/// the file it was writing; a rename and a change of permissions either
/// happened or did not.
pub open spec fn interrupted_at(start: Disk, actions: Seq<FsAction>, at: int, disk: Disk) -> bool {
    let before = after_actions(start, actions, at);
    &&& 0 <= at < actions.len()
    &&& match actions[at] {
        FsAction::WritePrivate { path, data } => exists|partial: Seq<u8>|
            disk == #[trigger] before.insert(path@, partial),
        _ => disk == before || disk == after_action(before, actions[at]),
    }
}

/// The steps that replace the file at `path` by `data`: everything is
/// written to a temporary file beside it, which is then renamed over it.
pub fn atomic_write(path: &str, data: Vec<u8>) -> (actions: Vec<FsAction>)
    ensures
        actions@.len() == 3,
        actions@[0] matches FsAction::WritePrivate { path: p, data: d } && p@ == temp_path_spec(
            path@,
        ) && d@ == data@,
        actions@[1] matches FsAction::Rename { from, to } && from@ == temp_path_spec(path@) && to@
            == path@,
        actions@[2] matches FsAction::Restrict { path: p } && p@ == path@,
{
    let mut actions: Vec<FsAction> = Vec::new();
    actions.push(FsAction::WritePrivate { path: temp_path(path), data });
    actions.push(FsAction::Rename { from: temp_path(path), to: String::from_str(path) });
    actions.push(FsAction::Restrict { path: String::from_str(path) });
    actions
}

/// The step that tidies up after a replacement of `path` that failed half
/// way: the temporary file is removed. The file itself is not touched.
pub fn atomic_write_cleanup(path: &str) -> (action: FsAction)
    ensures
        action matches FsAction::Remove { path: p } && p@ == temp_path_spec(path@),
        forall|disk: Disk|
            #![trigger after_action(disk, action)]
            after_action(disk, action).contains_key(path@) == disk.contains_key(path@) && (
            disk.contains_key(path@) ==> after_action(disk, action)[path@] == disk[path@]),
{
    FsAction::Remove { path: temp_path(path) }
}

/// Whether a list of steps is the replacement of `path` by `data`.
pub open spec fn is_atomic_write(actions: Seq<FsAction>, path: Seq<char>, data: Seq<u8>) -> bool {
    &&& actions.len() == 3
    &&& actions[0] matches FsAction::WritePrivate { path: p, data: d }
    &&& p@ == temp_path_spec(path)
    &&& d@ == data
    &&& actions[1] matches FsAction::Rename { from, to }
    &&& from@ == temp_path_spec(path)
    &&& to@ == path
    &&& actions[2] matches FsAction::Restrict { path: restricted }
    &&& restricted@ == path
}

/// Whether the file at `path` is as it was on `start` or holds all of
/// `data`.
pub open spec fn holds_old_or_new(start: Disk, disk: Disk, path: Seq<char>, data: Seq<u8>) -> bool {
    ||| disk.contains_key(path) && disk[path] == data
    ||| disk.contains_key(path) && start.contains_key(path) && disk[path] == start[path]
    ||| !disk.contains_key(path) && !start.contains_key(path)
}

/// Wherever the replacement of a file stops, be it between two steps or in
/// the middle of one, the file holds either what it held before or all of
/// the new data; the temporary file is never at the file's own path. Once
/// every step is done, the file holds the new data and the temporary file
/// is gone.
pub proof fn lemma_atomic_write(
    start: Disk,
    actions: Seq<FsAction>,
    path: Seq<char>,
    data: Seq<u8>,
    disk: Disk,
)
    requires
        is_atomic_write(actions, path, data),
        (exists|done: int| 0 <= done <= 3 && disk == after_actions(start, actions, done)) || (
        exists|at: int| interrupted_at(start, actions, at, disk)),
    ensures
        temp_path_spec(path) != path,
        holds_old_or_new(start, disk, path, data),
        after_actions(start, actions, 3).contains_key(path),
        after_actions(start, actions, 3)[path] == data,
        !after_actions(start, actions, 3).contains_key(temp_path_spec(path)),
{
    let temp = temp_path_spec(path);
    assert(temp != path) by {
        reveal_strlit(".tmp");
        assert(temp.len() == path.len() + 4);
    }
    let d0 = after_actions(start, actions, 0);
    let d1 = after_actions(start, actions, 1);
    let d2 = after_actions(start, actions, 2);
    let d3 = after_actions(start, actions, 3);
    assert(d0 == start);
    assert(d1 == start.insert(temp, data));
    assert(d2 == d1.remove(temp).insert(path, data));
    assert(d3 == d2);
    if exists|done: int| 0 <= done <= 3 && disk == after_actions(start, actions, done) {
        let done = choose|done: int| 0 <= done <= 3 && disk == after_actions(start, actions, done);
        assert(done == 0 || done == 1 || done == 2 || done == 3);
    } else {
        let at = choose|at: int| interrupted_at(start, actions, at, disk);
        assert(at == 0 || at == 1 || at == 2);
        if at == 0 {
            let partial = choose|partial: Seq<u8>| disk == #[trigger] d0.insert(temp, partial);
            assert(disk == d0.insert(temp, partial));
        }
    }
}

} // verus!
