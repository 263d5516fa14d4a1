//! A filesystem as validation sees it, and what validation answers on it.
use vstd::prelude::*;

use crate::project::{
    game_dir_of, verdict, EntryKind, MISSING_GAME_DIR, NOT_A_DIRECTORY, VALID_PROJECT,
};

verus! {

/// What a metadata lookup of the path string `p` observes on `fs`, a map from
/// the path strings that name something to the kind of what they name.
pub open spec fn kind_at(fs: Map<Seq<char>, EntryKind>, p: Seq<char>) -> EntryKind {
    if fs.contains_key(p) {
        fs[p]
    } else {
        EntryKind::Missing
    }
}

/// The answer for `path` on `fs`: the verdict on what is observed at `path`
/// and at its `game` child. This is what `validate_renpy_project` returns when
/// handed those two observations.
pub open spec fn validation_of(fs: Map<Seq<char>, EntryKind>, path: Seq<char>) -> (bool, Seq<char>) {
    verdict(kind_at(fs, path), kind_at(fs, game_dir_of(path)))
}

/// A path that names nothing is rejected as not being a directory.
pub proof fn lemma_missing_path_rejected(fs: Map<Seq<char>, EntryKind>, path: Seq<char>)
    requires
        !fs.contains_key(path),
    ensures
        validation_of(fs, path) == (false, NOT_A_DIRECTORY@),
{
}

/// A path that names a regular file (or anything else but a directory) is
/// rejected just as a path that names nothing.
pub proof fn lemma_non_directory_rejected(fs: Map<Seq<char>, EntryKind>, path: Seq<char>)
    requires
        kind_at(fs, path) == EntryKind::NotDirectory,
    ensures
        validation_of(fs, path) == (false, NOT_A_DIRECTORY@),
        validation_of(fs, path) == validation_of(fs.remove(path), path),
{
    assert(kind_at(fs.remove(path), path) == EntryKind::Missing);
}

/// A directory with a `game` subdirectory is a valid project.
pub proof fn lemma_game_subdirectory_accepted(fs: Map<Seq<char>, EntryKind>, path: Seq<char>)
    requires
        kind_at(fs, path) == EntryKind::Directory,
        kind_at(fs, game_dir_of(path)) == EntryKind::Directory,
    ensures
        validation_of(fs, path) == (true, VALID_PROJECT@),
{
}

/// A directory with no `game` entry is rejected as missing its `game` directory.
pub proof fn lemma_missing_game_rejected(fs: Map<Seq<char>, EntryKind>, path: Seq<char>)
    requires
        kind_at(fs, path) == EntryKind::Directory,
        !fs.contains_key(game_dir_of(path)),
    ensures
        validation_of(fs, path) == (false, MISSING_GAME_DIR@),
{
}

/// A `game` entry that is not a directory counts for nothing: the directory
/// gets the same answer as if that entry were absent.
pub proof fn lemma_game_file_not_enough(fs: Map<Seq<char>, EntryKind>, path: Seq<char>)
    requires
        kind_at(fs, path) == EntryKind::Directory,
        kind_at(fs, game_dir_of(path)) == EntryKind::NotDirectory,
    ensures
        validation_of(fs, path) == validation_of(fs.remove(game_dir_of(path)), path),
        validation_of(fs, path) == (false, MISSING_GAME_DIR@),
{
    let g = game_dir_of(path);
    reveal_strlit("game");
    assert(g.len() > path.len());
    assert(kind_at(fs.remove(g), path) == EntryKind::Directory);
}

/// The answer depends on nothing but what is observed at the path and at its
/// `game` child; so validating twice on an unchanged filesystem answers the
/// same both times.
pub proof fn lemma_validation_repeatable(
    fs1: Map<Seq<char>, EntryKind>,
    fs2: Map<Seq<char>, EntryKind>,
    path: Seq<char>,
)
    requires
        kind_at(fs1, path) == kind_at(fs2, path),
        kind_at(fs1, game_dir_of(path)) == kind_at(fs2, game_dir_of(path)),
    ensures
        validation_of(fs1, path) == validation_of(fs2, path),
{
}

} // verus!
