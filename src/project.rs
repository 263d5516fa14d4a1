use vstd::prelude::*;

verus! {

/// Message of a path that cannot be a project root.
pub const NOT_A_DIRECTORY: &'static str = "Path does not exist or is not a directory";

/// Message of a directory that holds a `game` subdirectory.
pub const VALID_PROJECT: &'static str = "Valid Ren'Py project";

/// Message of a directory without a `game` subdirectory.
pub const MISSING_GAME_DIR: &'static str = "Not a valid Ren'Py project. Missing 'game' directory";

/// What a metadata lookup (following symlinks) observed at a path.
#[derive(PartialEq, Eq, Structural, Clone, Copy, Debug)]
pub enum EntryKind {
    /// Nothing could be looked up there (absent, or not accessible).
    Missing,
    /// Something that is not a directory: a regular file, a device, ...
    NotDirectory,
    /// A directory.
    Directory,
}

/// The answer to "is this a Ren'Py project?": a flag and a human-readable reason.
pub struct ValidationResult {
    pub is_valid: bool,
    pub message: String,
}

impl View for ValidationResult {
    type V = (bool, Seq<char>);

    open spec fn view(&self) -> (bool, Seq<char>) {
        (self.is_valid, self.message@)
    }
}

/// The result for a candidate root observed as `root` whose `game` child was
/// observed as `game`.
pub open spec fn verdict(root: EntryKind, game: EntryKind) -> (bool, Seq<char>) {
    if root != EntryKind::Directory {
        (false, NOT_A_DIRECTORY@)
    } else if game == EntryKind::Directory {
        (true, VALID_PROJECT@)
    } else {
        (false, MISSING_GAME_DIR@)
    }
}

/// Decides from what was observed at a candidate root and at its `game` child
/// (the path that [`game_dir_path`] forms) whether the root is a Ren'Py project.
/// The `game` observation matters only when the root is a directory.
pub fn validate_renpy_project(root: EntryKind, game: EntryKind) -> (r: ValidationResult)
    ensures
        r@ == verdict(root, game),
{
    if root != EntryKind::Directory {
        return ValidationResult { is_valid: false, message: String::from_str(NOT_A_DIRECTORY) };
    }
    if game == EntryKind::Directory {
        return ValidationResult { is_valid: true, message: String::from_str(VALID_PROJECT) };
    }
    ValidationResult { is_valid: false, message: String::from_str(MISSING_GAME_DIR) }
}

/// The name of the subdirectory that marks a Ren'Py project.
pub const GAME_DIR: &'static str = "game";

/// The path of the `game` child of `path`, formed as `Path::join` forms it with
/// `/` as the separator: an empty path gives the bare name, and no second
/// separator is added after a trailing one.
pub open spec fn game_dir_of(path: Seq<char>) -> Seq<char> {
    if path.len() == 0 {
        GAME_DIR@
    } else if path.last() == '/' {
        path + GAME_DIR@
    } else {
        path + seq!['/'] + GAME_DIR@
    }
}

/// The path at which the `game` subdirectory of `path` is looked up.
pub fn game_dir_path(path: &str) -> (r: String)
    ensures
        r@ == game_dir_of(path@),
{
    let n = path.unicode_len();
    if n == 0 {
        return String::from_str(GAME_DIR);
    }
    let mut r = String::from_str(path);
    if path.get_char(n - 1) != '/' {
        r.append("/");
        proof {
            reveal_strlit("/");
        }
    }
    r.append(GAME_DIR);
    r
}

} // verus!
