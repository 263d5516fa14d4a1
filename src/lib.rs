//! Checks whether a directory looks like a Ren'Py project: a directory that
//! holds a `game` subdirectory.
//!
//! The library itself does no I/O. A caller looks up the candidate path and
//! its `game` child (see [`game_dir_path`]), reports what it observed at each
//! as an [`EntryKind`], and [`validate_renpy_project`] turns the two
//! observations into a [`ValidationResult`]. The module `model` states what
//! the answer is on a whole filesystem and proves the laws it obeys.

mod greeting;
mod model;
mod project;

pub use greeting::{greet, greeting_for};
pub use model::{
    kind_at, lemma_game_file_not_enough, lemma_game_subdirectory_accepted,
    lemma_missing_game_rejected, lemma_missing_path_rejected, lemma_non_directory_rejected,
    lemma_validation_repeatable, validation_of,
};
pub use project::{
    game_dir_of, game_dir_path, validate_renpy_project, verdict, EntryKind, ValidationResult,
    GAME_DIR, MISSING_GAME_DIR, NOT_A_DIRECTORY, VALID_PROJECT,
};
