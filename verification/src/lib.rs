//! Derivation of a one-line repository summary for a shell prompt: the current
//! branch, the abbreviated revision, working-tree status glyphs and the label
//! of any operation in progress.

use vstd::prelude::*;

pub mod commit;
pub mod failure;
pub mod head;
pub mod kind;
pub mod output;
pub mod paint;
pub mod state;
pub mod status;
pub mod summary;
pub mod worktree;
