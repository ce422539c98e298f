//! Owned pose estimates: a rotation and a translation matrix whose entries
//! are IEEE-754 double bit patterns, with shapes fixed by type invariants.

mod matrix;
mod pose;

pub use matrix::{Matd, MatdView};
pub use pose::{lemma_debug_text_names_fields, occurs_at, pose_debug_spec, pose_debug_text, Pose, PoseView};
