//! Engine for cleaning up git branches whose changes have already landed on a
//! base branch: classification of branches as merged (by ancestry, by squash,
//! or never pushed), filtering by an ignore list, and planning of the local
//! and remote deletion commands. All repository queries and deletions are
//! performed by the surrounding binary; this library makes every decision.

pub mod branches;
pub mod options;
pub mod orchestrate;
