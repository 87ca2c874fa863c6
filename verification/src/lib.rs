//! Classifies the state of a version-controlled working tree and renders it as
//! a compact one-line summary for a shell prompt: which ref is checked out,
//! whether the index or working tree is dirty, and whether a multi-step
//! operation (merge, rebase, cherry-pick, revert, bisect, mailbox apply) is in
//! progress and at which step.
//!
//! The library works on plain values read out of the repository beforehand:
//! per-file status bits, the outcome of the head lookup, the repository state,
//! and a snapshot of the on-disk rebase metadata. Everything that touches the
//! repository itself lives outside the library and only hands values in.

pub mod detect;
pub mod head;
pub mod prompt;
pub mod status;
