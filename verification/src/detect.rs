//! Operation-State Detector: classifies the repository's current multi-step
//! operation from its state value and, for rebases, from a snapshot of the
//! on-disk rebase metadata, producing a structured rebase descriptor when a
//! rebase is genuinely in progress and its metadata is readable.

use crate::head::{format_head, head_display, HeadLookup};
use vstd::prelude::*;

verus! {

/// The repository's current operation, as its state query reports it.
#[derive(Clone, Copy, PartialEq, Eq, Structural, Debug)]
pub enum OperationState {
    Clean,
    Merge,
    Revert,
    RevertSequence,
    CherryPick,
    CherryPickSequence,
    Bisect,
    Rebase,
    RebaseInteractive,
    RebaseMerge,
    ApplyMailbox,
    ApplyMailboxOrRebase,
}

/// The flavour of an in-progress rebase, inferred from the marker files of
/// its metadata directory.
#[derive(Clone, Copy, PartialEq, Eq, Structural, Debug)]
pub enum RebaseKind {
    Plain,
    Interactive,
    Merge,
    ApplyMerge,
    ApplyMergeRebase,
}

/// Step, total, kind and original branch of an in-progress rebase. Step and
/// total are the raw trimmed texts of the counter files, kept opaque rather
/// than parsed, to tolerate whatever format the metadata uses.
#[derive(Debug)]
pub struct RebaseDescriptor {
    /// Display of the saved original branch; absent when the saved name does
    /// not resolve to anything displayable.
    pub branch: Option<String>,
    /// Raw text of the step counter.
    pub step: String,
    /// Raw text of the total counter.
    pub total: String,
    /// Which flavour of rebase the marker files indicate.
    pub kind: RebaseKind,
}

/// A snapshot of the rebase metadata inside the repository's control
/// directory: for each of the two marker directories, whether it exists,
/// the trimmed contents of its three metadata files (absent on any read
/// failure), the lookup outcome of the saved branch name, and the marker
/// files that tell the rebase flavours apart.
#[derive(Debug)]
pub struct RebaseProbe {
    /// Whether the merge-rebase directory `rebase-merge` exists.
    pub merge_dir_present: bool,
    /// Trimmed contents of `rebase-merge/head-name`, if readable.
    pub merge_head_name: Option<String>,
    /// Trimmed contents of `rebase-merge/msgnum`, if readable.
    pub merge_step: Option<String>,
    /// Trimmed contents of `rebase-merge/end`, if readable.
    pub merge_total: Option<String>,
    /// Whether `rebase-merge/interactive` exists.
    pub merge_interactive: bool,
    /// Outcome of looking up the reference named by `merge_head_name`.
    pub merge_branch: HeadLookup,
    /// Whether the patch-apply directory `rebase-apply` exists.
    pub apply_dir_present: bool,
    /// Trimmed contents of `rebase-apply/head-name`, if readable.
    pub apply_head_name: Option<String>,
    /// Trimmed contents of `rebase-apply/next`, if readable.
    pub apply_step: Option<String>,
    /// Trimmed contents of `rebase-apply/last`, if readable.
    pub apply_total: Option<String>,
    /// Whether `rebase-apply/rebasing` exists.
    pub apply_rebasing: bool,
    /// Whether `rebase-apply/applying` exists.
    pub apply_applying: bool,
    /// Outcome of looking up the reference named by `apply_head_name`.
    pub apply_branch: HeadLookup,
}

/// Whether the state value reports a rebase that calls for metadata
/// detection.
pub open spec fn is_rebase_state(st: OperationState) -> bool {
    st is Rebase || st is RebaseInteractive
}

/// Whether the three metadata files of the merge-rebase directory were all
/// readable.
pub open spec fn merge_files_ok(p: RebaseProbe) -> bool {
    p.merge_head_name is Some && p.merge_step is Some && p.merge_total is Some
}

/// Whether the three metadata files of the patch-apply directory were all
/// readable.
pub open spec fn apply_files_ok(p: RebaseProbe) -> bool {
    p.apply_head_name is Some && p.apply_step is Some && p.apply_total is Some
}

/// Whether detection succeeds on a snapshot: the first marker directory that
/// exists wins, in the fixed order merge-rebase before patch-apply, and all
/// three of its metadata files must be readable; with neither directory
/// present no rebase is in progress and detection fails.
pub open spec fn detection_succeeds(p: RebaseProbe) -> bool {
    if p.merge_dir_present {
        merge_files_ok(p)
    } else if p.apply_dir_present {
        apply_files_ok(p)
    } else {
        false
    }
}

/// The rebase flavour of a successfully detected snapshot: inside the
/// merge-rebase directory the `interactive` marker decides; inside the
/// patch-apply directory `rebasing`, then `applying`, then neither.
pub open spec fn detected_kind(p: RebaseProbe) -> RebaseKind
    recommends
        detection_succeeds(p),
{
    if p.merge_dir_present {
        if p.merge_interactive {
            RebaseKind::Interactive
        } else {
            RebaseKind::Merge
        }
    } else {
        if p.apply_rebasing {
            RebaseKind::Plain
        } else if p.apply_applying {
            RebaseKind::ApplyMerge
        } else {
            RebaseKind::ApplyMergeRebase
        }
    }
}

/// The step counter of a successfully detected snapshot.
pub open spec fn detected_step(p: RebaseProbe) -> Seq<char>
    recommends
        detection_succeeds(p),
{
    if p.merge_dir_present {
        p.merge_step->0@
    } else {
        p.apply_step->0@
    }
}

/// The total counter of a successfully detected snapshot.
pub open spec fn detected_total(p: RebaseProbe) -> Seq<char>
    recommends
        detection_succeeds(p),
{
    if p.merge_dir_present {
        p.merge_total->0@
    } else {
        p.apply_total->0@
    }
}

/// The display of the saved original branch of a successfully detected
/// snapshot, as the Ref Resolver renders its lookup outcome.
pub open spec fn detected_branch(p: RebaseProbe) -> Seq<char>
    recommends
        detection_succeeds(p),
{
    if p.merge_dir_present {
        head_display(p.merge_branch)
    } else {
        head_display(p.apply_branch)
    }
}

/// The display a descriptor's branch field stands for: the saved string, or
/// nothing when no branch was resolvable.
pub open spec fn branch_view(b: Option<String>) -> Seq<char> {
    match b {
        Option::Some(s) => s@,
        Option::None => Seq::<char>::empty(),
    }
}

/// Probes a metadata snapshot for an in-progress rebase. Returns a full
/// descriptor exactly when detection succeeds on the snapshot, and nothing on
/// any failure: a partial descriptor is never returned. The descriptor's
/// branch is present exactly when the saved branch name resolves to a
/// non-empty display.
pub fn detect_rebase(p: &RebaseProbe) -> (r: Option<RebaseDescriptor>)
    ensures
        r is Some <==> detection_succeeds(*p),
        (r matches Some(d) ==> {
            &&& d.kind == detected_kind(*p)
            &&& d.step@ == detected_step(*p)
            &&& d.total@ == detected_total(*p)
            &&& branch_view(d.branch) == detected_branch(*p)
            &&& (d.branch is Some <==> detected_branch(*p).len() != 0)
        }),
{
    if p.merge_dir_present {
        match (&p.merge_head_name, &p.merge_step, &p.merge_total) {
            (Option::Some(_), Option::Some(step), Option::Some(total)) => {
                let branch = format_head(&p.merge_branch);
                let branch = if branch.as_str().is_empty() {
                    Option::None
                } else {
                    Option::Some(branch)
                };
                let kind = if p.merge_interactive {
                    RebaseKind::Interactive
                } else {
                    RebaseKind::Merge
                };
                Option::Some(
                    RebaseDescriptor { branch, step: step.clone(), total: total.clone(), kind },
                )
            },
            _ => Option::None,
        }
    } else if p.apply_dir_present {
        match (&p.apply_head_name, &p.apply_step, &p.apply_total) {
            (Option::Some(_), Option::Some(step), Option::Some(total)) => {
                let branch = format_head(&p.apply_branch);
                let branch = if branch.as_str().is_empty() {
                    Option::None
                } else {
                    Option::Some(branch)
                };
                let kind = if p.apply_rebasing {
                    RebaseKind::Plain
                } else if p.apply_applying {
                    RebaseKind::ApplyMerge
                } else {
                    RebaseKind::ApplyMergeRebase
                };
                Option::Some(
                    RebaseDescriptor { branch, step: step.clone(), total: total.clone(), kind },
                )
            },
            _ => Option::None,
        }
    } else {
        Option::None
    }
}

} // verus!
