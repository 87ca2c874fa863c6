//! Prompt Formatter: composes head display, dirty markers and operation
//! state into the final one-line summary, with the rebase-specific layout
//! when a rebase descriptor is available and graceful fallback to the plain
//! layout when it is not.

use crate::detect::{
    branch_view, detect_rebase, detected_branch, detected_kind, detected_step, detected_total,
    detection_succeeds, is_rebase_state, OperationState, RebaseDescriptor, RebaseKind,
    RebaseProbe,
};
use crate::head::{format_head, head_display, HeadLookup};
use crate::status::{clean_flags, dirty_flags, dirty_flags_spec, dirty_markers, marker_seq,
    DirtyFlags};
use vstd::prelude::*;
use vstd::string::StringExecFns;

verus! {

/// The label of a plain operation state. Every state has exactly one label;
/// the revert pair, the cherry-pick pair, the three rebase-family states and
/// the two mailbox states each collapse onto one.
pub open spec fn state_label_spec(st: OperationState) -> Seq<char> {
    match st {
        OperationState::Clean => ""@,
        OperationState::Merge => "MERGE"@,
        OperationState::Revert => "REVERT"@,
        OperationState::RevertSequence => "REVERT"@,
        OperationState::CherryPick => "CHERRY-PICK"@,
        OperationState::CherryPickSequence => "CHERRY-PICK"@,
        OperationState::Bisect => "BISECT"@,
        OperationState::Rebase => "REBASE"@,
        OperationState::RebaseInteractive => "REBASE"@,
        OperationState::RebaseMerge => "REBASE"@,
        OperationState::ApplyMailbox => "MAILBOX"@,
        OperationState::ApplyMailboxOrRebase => "MAILBOX"@,
    }
}

/// Renders the label of a plain operation state.
pub fn state_label(st: OperationState) -> (r: String)
    ensures
        r@ == state_label_spec(st),
{
    match st {
        OperationState::Clean => String::from_str(""),
        OperationState::Merge => String::from_str("MERGE"),
        OperationState::Revert => String::from_str("REVERT"),
        OperationState::RevertSequence => String::from_str("REVERT"),
        OperationState::CherryPick => String::from_str("CHERRY-PICK"),
        OperationState::CherryPickSequence => String::from_str("CHERRY-PICK"),
        OperationState::Bisect => String::from_str("BISECT"),
        OperationState::Rebase => String::from_str("REBASE"),
        OperationState::RebaseInteractive => String::from_str("REBASE"),
        OperationState::RebaseMerge => String::from_str("REBASE"),
        OperationState::ApplyMailbox => String::from_str("MAILBOX"),
        OperationState::ApplyMailboxOrRebase => String::from_str("MAILBOX"),
    }
}

/// The label of a rebase flavour, used only inside the rebase layout.
pub open spec fn kind_label_spec(k: RebaseKind) -> Seq<char> {
    match k {
        RebaseKind::Plain => "REBASE"@,
        RebaseKind::Interactive => "REBASE-i"@,
        RebaseKind::Merge => "REBASE-m"@,
        RebaseKind::ApplyMerge => "AM"@,
        RebaseKind::ApplyMergeRebase => "AM/REBASE"@,
    }
}

/// Renders the label of a rebase flavour.
pub fn rebase_kind_label(k: RebaseKind) -> (r: String)
    ensures
        r@ == kind_label_spec(k),
{
    match k {
        RebaseKind::Plain => String::from_str("REBASE"),
        RebaseKind::Interactive => String::from_str("REBASE-i"),
        RebaseKind::Merge => String::from_str("REBASE-m"),
        RebaseKind::ApplyMerge => String::from_str("AM"),
        RebaseKind::ApplyMergeRebase => String::from_str("AM/REBASE"),
    }
}

/// The dirty signals of a status enumeration that may have failed: a failed
/// enumeration degrades silently to the all-clear signals.
pub open spec fn statuses_flags(entries: Option<Vec<u32>>) -> DirtyFlags {
    match entries {
        Option::Some(v) => dirty_flags_spec(v@),
        Option::None => clean_flags(),
    }
}

/// Renders the dirty markers of a status enumeration outcome; a failed
/// enumeration contributes no markers.
pub fn format_statuses(entries: &Option<Vec<u32>>) -> (r: String)
    ensures
        r@ == marker_seq(statuses_flags(*entries)),
{
    match entries {
        Option::Some(v) => {
            let f = dirty_flags(v);
            dirty_markers(&f)
        },
        Option::None => {
            let f = DirtyFlags { index_changed: false, worktree_changed: false, worktree_added: false };
            dirty_markers(&f)
        },
    }
}

/// The plain layout: head display, then markers, then state label, joined
/// with no separators.
pub open spec fn plain_display(
    head: HeadLookup,
    flags: DirtyFlags,
    st: OperationState,
) -> Seq<char> {
    head_display(head) + marker_seq(flags) + state_label_spec(st)
}

/// The layout a rebase descriptor renders as, for given markers: the branch
/// display if any, the markers, then a bar, the flavour label, a space, and
/// the step and total counters joined by a slash.
pub open spec fn descriptor_display(d: RebaseDescriptor, markers: Seq<char>) -> Seq<char> {
    branch_view(d.branch) + markers + "|"@ + kind_label_spec(d.kind) + " "@ + d.step@ + "/"@
        + d.total@
}

/// The rebase layout of a successfully detected snapshot.
pub open spec fn rebase_display(p: RebaseProbe, flags: DirtyFlags) -> Seq<char> {
    detected_branch(p) + marker_seq(flags) + "|"@ + kind_label_spec(detected_kind(p)) + " "@
        + detected_step(p) + "/"@ + detected_total(p)
}

/// What the rebase path renders for a detection outcome: the rebase layout
/// of a descriptor, or the plain layout as fallback when detection failed.
pub open spec fn rebase_outcome_display(
    info: Option<RebaseDescriptor>,
    markers: Seq<char>,
    head: Seq<char>,
    st: OperationState,
) -> Seq<char> {
    match info {
        Option::Some(d) => descriptor_display(d, markers),
        Option::None => head + markers + state_label_spec(st),
    }
}

/// Renders the rebase path from a detection outcome, falling back to the
/// plain layout when no descriptor is available; the reason detection failed
/// never reaches the rendered string.
pub fn format_rebase(
    info: &Option<RebaseDescriptor>,
    markers: &String,
    head: &String,
    st: OperationState,
) -> (r: String)
    ensures
        r@ == rebase_outcome_display(*info, markers@, head@, st),
{
    match info {
        Option::Some(d) => {
            let mut r = match &d.branch {
                Option::Some(b) => b.clone(),
                Option::None => String::new(),
            };
            r.append(markers.as_str());
            r.append("|");
            let kind = rebase_kind_label(d.kind);
            r.append(kind.as_str());
            r.append(" ");
            r.append(d.step.as_str());
            r.append("/");
            r.append(d.total.as_str());
            proof {
                assert(r@ =~= descriptor_display(*d, markers@));
            }
            r
        },
        Option::None => {
            let mut r = head.clone();
            r.append(markers.as_str());
            let label = state_label(st);
            r.append(label.as_str());
            r
        },
    }
}

/// The final one-line summary of a repository snapshot: the rebase layout
/// when the state reports a rebase and the metadata snapshot yields a
/// descriptor, and the plain layout otherwise.
pub open spec fn prompt_display(
    head: HeadLookup,
    flags: DirtyFlags,
    st: OperationState,
    p: RebaseProbe,
) -> Seq<char> {
    if is_rebase_state(st) && detection_succeeds(p) {
        rebase_display(p, flags)
    } else {
        plain_display(head, flags, st)
    }
}

/// Drives the whole pipeline on one repository snapshot: resolves the head
/// display, aggregates the dirty markers, and renders either the rebase
/// layout or the plain layout, with every failure degrading to a defined
/// textual fallback.
pub fn format_prompt(
    head: &HeadLookup,
    entries: &Option<Vec<u32>>,
    st: OperationState,
    probe: &RebaseProbe,
) -> (r: String)
    ensures
        r@ == prompt_display(*head, statuses_flags(*entries), st, *probe),
{
    let head_str = format_head(head);
    let markers = format_statuses(entries);
    match st {
        OperationState::Rebase | OperationState::RebaseInteractive => {
            let info = detect_rebase(probe);
            format_rebase(&info, &markers, &head_str, st)
        },
        _ => {
            let mut r = head_str;
            r.append(markers.as_str());
            let label = state_label(st);
            r.append(label.as_str());
            r
        },
    }
}

/// Rendering is a pure function of the snapshot: any two summaries computed
/// from the same head lookup, dirty signals, state and metadata snapshot are
/// the same string, so an unmodified repository renders identically on every
/// run.
pub proof fn lemma_prompt_idempotent(
    head: HeadLookup,
    flags: DirtyFlags,
    st: OperationState,
    p: RebaseProbe,
    r1: Seq<char>,
    r2: Seq<char>,
)
    requires
        r1 == prompt_display(head, flags, st, p),
        r2 == prompt_display(head, flags, st, p),
    ensures
        r1 == r2,
{
}

/// The plain-state label table is exhaustive and total: every state carries
/// exactly one of the seven labels, and the states that share a label are
/// exactly the revert pair, the cherry-pick pair, the rebase-family triple
/// and the mailbox pair.
pub proof fn lemma_state_label_total(st: OperationState)
    ensures
        state_label_spec(st) == ""@ <==> st is Clean,
        state_label_spec(st) == "MERGE"@ <==> st is Merge,
        state_label_spec(st) == "REVERT"@ <==> (st is Revert || st is RevertSequence),
        state_label_spec(st) == "CHERRY-PICK"@ <==> (st is CherryPick
            || st is CherryPickSequence),
        state_label_spec(st) == "BISECT"@ <==> st is Bisect,
        state_label_spec(st) == "REBASE"@ <==> (st is Rebase || st is RebaseInteractive
            || st is RebaseMerge),
        state_label_spec(st) == "MAILBOX"@ <==> (st is ApplyMailbox
            || st is ApplyMailboxOrRebase),
{
    reveal_strlit("");
    reveal_strlit("MERGE");
    reveal_strlit("REVERT");
    reveal_strlit("CHERRY-PICK");
    reveal_strlit("BISECT");
    reveal_strlit("REBASE");
    reveal_strlit("MAILBOX");
    assert(""@.len() == 0);
    assert("MERGE"@.len() == 5);
    assert("REVERT"@.len() == 6);
    assert("CHERRY-PICK"@.len() == 11);
    assert("BISECT"@.len() == 6);
    assert("REBASE"@.len() == 6);
    assert("MAILBOX"@.len() == 7);
    assert("REVERT"@[0] == 'R');
    assert("BISECT"@[0] == 'B');
    assert("REVERT"@[2] == 'V');
    assert("REBASE"@[2] == 'B');
}

} // verus!
