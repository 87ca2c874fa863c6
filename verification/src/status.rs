//! Status Aggregator: reduces the per-file status entries of one repository
//! enumeration into the three dirty signals the prompt shows.

use vstd::prelude::*;
use vstd::string::StringExecFns;

verus! {

/// Bit of a status entry: file newly added to the index.
pub const STATUS_INDEX_NEW: u32 = 0x1;

/// Bit of a status entry: file modified in the index.
pub const STATUS_INDEX_MODIFIED: u32 = 0x2;

/// Bit of a status entry: file deleted from the index.
pub const STATUS_INDEX_DELETED: u32 = 0x4;

/// Bit of a status entry: file renamed in the index.
pub const STATUS_INDEX_RENAMED: u32 = 0x8;

/// Bit of a status entry: file type changed in the index.
pub const STATUS_INDEX_TYPECHANGE: u32 = 0x10;

/// Bit of a status entry: untracked file in the working tree.
pub const STATUS_WT_NEW: u32 = 0x80;

/// Bit of a status entry: file modified in the working tree.
pub const STATUS_WT_MODIFIED: u32 = 0x100;

/// Bit of a status entry: file deleted in the working tree.
pub const STATUS_WT_DELETED: u32 = 0x200;

/// Bit of a status entry: file type changed in the working tree.
pub const STATUS_WT_TYPECHANGE: u32 = 0x400;

/// Bit of a status entry: file renamed in the working tree.
pub const STATUS_WT_RENAMED: u32 = 0x800;

/// The three independent dirty signals of one repository snapshot.
#[derive(Clone, Copy, PartialEq, Eq, Structural, Debug)]
pub struct DirtyFlags {
    /// Staged additions, modifications, deletions, renames or type changes.
    pub index_changed: bool,
    /// Unstaged modifications, deletions, renames or type changes.
    pub worktree_changed: bool,
    /// Untracked files in the working tree.
    pub worktree_added: bool,
}

/// The all-clear value: no dirty signal set.
pub open spec fn clean_flags() -> DirtyFlags {
    DirtyFlags { index_changed: false, worktree_changed: false, worktree_added: false }
}

/// Whether one status entry carries a staged (index) change.
pub open spec fn entry_changes_index(s: u32) -> bool {
    s & STATUS_INDEX_NEW != 0 || s & STATUS_INDEX_MODIFIED != 0 || s & STATUS_INDEX_DELETED != 0
        || s & STATUS_INDEX_RENAMED != 0 || s & STATUS_INDEX_TYPECHANGE != 0
}

/// Whether one status entry carries an unstaged working-tree change.
pub open spec fn entry_changes_worktree(s: u32) -> bool {
    s & STATUS_WT_MODIFIED != 0 || s & STATUS_WT_DELETED != 0 || s & STATUS_WT_RENAMED != 0
        || s & STATUS_WT_TYPECHANGE != 0
}

/// Whether one status entry is an untracked file.
pub open spec fn entry_added_in_worktree(s: u32) -> bool {
    s & STATUS_WT_NEW != 0
}

/// Whether some entry of the list carries a staged change.
pub open spec fn some_entry_changes_index(entries: Seq<u32>) -> bool {
    exists|i: int| 0 <= i < entries.len() && entry_changes_index(entries[i])
}

/// Whether some entry of the list carries an unstaged change.
pub open spec fn some_entry_changes_worktree(entries: Seq<u32>) -> bool {
    exists|i: int| 0 <= i < entries.len() && entry_changes_worktree(entries[i])
}

/// Whether some entry of the list is an untracked file.
pub open spec fn some_entry_added_in_worktree(entries: Seq<u32>) -> bool {
    exists|i: int| 0 <= i < entries.len() && entry_added_in_worktree(entries[i])
}

/// The dirty signals of a whole status list: each flag is set exactly when
/// some entry contributes to it, so the result does not depend on the order
/// of the entries.
pub open spec fn dirty_flags_spec(entries: Seq<u32>) -> DirtyFlags {
    DirtyFlags {
        index_changed: some_entry_changes_index(entries),
        worktree_changed: some_entry_changes_worktree(entries),
        worktree_added: some_entry_added_in_worktree(entries),
    }
}

fn changes_index(s: u32) -> (r: bool)
    ensures
        r == entry_changes_index(s),
{
    s & STATUS_INDEX_NEW != 0 || s & STATUS_INDEX_MODIFIED != 0 || s & STATUS_INDEX_DELETED != 0
        || s & STATUS_INDEX_RENAMED != 0 || s & STATUS_INDEX_TYPECHANGE != 0
}

fn changes_worktree(s: u32) -> (r: bool)
    ensures
        r == entry_changes_worktree(s),
{
    s & STATUS_WT_MODIFIED != 0 || s & STATUS_WT_DELETED != 0 || s & STATUS_WT_RENAMED != 0
        || s & STATUS_WT_TYPECHANGE != 0
}

fn added_in_worktree(s: u32) -> (r: bool)
    ensures
        r == entry_added_in_worktree(s),
{
    s & STATUS_WT_NEW != 0
}

/// Reduces a status list to its three dirty signals in one pass.
pub fn dirty_flags(entries: &Vec<u32>) -> (f: DirtyFlags)
    ensures
        f == dirty_flags_spec(entries@),
{
    let mut index_changed = false;
    let mut worktree_changed = false;
    let mut worktree_added = false;
    let mut i: usize = 0;
    while i < entries.len()
        invariant
            i <= entries.len(),
            index_changed == (exists|j: int| 0 <= j < i && entry_changes_index(entries@[j])),
            worktree_changed == (exists|j: int|
                0 <= j < i && entry_changes_worktree(entries@[j])),
            worktree_added == (exists|j: int|
                0 <= j < i && entry_added_in_worktree(entries@[j])),
        decreases entries.len() - i,
    {
        let s = entries[i];
        if changes_index(s) {
            index_changed = true;
        }
        if changes_worktree(s) {
            worktree_changed = true;
        }
        if added_in_worktree(s) {
            worktree_added = true;
        }
        i = i + 1;
    }
    DirtyFlags { index_changed, worktree_changed, worktree_added }
}

proof fn lemma_index_signal_to_permutation(a: Seq<u32>, b: Seq<u32>)
    requires
        a.to_multiset() == b.to_multiset(),
        some_entry_changes_index(a),
    ensures
        some_entry_changes_index(b),
{
    broadcast use vstd::seq_lib::group_to_multiset_ensures;

    let i = choose|i: int| 0 <= i < a.len() && entry_changes_index(a[i]);
    assert(a.contains(a[i]));
    assert(a.to_multiset().count(a[i]) > 0);
    assert(b.to_multiset().count(a[i]) > 0);
    assert(b.contains(a[i]));
    let j = choose|j: int| 0 <= j < b.len() && b[j] == a[i];
    assert(0 <= j < b.len() && entry_changes_index(b[j]));
}

proof fn lemma_worktree_signal_to_permutation(a: Seq<u32>, b: Seq<u32>)
    requires
        a.to_multiset() == b.to_multiset(),
        some_entry_changes_worktree(a),
    ensures
        some_entry_changes_worktree(b),
{
    broadcast use vstd::seq_lib::group_to_multiset_ensures;

    let i = choose|i: int| 0 <= i < a.len() && entry_changes_worktree(a[i]);
    assert(a.contains(a[i]));
    assert(a.to_multiset().count(a[i]) > 0);
    assert(b.to_multiset().count(a[i]) > 0);
    assert(b.contains(a[i]));
    let j = choose|j: int| 0 <= j < b.len() && b[j] == a[i];
    assert(0 <= j < b.len() && entry_changes_worktree(b[j]));
}

proof fn lemma_added_signal_to_permutation(a: Seq<u32>, b: Seq<u32>)
    requires
        a.to_multiset() == b.to_multiset(),
        some_entry_added_in_worktree(a),
    ensures
        some_entry_added_in_worktree(b),
{
    broadcast use vstd::seq_lib::group_to_multiset_ensures;

    let i = choose|i: int| 0 <= i < a.len() && entry_added_in_worktree(a[i]);
    assert(a.contains(a[i]));
    assert(a.to_multiset().count(a[i]) > 0);
    assert(b.to_multiset().count(a[i]) > 0);
    assert(b.contains(a[i]));
    let j = choose|j: int| 0 <= j < b.len() && b[j] == a[i];
    assert(0 <= j < b.len() && entry_added_in_worktree(b[j]));
}

/// The aggregator is order-independent: two status lists that hold the same
/// entries, in any order and with the same multiplicities, yield the same
/// dirty signals.
pub proof fn lemma_dirty_flags_order_independent(a: Seq<u32>, b: Seq<u32>)
    requires
        a.to_multiset() == b.to_multiset(),
    ensures
        dirty_flags_spec(a) == dirty_flags_spec(b),
{
    if some_entry_changes_index(a) {
        lemma_index_signal_to_permutation(a, b);
    }
    if some_entry_changes_index(b) {
        lemma_index_signal_to_permutation(b, a);
    }
    if some_entry_changes_worktree(a) {
        lemma_worktree_signal_to_permutation(a, b);
    }
    if some_entry_changes_worktree(b) {
        lemma_worktree_signal_to_permutation(b, a);
    }
    if some_entry_added_in_worktree(a) {
        lemma_added_signal_to_permutation(a, b);
    }
    if some_entry_added_in_worktree(b) {
        lemma_added_signal_to_permutation(b, a);
    }
}

/// The marker glyphs of a set of dirty signals, in the fixed order
/// working-tree change, index change, untracked file; an absent signal
/// contributes no glyph.
pub open spec fn marker_seq(f: DirtyFlags) -> Seq<char> {
    (if f.worktree_changed {
        "!"@
    } else {
        Seq::<char>::empty()
    }) + (if f.index_changed {
        "+"@
    } else {
        Seq::<char>::empty()
    }) + (if f.worktree_added {
        "%"@
    } else {
        Seq::<char>::empty()
    })
}

/// Renders the dirty-marker glyphs of a set of signals.
pub fn dirty_markers(f: &DirtyFlags) -> (r: String)
    ensures
        r@ == marker_seq(*f),
{
    let mut r = String::new();
    if f.worktree_changed {
        r.append("!");
    }
    if f.index_changed {
        r.append("+");
    }
    if f.worktree_added {
        r.append("%");
    }
    proof {
        assert(r@ =~= marker_seq(*f));
    }
    r
}

} // verus!
