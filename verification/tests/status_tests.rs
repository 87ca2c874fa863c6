use git_prompt::status::{
    dirty_flags, dirty_markers, DirtyFlags, STATUS_INDEX_DELETED, STATUS_INDEX_MODIFIED,
    STATUS_INDEX_NEW, STATUS_INDEX_RENAMED, STATUS_INDEX_TYPECHANGE, STATUS_WT_DELETED,
    STATUS_WT_MODIFIED, STATUS_WT_NEW, STATUS_WT_RENAMED, STATUS_WT_TYPECHANGE,
};

#[test]
fn flags_all_clear_on_empty_list() {
    let f = dirty_flags(&vec![]);
    assert!(!f.index_changed);
    assert!(!f.worktree_changed);
    assert!(!f.worktree_added);
    assert_eq!(dirty_markers(&f), "");
}

#[test]
fn flags_untracked_only() {
    let f = dirty_flags(&vec![STATUS_WT_NEW]);
    assert!(!f.index_changed);
    assert!(!f.worktree_changed);
    assert!(f.worktree_added);
    assert_eq!(dirty_markers(&f), "%");
}

#[test]
fn flags_staged_only() {
    let f = dirty_flags(&vec![STATUS_INDEX_MODIFIED]);
    assert!(f.index_changed);
    assert!(!f.worktree_changed);
    assert!(!f.worktree_added);
    assert_eq!(dirty_markers(&f), "+");
}

#[test]
fn flags_worktree_modified_only() {
    let f = dirty_flags(&vec![STATUS_WT_MODIFIED]);
    assert!(!f.index_changed);
    assert!(f.worktree_changed);
    assert!(!f.worktree_added);
    assert_eq!(dirty_markers(&f), "!");
}

#[test]
fn every_index_bit_sets_the_index_signal() {
    for bit in [
        STATUS_INDEX_NEW,
        STATUS_INDEX_MODIFIED,
        STATUS_INDEX_DELETED,
        STATUS_INDEX_RENAMED,
        STATUS_INDEX_TYPECHANGE,
    ] {
        let f = dirty_flags(&vec![bit]);
        assert!(f.index_changed);
        assert!(!f.worktree_changed);
        assert!(!f.worktree_added);
    }
}

#[test]
fn every_worktree_bit_sets_the_worktree_signal() {
    for bit in [
        STATUS_WT_MODIFIED,
        STATUS_WT_DELETED,
        STATUS_WT_RENAMED,
        STATUS_WT_TYPECHANGE,
    ] {
        let f = dirty_flags(&vec![bit]);
        assert!(!f.index_changed);
        assert!(f.worktree_changed);
        assert!(!f.worktree_added);
    }
}

#[test]
fn one_entry_may_set_several_signals() {
    let f = dirty_flags(&vec![STATUS_INDEX_NEW | STATUS_WT_NEW]);
    assert!(f.index_changed);
    assert!(!f.worktree_changed);
    assert!(f.worktree_added);
    assert_eq!(dirty_markers(&f), "+%");
}

#[test]
fn flags_are_order_independent() {
    let entries = vec![STATUS_WT_MODIFIED, STATUS_INDEX_NEW, STATUS_WT_NEW];
    let reversed = vec![STATUS_WT_NEW, STATUS_INDEX_NEW, STATUS_WT_MODIFIED];
    let rotated = vec![STATUS_INDEX_NEW, STATUS_WT_NEW, STATUS_WT_MODIFIED];
    let f = dirty_flags(&entries);
    assert_eq!(f, dirty_flags(&reversed));
    assert_eq!(f, dirty_flags(&rotated));
}

#[test]
fn markers_keep_the_fixed_order() {
    let f = DirtyFlags { index_changed: true, worktree_changed: true, worktree_added: true };
    assert_eq!(dirty_markers(&f), "!+%");
}
