use rngit::flags::{
    contains, intersects, INDEX_MASK, STATUS_IGNORED, STATUS_INDEX_DELETED, STATUS_INDEX_MODIFIED,
    STATUS_INDEX_NEW, STATUS_INDEX_RENAMED, STATUS_INDEX_TYPECHANGE, STATUS_WT_DELETED,
    STATUS_WT_MODIFIED, STATUS_WT_NEW, STATUS_WT_RENAMED, STATUS_WT_TYPECHANGE, WORKTREE_MASK,
};
use rngit::status::{classify, index_kind, worktree_kind, Category, Kind};

#[test]
fn flags_match_the_repository_library() {
    assert_eq!(STATUS_INDEX_NEW, git2::Status::INDEX_NEW.bits());
    assert_eq!(STATUS_INDEX_MODIFIED, git2::Status::INDEX_MODIFIED.bits());
    assert_eq!(STATUS_INDEX_DELETED, git2::Status::INDEX_DELETED.bits());
    assert_eq!(STATUS_INDEX_RENAMED, git2::Status::INDEX_RENAMED.bits());
    assert_eq!(STATUS_INDEX_TYPECHANGE, git2::Status::INDEX_TYPECHANGE.bits());
    assert_eq!(STATUS_WT_NEW, git2::Status::WT_NEW.bits());
    assert_eq!(STATUS_WT_MODIFIED, git2::Status::WT_MODIFIED.bits());
    assert_eq!(STATUS_WT_DELETED, git2::Status::WT_DELETED.bits());
    assert_eq!(STATUS_WT_TYPECHANGE, git2::Status::WT_TYPECHANGE.bits());
    assert_eq!(STATUS_WT_RENAMED, git2::Status::WT_RENAMED.bits());
    assert_eq!(STATUS_IGNORED, git2::Status::IGNORED.bits());
}

#[test]
fn masks_are_the_unions_of_their_flags() {
    assert_eq!(
        INDEX_MASK,
        STATUS_INDEX_NEW
            | STATUS_INDEX_MODIFIED
            | STATUS_INDEX_DELETED
            | STATUS_INDEX_RENAMED
            | STATUS_INDEX_TYPECHANGE
    );
    assert_eq!(
        WORKTREE_MASK,
        STATUS_WT_MODIFIED | STATUS_WT_DELETED | STATUS_WT_RENAMED | STATUS_WT_TYPECHANGE
    );
    assert_eq!(WORKTREE_MASK & STATUS_WT_NEW, 0);
}

#[test]
fn bit_tests_agree_with_the_repository_library() {
    let samples: [u32; 8] = [0, 1, 2, 0x80, 0x100, 0x4000, 0x4102, 0x0f9f];
    for bits in samples {
        for mask in samples {
            let a = git2::Status::from_bits_truncate(bits);
            let b = git2::Status::from_bits_truncate(mask);
            assert_eq!(intersects(bits, mask), a.intersects(b));
            assert_eq!(contains(bits, mask), a.contains(b));
        }
    }
}

#[test]
fn single_flags_classify() {
    assert_eq!(classify(STATUS_INDEX_NEW), Category::Staged(Kind::New));
    assert_eq!(classify(STATUS_INDEX_MODIFIED), Category::Staged(Kind::Modified));
    assert_eq!(classify(STATUS_INDEX_DELETED), Category::Staged(Kind::Deleted));
    assert_eq!(classify(STATUS_INDEX_RENAMED), Category::Staged(Kind::Renamed));
    assert_eq!(classify(STATUS_INDEX_TYPECHANGE), Category::Staged(Kind::TypeChange));
    assert_eq!(classify(STATUS_WT_MODIFIED), Category::Unstaged(Kind::Modified));
    assert_eq!(classify(STATUS_WT_DELETED), Category::Unstaged(Kind::Deleted));
    assert_eq!(classify(STATUS_WT_RENAMED), Category::Unstaged(Kind::Renamed));
    assert_eq!(classify(STATUS_WT_TYPECHANGE), Category::Unstaged(Kind::TypeChange));
    assert_eq!(classify(STATUS_WT_NEW), Category::Untracked);
    assert_eq!(classify(STATUS_IGNORED), Category::Dropped);
}

#[test]
fn unflagged_paths_are_dropped() {
    assert_eq!(classify(0), Category::Dropped);
    assert_eq!(classify(0x8000), Category::Dropped);
    assert_eq!(classify(0x1000), Category::Dropped);
}

#[test]
fn ignored_wins_over_every_other_flag() {
    let mut bits: u32 = 0;
    while bits < 0x1_0000 {
        assert_eq!(classify(bits | STATUS_IGNORED), Category::Dropped);
        bits += 1;
    }
}

#[test]
fn every_shown_combination_has_one_section() {
    let mut bits: u32 = 0;
    while bits < 0x1_0000 {
        if bits & STATUS_IGNORED == 0 {
            let index = bits & INDEX_MASK != 0;
            let tree = bits & WORKTREE_MASK != 0;
            let fresh = bits & STATUS_WT_NEW != 0;
            let cat = classify(bits);
            assert_eq!(matches!(cat, Category::Staged(_)), index);
            assert_eq!(matches!(cat, Category::Unstaged(_)), !index && tree);
            assert_eq!(matches!(cat, Category::Untracked), !index && !tree && fresh);
            assert_eq!(matches!(cat, Category::Dropped), !index && !tree && !fresh);
        }
        bits += 1;
    }
}

#[test]
fn index_level_takes_precedence() {
    assert_eq!(
        classify(STATUS_INDEX_MODIFIED | STATUS_WT_MODIFIED),
        Category::Staged(Kind::Modified)
    );
    assert_eq!(classify(STATUS_INDEX_NEW | STATUS_WT_DELETED), Category::Staged(Kind::New));
    assert_eq!(classify(STATUS_INDEX_RENAMED | STATUS_WT_NEW), Category::Staged(Kind::Renamed));
    assert_eq!(classify(STATUS_WT_NEW | STATUS_WT_TYPECHANGE), Category::Unstaged(Kind::TypeChange));
}

#[test]
fn kinds_follow_the_label_order() {
    assert_eq!(index_kind(INDEX_MASK), Some(Kind::Modified));
    assert_eq!(
        index_kind(STATUS_INDEX_DELETED | STATUS_INDEX_RENAMED | STATUS_INDEX_NEW),
        Some(Kind::Deleted)
    );
    assert_eq!(index_kind(STATUS_INDEX_RENAMED | STATUS_INDEX_TYPECHANGE), Some(Kind::Renamed));
    assert_eq!(index_kind(STATUS_INDEX_TYPECHANGE | STATUS_INDEX_NEW), Some(Kind::TypeChange));
    assert_eq!(index_kind(STATUS_WT_MODIFIED), None);
    assert_eq!(worktree_kind(WORKTREE_MASK), Some(Kind::Modified));
    assert_eq!(worktree_kind(STATUS_WT_DELETED | STATUS_WT_TYPECHANGE), Some(Kind::Deleted));
    assert_eq!(worktree_kind(STATUS_WT_RENAMED | STATUS_WT_TYPECHANGE), Some(Kind::Renamed));
    assert_eq!(worktree_kind(STATUS_WT_TYPECHANGE), Some(Kind::TypeChange));
    assert_eq!(worktree_kind(STATUS_WT_NEW), None);
    assert_eq!(worktree_kind(STATUS_INDEX_MODIFIED), None);
}

#[test]
fn labels_are_exact() {
    assert_eq!(Kind::New.label(), "");
    assert_eq!(Kind::Modified.label(), "modified: ");
    assert_eq!(Kind::Deleted.label(), "deleted:  ");
    assert_eq!(Kind::Renamed.label(), "renamed:  ");
    assert_eq!(Kind::TypeChange.label(), "typechange:");
}
