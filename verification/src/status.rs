//! Classification of a path's raw status flags into a display section.

use vstd::prelude::*;
use crate::flags::{
    contains, has_any, ignored, index_level, intersects, lemma_index_mask, lemma_worktree_mask,
    worktree_level, worktree_new, INDEX_MASK, STATUS_IGNORED, STATUS_INDEX_DELETED,
    STATUS_INDEX_MODIFIED, STATUS_INDEX_NEW, STATUS_INDEX_RENAMED, STATUS_INDEX_TYPECHANGE,
    STATUS_WT_DELETED, STATUS_WT_MODIFIED, STATUS_WT_NEW, STATUS_WT_RENAMED,
    STATUS_WT_TYPECHANGE, WORKTREE_MASK,
};

verus! {

/// What happened to a path at one level (index or working tree).
#[derive(Clone, Copy, Debug, PartialEq, Eq, Structural)]
pub enum Kind {
    New,
    Modified,
    Deleted,
    Renamed,
    TypeChange,
}

/// The display section of a path.
#[derive(Clone, Copy, Debug, PartialEq, Eq, Structural)]
pub enum Category {
    /// Changed at the index level.
    Staged(Kind),
    /// Changed at the working-tree level only.
    Unstaged(Kind),
    /// New in the working tree and nothing else.
    Untracked,
    /// Never shown.
    Dropped,
}

/// The index-level change that labels a path: the first that is flagged
/// among modified, deleted, renamed, type-change and new; `None` where no
/// index-level flag is set.
pub open spec fn spec_index_kind(bits: u32) -> Option<Kind> {
    if has_any(bits, STATUS_INDEX_MODIFIED) {
        Some(Kind::Modified)
    } else if has_any(bits, STATUS_INDEX_DELETED) {
        Some(Kind::Deleted)
    } else if has_any(bits, STATUS_INDEX_RENAMED) {
        Some(Kind::Renamed)
    } else if has_any(bits, STATUS_INDEX_TYPECHANGE) {
        Some(Kind::TypeChange)
    } else if has_any(bits, STATUS_INDEX_NEW) {
        Some(Kind::New)
    } else {
        None
    }
}

/// The working-tree-level change that labels a path: the first that is
/// flagged among modified, deleted, renamed and type-change; `None` where
/// none of them is set.
pub open spec fn spec_worktree_kind(bits: u32) -> Option<Kind> {
    if has_any(bits, STATUS_WT_MODIFIED) {
        Some(Kind::Modified)
    } else if has_any(bits, STATUS_WT_DELETED) {
        Some(Kind::Deleted)
    } else if has_any(bits, STATUS_WT_RENAMED) {
        Some(Kind::Renamed)
    } else if has_any(bits, STATUS_WT_TYPECHANGE) {
        Some(Kind::TypeChange)
    } else {
        None
    }
}

/// The section of a path with the flags `bits`: ignored paths are dropped;
/// any index-level flag makes it staged; else any working-tree-level change
/// makes it unstaged; else working-tree-new makes it untracked; a path with
/// none of these is dropped.
pub open spec fn spec_classify(bits: u32) -> Category {
    if ignored(bits) {
        Category::Dropped
    } else if index_level(bits) {
        Category::Staged(spec_index_kind(bits).unwrap())
    } else if worktree_level(bits) {
        Category::Unstaged(spec_worktree_kind(bits).unwrap())
    } else if worktree_new(bits) {
        Category::Untracked
    } else {
        Category::Dropped
    }
}

/// The text that precedes a path of this kind in a listing.
pub open spec fn spec_label(kind: Kind) -> Seq<char> {
    match kind {
        Kind::New => Seq::<char>::empty(),
        Kind::Modified => "modified: "@,
        Kind::Deleted => "deleted:  "@,
        Kind::Renamed => "renamed:  "@,
        Kind::TypeChange => "typechange:"@,
    }
}

/// The label of an optional kind; nothing where there is no kind.
pub open spec fn spec_prefix(kind: Option<Kind>) -> Seq<char> {
    match kind {
        Some(k) => spec_label(k),
        None => Seq::<char>::empty(),
    }
}

impl Kind {
    /// The text that precedes a path of this kind in a listing.
    pub fn label(&self) -> (r: &'static str)
        ensures
            r@ == spec_label(*self),
    {
        match self {
            Kind::New => {
                proof {
                    reveal_strlit("");
                }
                ""
            },
            Kind::Modified => "modified: ",
            Kind::Deleted => "deleted:  ",
            Kind::Renamed => "renamed:  ",
            Kind::TypeChange => "typechange:",
        }
    }
}

/// The index-level kind of `bits`.
pub fn index_kind(bits: u32) -> (r: Option<Kind>)
    ensures
        r == spec_index_kind(bits),
        r.is_some() == index_level(bits),
{
    if intersects(bits, STATUS_INDEX_MODIFIED) {
        Some(Kind::Modified)
    } else if intersects(bits, STATUS_INDEX_DELETED) {
        Some(Kind::Deleted)
    } else if intersects(bits, STATUS_INDEX_RENAMED) {
        Some(Kind::Renamed)
    } else if intersects(bits, STATUS_INDEX_TYPECHANGE) {
        Some(Kind::TypeChange)
    } else if intersects(bits, STATUS_INDEX_NEW) {
        Some(Kind::New)
    } else {
        None
    }
}

/// The working-tree-level kind of `bits`.
pub fn worktree_kind(bits: u32) -> (r: Option<Kind>)
    ensures
        r == spec_worktree_kind(bits),
        r.is_some() == worktree_level(bits),
{
    if intersects(bits, STATUS_WT_MODIFIED) {
        Some(Kind::Modified)
    } else if intersects(bits, STATUS_WT_DELETED) {
        Some(Kind::Deleted)
    } else if intersects(bits, STATUS_WT_RENAMED) {
        Some(Kind::Renamed)
    } else if intersects(bits, STATUS_WT_TYPECHANGE) {
        Some(Kind::TypeChange)
    } else {
        None
    }
}

/// Classifies a path by its raw status flags.
pub fn classify(bits: u32) -> (r: Category)
    ensures
        r == spec_classify(bits),
{
    if contains(bits, STATUS_IGNORED) {
        return Category::Dropped;
    }
    proof {
        lemma_index_mask(bits);
        lemma_worktree_mask(bits);
    }
    if intersects(bits, INDEX_MASK) {
        match index_kind(bits) {
            Some(k) => Category::Staged(k),
            None => Category::Dropped,
        }
    } else if intersects(bits, WORKTREE_MASK) {
        match worktree_kind(bits) {
            Some(k) => Category::Unstaged(k),
            None => Category::Dropped,
        }
    } else if intersects(bits, STATUS_WT_NEW) {
        Category::Untracked
    } else {
        Category::Dropped
    }
}

/// A path that is not ignored and carries an index-level flag, a
/// working-tree-level change flag or the working-tree-new flag falls into
/// exactly one of the three shown sections.
pub proof fn law_classify_shown(bits: u32)
    requires
        !ignored(bits),
        index_level(bits) || worktree_level(bits) || worktree_new(bits),
    ensures
        spec_classify(bits) is Staged || spec_classify(bits) is Unstaged || spec_classify(bits)
            is Untracked,
        spec_classify(bits) is Staged <==> index_level(bits),
        spec_classify(bits) is Unstaged <==> !index_level(bits) && worktree_level(bits),
        spec_classify(bits) is Untracked <==> !index_level(bits) && !worktree_level(bits),
{
}

/// An ignored path is dropped, whatever else is flagged.
pub proof fn law_ignored_dropped(bits: u32)
    requires
        ignored(bits),
    ensures
        spec_classify(bits) == Category::Dropped,
{
}

/// Setting the ignored flag on any flags makes the path dropped.
pub proof fn law_ignored_bit_drops(bits: u32)
    ensures
        spec_classify(bits | STATUS_IGNORED) == Category::Dropped,
{
    assert((bits | 0x4000u32) & 0x4000u32 == 0x4000u32) by (bit_vector);
}

/// A path with both an index-level flag and a working-tree-level flag is
/// staged, and its kind is the index-level one.
pub proof fn law_index_takes_precedence(bits: u32)
    requires
        !ignored(bits),
        index_level(bits),
        worktree_level(bits) || worktree_new(bits),
    ensures
        spec_classify(bits) == Category::Staged(spec_index_kind(bits).unwrap()),
        !(spec_classify(bits) is Unstaged),
        !(spec_classify(bits) is Untracked),
{
}

/// A path with no flag that the dashboard shows is dropped.
pub proof fn law_unflagged_dropped(bits: u32)
    requires
        !index_level(bits),
        !worktree_level(bits),
        !worktree_new(bits),
    ensures
        spec_classify(bits) == Category::Dropped,
{
}

} // verus!
