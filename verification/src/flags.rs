//! The per-path status bitset, as libgit2 lays it out in a `u32`.

use vstd::prelude::*;

verus! {

/// The path is new in the index.
pub const STATUS_INDEX_NEW: u32 = 0x0001;

/// The path is modified in the index.
pub const STATUS_INDEX_MODIFIED: u32 = 0x0002;

/// The path is deleted from the index.
pub const STATUS_INDEX_DELETED: u32 = 0x0004;

/// The path is renamed in the index.
pub const STATUS_INDEX_RENAMED: u32 = 0x0008;

/// The path changed its file type in the index.
pub const STATUS_INDEX_TYPECHANGE: u32 = 0x0010;

/// The path is new in the working tree (not tracked).
pub const STATUS_WT_NEW: u32 = 0x0080;

/// The path is modified in the working tree.
pub const STATUS_WT_MODIFIED: u32 = 0x0100;

/// The path is deleted from the working tree.
pub const STATUS_WT_DELETED: u32 = 0x0200;

/// The path changed its file type in the working tree.
pub const STATUS_WT_TYPECHANGE: u32 = 0x0400;

/// The path is renamed in the working tree.
pub const STATUS_WT_RENAMED: u32 = 0x0800;

/// The path is ignored.
pub const STATUS_IGNORED: u32 = 0x4000;

/// Every index-level flag.
pub const INDEX_MASK: u32 = 0x001f;

/// Every working-tree-level change flag; `STATUS_WT_NEW` is not among them.
pub const WORKTREE_MASK: u32 = 0x0f00;

/// `bits` and `mask` share a set bit.
pub open spec fn has_any(bits: u32, mask: u32) -> bool {
    bits & mask != 0
}

/// Every bit of `mask` is set in `bits`.
pub open spec fn has_all(bits: u32, mask: u32) -> bool {
    bits & mask == mask
}

/// Some index-level flag is set: new, modified, deleted, renamed or
/// type-change.
pub open spec fn index_level(bits: u32) -> bool {
    ||| has_any(bits, STATUS_INDEX_NEW)
    ||| has_any(bits, STATUS_INDEX_MODIFIED)
    ||| has_any(bits, STATUS_INDEX_DELETED)
    ||| has_any(bits, STATUS_INDEX_RENAMED)
    ||| has_any(bits, STATUS_INDEX_TYPECHANGE)
}

/// Some working-tree-level change flag is set: modified, deleted, renamed or
/// type-change. A path that is only new in the working tree has none.
pub open spec fn worktree_level(bits: u32) -> bool {
    ||| has_any(bits, STATUS_WT_MODIFIED)
    ||| has_any(bits, STATUS_WT_DELETED)
    ||| has_any(bits, STATUS_WT_RENAMED)
    ||| has_any(bits, STATUS_WT_TYPECHANGE)
}

/// The ignored flag is set.
pub open spec fn ignored(bits: u32) -> bool {
    has_all(bits, STATUS_IGNORED)
}

/// The working-tree-new flag is set.
pub open spec fn worktree_new(bits: u32) -> bool {
    has_any(bits, STATUS_WT_NEW)
}

/// Testing against `INDEX_MASK` is testing the five index-level flags one by
/// one.
pub proof fn lemma_index_mask(bits: u32)
    ensures
        has_any(bits, INDEX_MASK) == index_level(bits),
{
    assert((bits & 0x001f != 0) == (bits & 0x0001 != 0 || bits & 0x0002 != 0 || bits & 0x0004 != 0
        || bits & 0x0008 != 0 || bits & 0x0010 != 0)) by (bit_vector);
}

/// Testing against `WORKTREE_MASK` is testing the four working-tree-level
/// change flags one by one.
pub proof fn lemma_worktree_mask(bits: u32)
    ensures
        has_any(bits, WORKTREE_MASK) == worktree_level(bits),
{
    assert((bits & 0x0f00 != 0) == (bits & 0x0100 != 0 || bits & 0x0200 != 0 || bits & 0x0400 != 0
        || bits & 0x0800 != 0)) by (bit_vector);
}

/// Whether `bits` and `mask` share a set bit.
pub fn intersects(bits: u32, mask: u32) -> (r: bool)
    ensures
        r == has_any(bits, mask),
{
    bits & mask != 0
}

/// Whether every bit of `mask` is set in `bits`.
pub fn contains(bits: u32, mask: u32) -> (r: bool)
    ensures
        r == has_all(bits, mask),
{
    bits & mask == mask
}

} // verus!
