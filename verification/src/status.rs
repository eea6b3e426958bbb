//! File-status flags of a working tree, and the three categories a snapshot counts.
//!
//! An entry's status is a set of flags packed into a `u32`. One entry may carry several
//! flags at once, so it may count in more than one category.

use vstd::prelude::*;

verus! {

/// The path is new in the index.
pub const INDEX_NEW: u32 = 0x0001;

/// The path is modified in the index.
pub const INDEX_MODIFIED: u32 = 0x0002;

/// The path is deleted from the index.
pub const INDEX_DELETED: u32 = 0x0004;

/// The path is renamed in the index.
pub const INDEX_RENAMED: u32 = 0x0008;

/// The path changed its type in the index.
pub const INDEX_TYPECHANGE: u32 = 0x0010;

/// The path is new in the working tree, and not tracked.
pub const WT_NEW: u32 = 0x0080;

/// The path is modified in the working tree.
pub const WT_MODIFIED: u32 = 0x0100;

/// The path is deleted from the working tree.
pub const WT_DELETED: u32 = 0x0200;

/// The path is renamed in the working tree.
pub const WT_RENAMED: u32 = 0x0800;

/// Whether `flags` holds the single flag `flag`.
pub open spec fn has_flag(flags: u32, flag: u32) -> bool {
    flags & flag != 0
}

/// An entry is staged when the index differs from the last commit in any way.
pub open spec fn staged(flags: u32) -> bool {
    has_flag(flags, INDEX_NEW) || has_flag(flags, INDEX_MODIFIED) || has_flag(flags, INDEX_DELETED)
        || has_flag(flags, INDEX_RENAMED) || has_flag(flags, INDEX_TYPECHANGE)
}

/// An entry is modified when the working tree changed, deleted or renamed a tracked path.
pub open spec fn modified(flags: u32) -> bool {
    ||| has_flag(flags, WT_MODIFIED)
    ||| has_flag(flags, WT_DELETED)
    ||| has_flag(flags, WT_RENAMED)
}

/// An entry is untracked when the path is new in the working tree.
pub open spec fn untracked(flags: u32) -> bool {
    has_flag(flags, WT_NEW)
}

/// How many of `entries` are staged.
pub open spec fn count_staged(entries: Seq<u32>) -> nat {
    entries.filter(|f: u32| staged(f)).len()
}

/// How many of `entries` are modified.
pub open spec fn count_modified(entries: Seq<u32>) -> nat {
    entries.filter(|f: u32| modified(f)).len()
}

/// How many of `entries` are untracked.
pub open spec fn count_untracked(entries: Seq<u32>) -> nat {
    entries.filter(|f: u32| untracked(f)).len()
}

/// The three counts of one working tree.
#[derive(Clone, Copy, Debug, PartialEq, Eq)]
pub struct StatusCounts {
    pub staged: usize,
    pub modified: usize,
    pub untracked: usize,
}

pub fn is_staged(flags: u32) -> (b: bool)
    ensures
        b == staged(flags),
{
    assert((flags & 0x1f != 0) == (flags & 0x01 != 0 || flags & 0x02 != 0 || flags & 0x04 != 0
        || flags & 0x08 != 0 || flags & 0x10 != 0)) by (bit_vector);
    flags & 0x1f != 0
}

pub fn is_modified(flags: u32) -> (b: bool)
    ensures
        b == modified(flags),
{
    assert((flags & 0xb00 != 0) == (flags & 0x100 != 0 || flags & 0x200 != 0 || flags & 0x800
        != 0)) by (bit_vector);
    flags & 0xb00 != 0
}

pub fn is_untracked(flags: u32) -> (b: bool)
    ensures
        b == untracked(flags),
{
    flags & WT_NEW != 0
}

/// Counts the entries of each category.
pub fn count_statuses(entries: &Vec<u32>) -> (c: StatusCounts)
    ensures
        c.staged == count_staged(entries@),
        c.modified == count_modified(entries@),
        c.untracked == count_untracked(entries@),
{
    let mut c = StatusCounts { staged: 0, modified: 0, untracked: 0 };
    let mut i: usize = 0;
    proof {
        reveal(Seq::filter);
    }
    while i < entries.len()
        invariant
            i <= entries.len(),
            c.staged <= i,
            c.modified <= i,
            c.untracked <= i,
            c.staged == count_staged(entries@.take(i as int)),
            c.modified == count_modified(entries@.take(i as int)),
            c.untracked == count_untracked(entries@.take(i as int)),
        decreases entries.len() - i,
    {
        let flags = entries[i];
        proof {
            reveal(Seq::filter);
            assert(entries@.take(i + 1).drop_last() =~= entries@.take(i as int));
        }
        if is_staged(flags) {
            c.staged += 1;
        }
        if is_modified(flags) {
            c.modified += 1;
        }
        if is_untracked(flags) {
            c.untracked += 1;
        }
        i += 1;
    }
    assert(entries@.take(entries.len() as int) =~= entries@);
    c
}

impl StatusCounts {
    /// The counts of a working tree in which nothing was found.
    pub fn zero() -> (c: StatusCounts)
        ensures
            c.staged == 0,
            c.modified == 0,
            c.untracked == 0,
    {
        StatusCounts { staged: 0, modified: 0, untracked: 0 }
    }

    /// A working tree is dirty when it holds staged or modified entries.
    pub open spec fn dirty(&self) -> bool {
        self.staged > 0 || self.modified > 0
    }

    pub fn is_dirty(&self) -> (b: bool)
        ensures
            b == self.dirty(),
    {
        self.staged > 0 || self.modified > 0
    }
}

} // verus!
