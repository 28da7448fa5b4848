//! Status mask primitives and the commutative count over status entries.
//!
//! Each status entry of a repository is summarized by one word of status
//! bits; a mask selects the kinds of change that count. The constants below
//! mirror the per-entry status bits of the underlying repository library.

use vstd::prelude::*;
use vstd::seq_lib::group_to_multiset_ensures;

verus! {

/// A new file added to the index.
pub const STATUS_INDEX_NEW: u32 = 1;

/// A file modified in the index.
pub const STATUS_INDEX_MODIFIED: u32 = 2;

/// A file deleted from the index.
pub const STATUS_INDEX_DELETED: u32 = 4;

/// A file renamed in the index.
pub const STATUS_INDEX_RENAMED: u32 = 8;

/// A file whose type changed in the index.
pub const STATUS_INDEX_TYPECHANGE: u32 = 16;

/// A new, untracked file in the working tree.
pub const STATUS_WT_NEW: u32 = 128;

/// A file modified in the working tree.
pub const STATUS_WT_MODIFIED: u32 = 256;

/// A file deleted from the working tree.
pub const STATUS_WT_DELETED: u32 = 512;

/// A file whose type changed in the working tree.
pub const STATUS_WT_TYPECHANGE: u32 = 1024;

/// A file renamed in the working tree.
pub const STATUS_WT_RENAMED: u32 = 2048;

/// The working-tree changes the `modified_count` provider reports.
pub const MODIFIED_MASK: u32 = STATUS_WT_DELETED | STATUS_WT_MODIFIED | STATUS_WT_RENAMED
    | STATUS_WT_TYPECHANGE;

/// The index changes the `staged_count` provider reports.
pub const STAGED_MASK: u32 = STATUS_INDEX_DELETED | STATUS_INDEX_MODIFIED | STATUS_INDEX_NEW
    | STATUS_INDEX_RENAMED | STATUS_INDEX_TYPECHANGE;

/// A bitset over kinds of change: a status entry counts when its status
/// bits intersect the mask.
#[derive(Clone, Copy, PartialEq, Eq, Structural, Debug)]
pub struct StatusMask {
    /// The selected status bits.
    pub bits: u32,
}

impl StatusMask {
    /// Whether an entry with status bits `status` counts under this mask.
    pub open spec fn selects(self, status: u32) -> bool {
        status & self.bits != 0
    }

    /// The mask of working-tree changes.
    pub fn modified() -> (r: StatusMask)
        ensures
            r.bits == MODIFIED_MASK,
    {
        StatusMask { bits: MODIFIED_MASK }
    }

    /// The mask of index changes.
    pub fn staged() -> (r: StatusMask)
        ensures
            r.bits == STAGED_MASK,
    {
        StatusMask { bits: STAGED_MASK }
    }

    /// Tests whether `status` intersects this mask.
    pub fn intersects(&self, status: u32) -> (r: bool)
        ensures
            r == self.selects(status),
    {
        status & self.bits != 0
    }
}

/// How many words of `s` intersect `mask`.
pub open spec fn count_matching(s: Seq<u32>, mask: u32) -> nat
    decreases s.len(),
{
    if s.len() == 0 {
        0
    } else {
        count_matching(s.drop_last(), mask) + if s.last() & mask != 0 {
            1nat
        } else {
            0nat
        }
    }
}

/// Counts the entries of `bits` whose status intersects `mask`.
pub fn count_matching_entries(bits: &Vec<u32>, mask: StatusMask) -> (n: usize)
    ensures
        n == count_matching(bits@, mask.bits),
{
    let mut n: usize = 0;
    let mut i: usize = 0;
    while i < bits.len()
        invariant
            i <= bits@.len(),
            n <= i,
            n == count_matching(bits@.take(i as int), mask.bits),
        decreases bits@.len() - i,
    {
        let b = bits[i];
        proof {
            assert(bits@.take(i + 1).drop_last() =~= bits@.take(i as int));
            assert(bits@.take(i + 1).last() == bits@[i as int]);
        }
        if mask.intersects(b) {
            n = n + 1;
        }
        i = i + 1;
    }
    proof {
        assert(bits@.take(bits@.len() as int) =~= bits@);
    }
    n
}

/// Removing one word removes exactly its own contribution from the count.
proof fn lemma_count_matching_remove(s: Seq<u32>, mask: u32, i: int)
    requires
        0 <= i < s.len(),
    ensures
        count_matching(s, mask) == count_matching(s.remove(i), mask) + if s[i] & mask != 0 {
            1nat
        } else {
            0nat
        },
    decreases s.len(),
{
    if i == s.len() - 1 {
        assert(s.remove(i) =~= s.drop_last());
    } else {
        assert(s.remove(i).drop_last() =~= s.drop_last().remove(i));
        assert(s.remove(i).last() == s.last());
        lemma_count_matching_remove(s.drop_last(), mask, i);
    }
}

/// The count is a pure commutative fold: any two sequences holding the same
/// words the same number of times — any reordering of the status entries —
/// give the same count.
pub proof fn lemma_count_matching_permutation(s1: Seq<u32>, s2: Seq<u32>, mask: u32)
    requires
        s1.to_multiset() == s2.to_multiset(),
    ensures
        count_matching(s1, mask) == count_matching(s2, mask),
    decreases s1.len(),
{
    broadcast use group_to_multiset_ensures;

    if s1.len() == 0 {
        assert(s2.to_multiset().len() == 0);
    } else {
        let last: int = s1.len() - 1;
        let x = s1[last];
        assert(s1.contains(x));
        assert(s2.to_multiset().count(x) > 0);
        assert(s2.contains(x));
        let j = choose|j: int| 0 <= j < s2.len() && s2[j] == x;
        assert(s1.remove(last).to_multiset() =~= s1.to_multiset().remove(x));
        assert(s2.remove(j).to_multiset() =~= s2.to_multiset().remove(x));
        lemma_count_matching_permutation(s1.remove(last), s2.remove(j), mask);
        lemma_count_matching_remove(s1, mask, last);
        lemma_count_matching_remove(s2, mask, j);
    }
}

} // verus!
