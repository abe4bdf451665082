//! Disk space of the mounted volumes, summed over all of them.

use vstd::prelude::*;

verus! {

/// The space of one mounted volume, in bytes.
#[derive(Clone, Copy, Debug, PartialEq, Eq, Structural)]
pub struct Volume {
    pub total_space: u64,
    pub available_space: u64,
}

impl Volume {
    /// A volume cannot have more space available than it has in all.
    pub open spec fn is_consistent(self) -> bool {
        self.available_space <= self.total_space
    }

    /// The bytes in use: the total less what is available.
    pub open spec fn used_space(self) -> int {
        self.total_space - self.available_space
    }
}

/// Every volume of the list is consistent.
pub open spec fn all_consistent(volumes: Seq<Volume>) -> bool {
    forall|i: int| 0 <= i < volumes.len() ==> (#[trigger] volumes[i]).is_consistent()
}

/// The total space of all volumes together.
pub open spec fn total_space_sum(volumes: Seq<Volume>) -> int
    decreases volumes.len(),
{
    if volumes.len() == 0 {
        0
    } else {
        total_space_sum(volumes.drop_last()) + volumes.last().total_space
    }
}

/// The used space of all volumes together.
pub open spec fn used_space_sum(volumes: Seq<Volume>) -> int
    decreases volumes.len(),
{
    if volumes.len() == 0 {
        0
    } else {
        used_space_sum(volumes.drop_last()) + volumes.last().used_space()
    }
}

/// The volumes can be summed: each is consistent and the total of all of
/// them fits in 64 bits.
pub open spec fn is_summable(volumes: Seq<Volume>) -> bool {
    all_consistent(volumes) && total_space_sum(volumes) <= u64::MAX
}

/// The total over a prefix is never negative and never exceeds the total
/// over the whole list.
proof fn lemma_total_prefix(volumes: Seq<Volume>, n: int)
    requires
        0 <= n <= volumes.len(),
    ensures
        0 <= total_space_sum(volumes.take(n)) <= total_space_sum(volumes),
    decreases volumes.len() - n,
{
    if n == volumes.len() {
        assert(volumes.take(n) =~= volumes);
        lemma_total_nonnegative(volumes);
    } else {
        lemma_total_prefix(volumes, n + 1);
        assert(volumes.take(n + 1).drop_last() =~= volumes.take(n));
        lemma_total_nonnegative(volumes.take(n));
    }
}

/// A total of space is never negative.
proof fn lemma_total_nonnegative(volumes: Seq<Volume>)
    ensures
        0 <= total_space_sum(volumes),
    decreases volumes.len(),
{
    if volumes.len() > 0 {
        lemma_total_nonnegative(volumes.drop_last());
    }
}

/// With consistent volumes, the used space over a prefix is never negative
/// and never exceeds the used space over the whole list.
proof fn lemma_used_prefix(volumes: Seq<Volume>, n: int)
    requires
        0 <= n <= volumes.len(),
        all_consistent(volumes),
    ensures
        0 <= used_space_sum(volumes.take(n)) <= used_space_sum(volumes),
    decreases volumes.len() - n,
{
    if n == volumes.len() {
        assert(volumes.take(n) =~= volumes);
        lemma_used_within_total(volumes);
    } else {
        lemma_used_prefix(volumes, n + 1);
        assert(volumes.take(n + 1).drop_last() =~= volumes.take(n));
        lemma_used_within_total(volumes.take(n));
    }
}

/// With consistent volumes the used space lies between zero and the total.
pub proof fn lemma_used_within_total(volumes: Seq<Volume>)
    requires
        all_consistent(volumes),
    ensures
        0 <= used_space_sum(volumes) <= total_space_sum(volumes),
    decreases volumes.len(),
{
    if volumes.len() > 0 {
        lemma_used_within_total(volumes.drop_last());
    }
}

/// Tells whether the volumes can be summed without leaving 64 bits.
pub fn disk_space_is_summable(volumes: &[Volume]) -> (ok: bool)
    ensures
        ok == is_summable(volumes@),
{
    let mut total: u64 = 0;
    let mut i: usize = 0;
    while i < volumes.len()
        invariant
            0 <= i <= volumes.len(),
            total == total_space_sum(volumes@.take(i as int)),
            all_consistent(volumes@.take(i as int)),
        decreases volumes.len() - i,
    {
        let volume = volumes[i];
        assert(volumes@.take(i + 1).drop_last() =~= volumes@.take(i as int));
        if volume.available_space > volume.total_space {
            return false;
        }
        match total.checked_add(volume.total_space) {
            Some(next) => {
                total = next;
            },
            None => {
                proof {
                    lemma_total_prefix(volumes@, i + 1);
                }
                return false;
            },
        }
        i = i + 1;
    }
    assert(volumes@.take(i as int) =~= volumes@);
    true
}

/// The total space of all volumes, in bytes.
pub fn get_total_disk_space(volumes: &[Volume]) -> (total: u64)
    requires
        total_space_sum(volumes@) <= u64::MAX,
    ensures
        total == total_space_sum(volumes@),
{
    let mut total: u64 = 0;
    let mut i: usize = 0;
    while i < volumes.len()
        invariant
            0 <= i <= volumes.len(),
            total == total_space_sum(volumes@.take(i as int)),
            total_space_sum(volumes@) <= u64::MAX,
        decreases volumes.len() - i,
    {
        proof {
            lemma_total_prefix(volumes@, i + 1);
            assert(volumes@.take(i + 1).drop_last() =~= volumes@.take(i as int));
        }
        total = total + volumes[i].total_space;
        i = i + 1;
    }
    assert(volumes@.take(i as int) =~= volumes@);
    total
}

/// The space in use on all volumes, in bytes: for each volume its total
/// less what is available.
pub fn get_used_disk_space(volumes: &[Volume]) -> (used: u64)
    requires
        all_consistent(volumes@),
        used_space_sum(volumes@) <= u64::MAX,
    ensures
        used == used_space_sum(volumes@),
{
    let mut used: u64 = 0;
    let mut i: usize = 0;
    while i < volumes.len()
        invariant
            0 <= i <= volumes.len(),
            used == used_space_sum(volumes@.take(i as int)),
            all_consistent(volumes@),
            used_space_sum(volumes@) <= u64::MAX,
        decreases volumes.len() - i,
    {
        proof {
            assert(volumes@.take(i + 1).drop_last() =~= volumes@.take(i as int));
            lemma_used_prefix(volumes@, i + 1);
        }
        used = used + (volumes[i].total_space - volumes[i].available_space);
        i = i + 1;
    }
    assert(volumes@.take(i as int) =~= volumes@);
    used
}

} // verus!
