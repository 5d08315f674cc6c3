//! The sliding revolution window: a fixed number of unsigned counters, one
//! per time bin, newest last. A revolution is recorded by incrementing the
//! newest bin; once per control tick the window rotates, pushing a fresh
//! zero bin and dropping the oldest. The frequency estimate is the sum of
//! all bins over the window duration, so after a full round of rotations
//! any old activity has decayed to nothing.

use ringbuffer::AllocRingBuffer;
use vstd::prelude::*;

use crate::ring::{
    ring_back,
    ring_capacity,
    ring_contents,
    ring_enqueue,
    ring_fill_zero,
    ring_get,
    ring_len,
    ring_new,
    ring_set_back,
};

verus! {

/// The sum of a sequence of bin counters, as an unbounded integer.
pub open spec fn sum_of(s: Seq<u32>) -> int
    decreases s.len(),
{
    if s.len() == 0 {
        0
    } else {
        sum_of(s.drop_last()) + s.last()
    }
}

/// One rotation of the window's bins: the oldest bin leaves, a zero bin
/// arrives as the newest.
pub open spec fn rotated(s: Seq<u32>) -> Seq<u32> {
    s.subrange(1, s.len() as int).push(0u32)
}

/// `n` rotations of the window's bins.
pub open spec fn rotated_n(s: Seq<u32>, n: nat) -> Seq<u32>
    decreases n,
{
    if n == 0 {
        s
    } else {
        rotated(rotated_n(s, (n - 1) as nat))
    }
}

/// A sequence of `n` zero bins.
pub open spec fn zero_bins(n: nat) -> Seq<u32> {
    Seq::new(n, |i: int| 0u32)
}

pub struct RevolutionWindow {
    bins: AllocRingBuffer<u32>,
}

impl RevolutionWindow {
    /// The window's bins, oldest first.
    pub closed spec fn view_bins(self) -> Seq<u32> {
        ring_contents(self.bins)
    }

    /// The number of time bins the window was created with.
    pub closed spec fn bin_count(self) -> usize {
        ring_capacity(self.bins)
    }

    /// The window always holds exactly its declared number of bins.
    pub open spec fn wf(self) -> bool {
        0 < self.bin_count() <= u32::MAX && self.view_bins().len() == self.bin_count()
    }

    /// A fresh window of `bins` zero bins.
    pub fn new(bins: usize) -> (r: RevolutionWindow)
        requires
            0 < bins <= u32::MAX,
        ensures
            r.wf(),
            r.bin_count() == bins,
            r.view_bins() == zero_bins(bins as nat),
    {
        let mut ring = ring_new(bins);
        ring_fill_zero(&mut ring);
        RevolutionWindow { bins: ring }
    }

    /// Records one revolution in the newest bin.
    pub fn increment_current(&mut self)
        requires
            old(self).wf(),
            old(self).view_bins().last() < u32::MAX,
        ensures
            final(self).wf(),
            final(self).bin_count() == old(self).bin_count(),
            final(self).view_bins() == old(self).view_bins().update(
                old(self).view_bins().len() - 1,
                (old(self).view_bins().last() + 1) as u32,
            ),
    {
        let current: u32 = match ring_back(&self.bins) {
            Some(v) => v,
            None => unreached(),
        };
        ring_set_back(&mut self.bins, current + 1);
    }

    /// The newest bin's counter.
    pub fn current_bin(&self) -> (r: u32)
        requires
            self.wf(),
        ensures
            r == self.view_bins().last(),
    {
        match ring_back(&self.bins) {
            Some(v) => v,
            None => unreached(),
        }
    }

    /// Rotates the window: the oldest bin leaves, a fresh zero bin becomes
    /// the newest.
    pub fn rotate(&mut self)
        requires
            old(self).wf(),
        ensures
            final(self).wf(),
            final(self).bin_count() == old(self).bin_count(),
            final(self).view_bins() == rotated(old(self).view_bins()),
    {
        let _ = ring_enqueue(&mut self.bins, 0);
    }

    /// The number of time bins.
    pub fn len(&self) -> (r: usize)
        requires
            self.wf(),
        ensures
            r == self.bin_count(),
    {
        ring_len(&self.bins)
    }

    /// The total number of revolutions recorded across the whole window.
    pub fn sum(&self) -> (r: u64)
        requires
            self.wf(),
        ensures
            r == sum_of(self.view_bins()),
    {
        let len = ring_len(&self.bins);
        let mut acc: u64 = 0;
        let mut i: usize = 0;
        proof {
            assert(self.view_bins().subrange(0, 0) =~= Seq::<u32>::empty());
        }
        while i < len
            invariant
                self.wf(),
                len == self.view_bins().len(),
                i <= len,
                acc == sum_of(self.view_bins().subrange(0, i as int)),
                acc <= i * (u32::MAX as int),
            decreases len - i,
        {
            let bin: u32 = match ring_get(&self.bins, i) {
                Some(v) => v,
                None => unreached(),
            };
            proof {
                let len_i: int = self.view_bins().len() as int;
                assert((i as int) % len_i == i as int) by (nonlinear_arith)
                    requires
                        0 <= (i as int) && (i as int) < len_i,
                ;
                let prefix = self.view_bins().subrange(0, i + 1);
                assert(prefix.drop_last() =~= self.view_bins().subrange(0, i as int));
                assert(prefix.last() == self.view_bins()[i as int]);
                assert((i + 1) * (u32::MAX as int) == i * (u32::MAX as int) + u32::MAX)
                    by (nonlinear_arith);
                assert(len as int * (u32::MAX as int) <= (u32::MAX as int) * (u32::MAX as int))
                    by (nonlinear_arith)
                    requires
                        len <= u32::MAX,
                ;
                assert((u32::MAX as int) * (u32::MAX as int) < u64::MAX as int);
                assert((i + 1) * (u32::MAX as int) <= len as int * (u32::MAX as int))
                    by (nonlinear_arith)
                    requires
                        i + 1 <= len,
                ;
            }
            acc = acc + bin as u64;
            i = i + 1;
        }
        proof {
            assert(self.view_bins().subrange(0, len as int) =~= self.view_bins());
        }
        acc
    }
}

/// The sum of bin counters is never negative.
pub proof fn lemma_sum_nonneg(s: Seq<u32>)
    ensures
        sum_of(s) >= 0,
    decreases s.len(),
{
    if s.len() > 0 {
        lemma_sum_nonneg(s.drop_last());
    }
}

/// Replacing the newest bin changes the total by exactly the difference.
pub proof fn lemma_sum_update_last(s: Seq<u32>, v: u32)
    requires
        s.len() > 0,
    ensures
        sum_of(s.update(s.len() - 1, v)) == sum_of(s) - s.last() + v,
{
    let updated = s.update(s.len() - 1, v);
    assert(updated.drop_last() =~= s.drop_last());
    assert(updated.last() == v);
}

/// The window's total is zero exactly when every bin is zero: an all-zero
/// window reports no activity, and any recorded revolution shows in the
/// total.
pub proof fn lemma_sum_zero_iff_all_zero(s: Seq<u32>)
    ensures
        sum_of(s) == 0 <==> (forall|i: int| 0 <= i < s.len() ==> s[i] == 0),
    decreases s.len(),
{
    if s.len() > 0 {
        lemma_sum_zero_iff_all_zero(s.drop_last());
        lemma_sum_nonneg(s.drop_last());
        if sum_of(s) == 0 {
            assert(forall|i: int| 0 <= i < s.len() - 1 ==> s[i] == s.drop_last()[i]);
        } else {
            if forall|i: int| 0 <= i < s.len() ==> s[i] == 0 {
                assert(forall|i: int| 0 <= i < s.drop_last().len() ==> s.drop_last()[i] == 0);
                assert(s.last() == 0);
            }
        }
    }
}

/// After `n` rotations the window consists of what was beyond the first
/// `n` bins, followed by `n` fresh zero bins.
proof fn lemma_rotated_n_form(s: Seq<u32>, n: nat)
    requires
        n <= s.len(),
    ensures
        rotated_n(s, n) == s.subrange(n as int, s.len() as int) + zero_bins(n),
    decreases n,
{
    if n == 0 {
        assert(rotated_n(s, 0) =~= s.subrange(0, s.len() as int) + zero_bins(0));
    } else {
        lemma_rotated_n_form(s, (n - 1) as nat);
        let prev = s.subrange(n as int - 1, s.len() as int) + zero_bins((n - 1) as nat);
        assert(rotated_n(s, n) == rotated(prev));
        assert(rotated(prev) =~= s.subrange(n as int, s.len() as int) + zero_bins(n));
    }
}

/// Eventual decay of old activity: rotating a window as many times as it
/// has bins, with nothing recorded in between, returns it to all zero.
pub proof fn lemma_rotation_decays(s: Seq<u32>)
    ensures
        rotated_n(s, s.len()) == zero_bins(s.len()),
{
    lemma_rotated_n_form(s, s.len());
    assert(s.subrange(s.len() as int, s.len() as int) + zero_bins(s.len()) =~= zero_bins(s.len()));
}

} // verus!
