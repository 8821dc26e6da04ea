//! Per-channel averaging buffers for the multiplexed converter: raw codes
//! are accumulated per channel and read out as a 16-bit scaled average.

use vstd::prelude::*;

use vstd::arithmetic::div_mod::{lemma_div_by_multiple, lemma_div_is_ordered, lemma_div_pos_is_pos};

verus! {

/// Sums and counts of raw 12-bit readings for the eight channels.
pub struct ChannelBuffers {
    sums: [u64; 8],
    counts: [u32; 8],
}

impl ChannelBuffers {
    /// Each channel's sum is what at most `count` readings of at most
    /// 4095 can reach.
    pub closed spec fn wf(&self) -> bool {
        forall|i: int| 0 <= i < 8 ==> #[trigger] self.sums[i] <= self.counts[i] * 4_095
    }

    pub closed spec fn spec_sum(&self, channel: int) -> int {
        self.sums[channel] as int
    }

    pub closed spec fn spec_count(&self, channel: int) -> int {
        self.counts[channel] as int
    }

    pub fn new() -> (r: Self)
        ensures
            r.wf(),
            forall|i: int| 0 <= i < 8 ==> r.spec_sum(i) == 0 && r.spec_count(i) == 0,
    {
        ChannelBuffers { sums: [0, 0, 0, 0, 0, 0, 0, 0], counts: [0, 0, 0, 0, 0, 0, 0, 0] }
    }

    /// Add one reading of every channel (raw codes, at most 4095 each).
    pub fn add_samples(&mut self, raw: &[u16; 8])
        requires
            old(self).wf(),
            forall|i: int| 0 <= i < 8 ==> #[trigger] raw[i] <= 4_095,
            forall|i: int| 0 <= i < 8 ==> #[trigger] old(self).spec_count(i) < u32::MAX,
        ensures
            final(self).wf(),
            forall|i: int|
                0 <= i < 8 ==> #[trigger] final(self).spec_sum(i) == old(self).spec_sum(i) + raw[i]
                    && final(self).spec_count(i) == old(self).spec_count(i) + 1,
    {
        let mut i: usize = 0;
        while i < 8
            invariant
                i <= 8,
                old(self).wf(),
                forall|j: int| 0 <= j < 8 ==> #[trigger] raw[j] <= 4_095,
                forall|j: int| 0 <= j < 8 ==> #[trigger] old(self).spec_count(j) < u32::MAX,
                forall|j: int|
                    i <= j < 8 ==> #[trigger] self.sums[j] == old(self).sums[j] && self.counts[j]
                        == old(self).counts[j],
                forall|j: int|
                    0 <= j < i ==> #[trigger] self.sums[j] == old(self).sums[j] + raw[j]
                        && self.counts[j] == old(self).counts[j] + 1,
            decreases 8 - i,
        {
            proof {
                let c0 = old(self).counts[i as int] as int;
                assert(old(self).spec_count(i as int) < u32::MAX);
                assert(old(self).sums[i as int] <= old(self).counts[i as int] * 4_095);
                assert(c0 * 4_095 + 4_095 == (c0 + 1) * 4_095) by (nonlinear_arith);
                assert((c0 + 1) * 4_095 <= (u32::MAX as int) * 4_095) by (nonlinear_arith)
                    requires
                        c0 + 1 <= u32::MAX,
                ;
            }
            let ghost prev = *self;
            self.sums[i] = self.sums[i] + raw[i] as u64;
            self.counts[i] = self.counts[i] + 1;
            proof {
                assert forall|j: int| 0 <= j < 8 && j != i implies self.sums[j] == prev.sums[j]
                    && self.counts[j] == prev.counts[j] by {
                    assert(self.sums@ == prev.sums@.update(i as int, self.sums[i as int]));
                    assert(self.counts@ == prev.counts@.update(i as int, self.counts[i as int]));
                }
            }
            i = i + 1;
        }
        proof {
            assert forall|j: int| 0 <= j < 8 implies #[trigger] self.sums[j] <= self.counts[j]
                * 4_095 by {
                let c0 = old(self).counts[j] as int;
                assert(old(self).sums[j] <= old(self).counts[j] * 4_095);
                assert(c0 * 4_095 + 4_095 == (c0 + 1) * 4_095) by (nonlinear_arith);
            }
        }
    }

    /// Read the channel's average, scaled from the 12-bit input range to a
    /// 16-bit result, and clear the channel.  An empty channel reads zero.
    pub fn read_and_clear(&mut self, channel: u8) -> (r: u16)
        requires
            old(self).wf(),
        ensures
            final(self).wf(),
            ({
                let ch = channel % 8;
                &&& r == (if old(self).spec_count(ch as int) == 0 {
                    0
                } else {
                    old(self).spec_sum(ch as int) * 65_535 / (old(self).spec_count(ch as int)
                        * 4_095)
                })
                &&& final(self).spec_sum(ch as int) == 0
                &&& final(self).spec_count(ch as int) == 0
                &&& forall|i: int|
                    0 <= i < 8 && i != ch ==> #[trigger] final(self).spec_sum(i) == old(
                        self,
                    ).spec_sum(i) && final(self).spec_count(i) == old(self).spec_count(i)
            }),
    {
        let ch: usize = (channel % 8) as usize;
        let sum: u64 = self.sums[ch];
        let count: u32 = self.counts[ch];
        self.sums[ch] = 0;
        self.counts[ch] = 0;
        if count == 0 {
            return 0;
        }
        let denom: u64 = count as u64 * 4_095;
        proof {
            assert(sum * 65_535 <= (count as int * 4_095) * 65_535) by (nonlinear_arith)
                requires
                    sum <= count as int * 4_095,
            ;
            assert(sum * 65_535 <= 18_446_744_073_709_551_615) by (nonlinear_arith)
                requires
                    sum <= count as int * 4_095,
                    count <= u32::MAX,
            ;
            lemma_div_pos_is_pos(sum as int * 65_535, denom as int);
            lemma_div_is_ordered(sum as int * 65_535, denom as int * 65_535, denom as int);
            lemma_div_by_multiple(65_535, denom as int);
            assert(denom as int * 65_535 == 65_535 * denom as int) by (nonlinear_arith);
        }
        let scaled: u64 = sum * 65_535 / denom;
        scaled as u16
    }
}

} // verus!
