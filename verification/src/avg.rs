//! Resumable streaming mean.
//!
//! Ratings are carried as integers in hundredths of a rating point, so the
//! accumulator can hold the exact sum of all absorbed samples. The mean is
//! then the exact rational `sum / n`; `result` reports its integer part.
//! Because `(n, sum)` is plain data, the accumulator can be persisted after
//! any sample and rebuilt later without re-reading earlier samples.

use vstd::prelude::*;

verus! {

/// Sum of a sequence of samples.
pub open spec fn sample_sum(s: Seq<u32>) -> int
    decreases s.len(),
{
    if s.len() == 0 {
        0
    } else {
        sample_sum(s.drop_last()) + s.last()
    }
}

/// Integer part of the mean of `n` samples summing to `sum`; zero when
/// nothing has been absorbed yet.
pub open spec fn mean_of(n: int, sum: int) -> int {
    if n == 0 {
        0
    } else {
        sum / n
    }
}

/// Streaming mean: how many samples were absorbed and their exact sum,
/// in hundredths of a rating point.
pub struct Avg {
    pub n: u32,
    pub sum: u64,
}

impl Avg {
    /// Rebuild the accumulator from a persisted `(n, sum)` snapshot.
    pub fn new(n: u32, sum: u64) -> (a: Avg)
        ensures
            a.n == n,
            a.sum == sum,
    {
        Avg { n, sum }
    }

    /// Absorb one sample.
    pub fn add(&mut self, sample: u32)
        requires
            old(self).n < u32::MAX,
            old(self).sum + sample <= u64::MAX,
        ensures
            final(self).n == old(self).n + 1,
            final(self).sum == old(self).sum + sample,
    {
        self.n = self.n + 1;
        self.sum = self.sum + sample as u64;
    }

    /// Integer part of the current mean, in hundredths of a rating point.
    pub fn result(&self) -> (r: u64)
        ensures
            r == mean_of(self.n as int, self.sum as int),
    {
        if self.n == 0 {
            0
        } else {
            self.sum / (self.n as u64)
        }
    }

    /// How many samples have been absorbed.
    pub fn n(&self) -> (c: u32)
        ensures
            c == self.n,
    {
        self.n
    }

    /// Absorb a batch of samples in order.
    pub fn add_samples(&mut self, samples: &Vec<u32>)
        requires
            old(self).n + samples@.len() <= u32::MAX,
            old(self).sum + sample_sum(samples@) <= u64::MAX,
        ensures
            final(self).n == old(self).n + samples@.len(),
            final(self).sum == old(self).sum + sample_sum(samples@),
    {
        proof {
            lemma_sample_sum_nonneg(samples@);
        }
        let mut idx: usize = 0;
        while idx < samples.len()
            invariant
                0 <= idx <= samples@.len(),
                self.n == old(self).n + idx,
                self.sum == old(self).sum + sample_sum(samples@.take(idx as int)),
                old(self).n + samples@.len() <= u32::MAX,
                old(self).sum + sample_sum(samples@) <= u64::MAX,
            decreases samples@.len() - idx,
        {
            proof {
                lemma_sample_sum_take_succ(samples@, idx as int);
                lemma_sample_sum_take_le(samples@, idx as int + 1);
                lemma_sample_sum_nonneg(samples@.take(idx as int));
            }
            self.add(samples[idx]);
            idx = idx + 1;
        }
        proof {
            assert(samples@.take(samples@.len() as int) =~= samples@);
        }
    }
}

/// A sum of samples is never negative.
pub proof fn lemma_sample_sum_nonneg(s: Seq<u32>)
    ensures
        sample_sum(s) >= 0,
    decreases s.len(),
{
    if s.len() > 0 {
        lemma_sample_sum_nonneg(s.drop_last());
    }
}

/// Extending a prefix by one sample adds exactly that sample to its sum.
pub proof fn lemma_sample_sum_take_succ(s: Seq<u32>, i: int)
    requires
        0 <= i < s.len(),
    ensures
        sample_sum(s.take(i + 1)) == sample_sum(s.take(i)) + s[i],
{
    assert(s.take(i + 1).drop_last() =~= s.take(i));
    assert(s.take(i + 1).last() == s[i]);
}

/// A prefix of the samples never sums to more than the whole.
pub proof fn lemma_sample_sum_take_le(s: Seq<u32>, i: int)
    requires
        0 <= i <= s.len(),
    ensures
        sample_sum(s.take(i)) <= sample_sum(s),
    decreases s.len() - i,
{
    if i == s.len() {
        assert(s.take(i) =~= s);
    } else {
        lemma_sample_sum_take_succ(s, i);
        lemma_sample_sum_take_le(s, i + 1);
    }
}

/// Concatenation law for sums of samples.
pub proof fn lemma_sample_sum_concat(a: Seq<u32>, b: Seq<u32>)
    ensures
        sample_sum(a + b) == sample_sum(a) + sample_sum(b),
    decreases b.len(),
{
    if b.len() == 0 {
        assert(a + b =~= a);
    } else {
        assert((a + b).drop_last() =~= a + b.drop_last());
        lemma_sample_sum_concat(a, b.drop_last());
    }
}

/// Law: incremental averaging is resumable. Absorbing `rest` into the
/// snapshot left by absorbing `first` yields the same count and the same
/// exact sum -- hence the same exact mean -- as absorbing `first + rest`
/// in a single uninterrupted run.
pub proof fn lemma_avg_resumable(n0: int, sum0: int, first: Seq<u32>, rest: Seq<u32>)
    ensures
        n0 + (first + rest).len() == (n0 + first.len()) + rest.len(),
        sum0 + sample_sum(first + rest) == (sum0 + sample_sum(first)) + sample_sum(rest),
{
    lemma_sample_sum_concat(first, rest);
}

} // verus!
