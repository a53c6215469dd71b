//! Adaptive backoff and circuit-breaker counter.
//!
//! Each worker owns one token. A failure hardens the token (one more unit of
//! delay before the next attempt), a success eases it, and once the counter
//! reaches the configured limit the worker must stop for good.

use vstd::prelude::*;

verus! {

/// Backoff state of one worker: a failure counter `i`, the failure `limit`
/// at which the worker stops, the base `delay_step` in milliseconds, and the
/// sleep used when backpressure throttles the item worker.
pub struct RegulationToken {
    pub limit: u32,
    pub delay_step: u64,
    pub i: u32,
    pub prevail_for: u64,
}

/// The counter after one `ease`: one less, but never below zero and never
/// while the token is already stopped.
pub open spec fn eased(i: int, limit: int) -> int {
    if i < limit && i != 0 {
        i - 1
    } else {
        i
    }
}

/// The delay, in milliseconds, charged at counter value `i`.
pub open spec fn delay_of(i: int, step: int) -> int {
    (i + 1) * step
}

impl RegulationToken {
    pub fn new(limit: u32, delay_step: u64, prevail_for: u64) -> (t: RegulationToken)
        ensures
            t.limit == limit,
            t.delay_step == delay_step,
            t.i == 0,
            t.prevail_for == prevail_for,
    {
        RegulationToken { limit, delay_step, i: 0, prevail_for }
    }

    /// How long to sleep before the next unit of work: one `delay_step` more
    /// for every recorded failure.
    pub fn delay(&self) -> (d: u64)
        requires
            (self.i + 1) * self.delay_step <= u64::MAX,
        ensures
            d == delay_of(self.i as int, self.delay_step as int),
    {
        (self.i as u64 + 1) * self.delay_step
    }

    /// True once accumulated failures have reached the limit; the worker
    /// treats this as a fatal stop condition.
    pub fn is_stopped(&self) -> (stopped: bool)
        ensures
            stopped == (self.i >= self.limit),
    {
        self.i >= self.limit
    }

    /// Record one success: step the counter back toward zero. A no-op at
    /// zero and on a stopped token.
    pub fn ease(&mut self)
        ensures
            final(self).i == eased(old(self).i as int, old(self).limit as int),
            final(self).limit == old(self).limit,
            final(self).delay_step == old(self).delay_step,
            final(self).prevail_for == old(self).prevail_for,
    {
        if !self.is_stopped() && self.i != 0 {
            self.i = self.i - 1;
        }
    }

    /// Record one failure.
    pub fn harden(&mut self)
        requires
            old(self).i < u32::MAX,
        ensures
            final(self).i == old(self).i + 1,
            final(self).limit == old(self).limit,
            final(self).delay_step == old(self).delay_step,
            final(self).prevail_for == old(self).prevail_for,
    {
        self.i = self.i + 1;
    }
}

/// One recorded outcome of a unit of work, as it acts on the token.
pub enum TokenOp {
    Harden,
    Ease,
}

/// The failure counter after a sequence of hardens and eases, starting
/// from counter value `i`.
pub open spec fn counter_after(i: int, limit: int, ops: Seq<TokenOp>) -> int
    decreases ops.len(),
{
    if ops.len() == 0 {
        i
    } else {
        let j = match ops[0] {
            TokenOp::Harden => i + 1,
            TokenOp::Ease => eased(i, limit),
        };
        counter_after(j, limit, ops.drop_first())
    }
}

pub open spec fn count_hardens(ops: Seq<TokenOp>) -> int
    decreases ops.len(),
{
    if ops.len() == 0 {
        0
    } else {
        (if ops[0] is Harden {
            1int
        } else {
            0int
        }) + count_hardens(ops.drop_first())
    }
}

pub open spec fn count_eases(ops: Seq<TokenOp>) -> int
    decreases ops.len(),
{
    if ops.len() == 0 {
        0
    } else {
        (if ops[0] is Ease {
            1int
        } else {
            0int
        }) + count_eases(ops.drop_first())
    }
}

/// A run in which every ease finds the counter strictly between zero and
/// the limit, so no ease is clipped.
pub open spec fn clean_run(i: int, limit: int, ops: Seq<TokenOp>) -> bool
    decreases ops.len(),
{
    if ops.len() == 0 {
        true
    } else {
        match ops[0] {
            TokenOp::Harden => clean_run(i + 1, limit, ops.drop_first()),
            TokenOp::Ease => 0 < i < limit && clean_run(i - 1, limit, ops.drop_first()),
        }
    }
}

/// Law: over any sequence of hardens the counter only grows, by exactly one
/// per failure; the delay is therefore monotonically non-decreasing.
pub proof fn lemma_harden_run(i: int, limit: int, ops: Seq<TokenOp>)
    requires
        forall|k: int| 0 <= k < ops.len() ==> ops[k] is Harden,
    ensures
        counter_after(i, limit, ops) == i + ops.len(),
    decreases ops.len(),
{
    if ops.len() > 0 {
        lemma_harden_run(i + 1, limit, ops.drop_first());
    }
}

/// Law: over any sequence of eases the counter never grows; the delay is
/// therefore monotonically non-increasing.
pub proof fn lemma_ease_run(i: int, limit: int, ops: Seq<TokenOp>)
    requires
        forall|k: int| 0 <= k < ops.len() ==> ops[k] is Ease,
    ensures
        counter_after(i, limit, ops) <= i,
        i >= 0 ==> counter_after(i, limit, ops) >= 0,
    decreases ops.len(),
{
    if ops.len() > 0 {
        lemma_ease_run(eased(i, limit), limit, ops.drop_first());
    }
}

/// Law: the delay charged at a lower counter value never exceeds the delay
/// charged at a higher one.
pub proof fn lemma_delay_monotone(i1: int, i2: int, step: int)
    requires
        0 <= i1 <= i2,
        0 <= step,
    ensures
        delay_of(i1, step) <= delay_of(i2, step),
{
    assert((i1 + 1) * step <= (i2 + 1) * step) by (nonlinear_arith)
        requires
            0 <= i1 <= i2,
            0 <= step,
    ;
}

/// Law: over any sequence of hardens the delay is monotonically
/// non-decreasing.
pub proof fn lemma_harden_delay_monotone(i: int, limit: int, step: int, ops: Seq<TokenOp>)
    requires
        forall|k: int| 0 <= k < ops.len() ==> ops[k] is Harden,
        0 <= i,
        0 <= step,
    ensures
        delay_of(i, step) <= delay_of(counter_after(i, limit, ops), step),
{
    lemma_harden_run(i, limit, ops);
    lemma_delay_monotone(i, i + ops.len(), step);
}

/// Law: over any sequence of eases the delay is monotonically
/// non-increasing.
pub proof fn lemma_ease_delay_monotone(i: int, limit: int, step: int, ops: Seq<TokenOp>)
    requires
        forall|k: int| 0 <= k < ops.len() ==> ops[k] is Ease,
        0 <= i,
        0 <= step,
    ensures
        delay_of(counter_after(i, limit, ops), step) <= delay_of(i, step),
{
    lemma_ease_run(i, limit, ops);
    lemma_delay_monotone(counter_after(i, limit, ops), i, step);
}

/// An ease steps the counter down by at most one, so the counter never
/// falls below hardens minus eases.
pub proof fn lemma_counter_lower_bound(i: int, limit: int, ops: Seq<TokenOp>)
    ensures
        counter_after(i, limit, ops) >= i + count_hardens(ops) - count_eases(ops),
    decreases ops.len(),
{
    if ops.len() > 0 {
        match ops[0] {
            TokenOp::Harden => lemma_counter_lower_bound(i + 1, limit, ops.drop_first()),
            TokenOp::Ease => lemma_counter_lower_bound(eased(i, limit), limit, ops.drop_first()),
        }
    }
}

/// Law: from a fresh token, the token is stopped whenever cumulative
/// hardens minus eases have reached the limit, whatever was clipped along
/// the way.
pub proof fn lemma_stopped_when_hardens_reach_limit(limit: int, ops: Seq<TokenOp>)
    requires
        count_hardens(ops) - count_eases(ops) >= limit,
    ensures
        counter_after(0, limit, ops) >= limit,
{
    lemma_counter_lower_bound(0, limit, ops);
}

/// Law: in a clean run the counter lands exactly on hardens minus eases.
pub proof fn lemma_counter_exact(i: int, limit: int, ops: Seq<TokenOp>)
    requires
        clean_run(i, limit, ops),
    ensures
        counter_after(i, limit, ops) == i + count_hardens(ops) - count_eases(ops),
    decreases ops.len(),
{
    if ops.len() > 0 {
        match ops[0] {
            TokenOp::Harden => lemma_counter_exact(i + 1, limit, ops.drop_first()),
            TokenOp::Ease => lemma_counter_exact(i - 1, limit, ops.drop_first()),
        }
    }
}

/// Law: starting from a fresh token, a clean run stops the token exactly
/// when cumulative hardens minus eases reach the limit.
pub proof fn lemma_stopped_iff(limit: int, ops: Seq<TokenOp>)
    requires
        clean_run(0, limit, ops),
    ensures
        (counter_after(0, limit, ops) >= limit) <==> (count_hardens(ops) - count_eases(ops)
            >= limit),
{
    lemma_counter_exact(0, limit, ops);
}

} // verus!
