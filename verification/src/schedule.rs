//! The deterministic rules every validator evaluates independently: the turn
//! decision, the network-wide expected timestamp, the in-current-state check
//! and the fallback-trigger time.

use vstd::prelude::*;

use crate::model::{ChainSnapshot, HeadBlock, ProducerContext, ProposerLookup};

verus! {

/// Index of the block following the head within its batch: distance from the
/// enclosing macro block, clamped at zero (on a healthy chain the head never
/// precedes its macro block, but the rule is total).
pub open spec fn batch_index(head_number: u32, macro_number: u32) -> int {
    if head_number + 1 >= macro_number {
        head_number + 1 - macro_number
    } else {
        0
    }
}

/// The network-wide scheduled timestamp for the block following the head:
/// the macro-head timestamp plus the batch index times the inter-block
/// separation time. Every validator computes this same value with no
/// coordination messages.
pub open spec fn expected_timestamp(s: ChainSnapshot, block_separation_time: u64) -> int {
    s.macro_head.timestamp + batch_index(s.head.block_number, s.macro_head.block_number)
        * block_separation_time
}

/// The cycle is still about the chain's current state: the head carries the
/// seed the cycle was built on, and the target height extends it by one.
pub open spec fn in_current_state(ctx: ProducerContext, head: HeadBlock) -> bool {
    ctx.prev_seed == head.seed && ctx.block_number == head.block_number + 1
}

/// The local validator is the appointed proposer for the target height. A
/// failed lookup (pruned macro context) resolves to "not our turn": turn
/// re-evaluation happens on every attempt, so the failure is recoverable.
pub open spec fn our_turn(ctx: ProducerContext, s: ChainSnapshot) -> bool {
    match s.proposer {
        ProposerLookup::Found { slot_band } => slot_band == ctx.validator_slot_band,
        ProposerLookup::Pruned => false,
    }
}

/// The earliest moment the fallback may trigger: at least `producer_timeout`
/// from now, and at least the scheduled timestamp plus
/// `producer_timeout - block_separation_time`. Anchoring to the scheduled
/// time keeps the quorum from firing early relative to peers when this
/// validator enters the wait late.
pub open spec fn fallback_trigger(
    now: u64,
    expected_ts: int,
    producer_timeout: u64,
    block_separation_time: u64,
) -> int {
    let by_entry = now + producer_timeout;
    let by_schedule = expected_ts + (producer_timeout - block_separation_time);
    if by_entry >= by_schedule {
        by_entry
    } else {
        by_schedule
    }
}

/// The timestamp an ordinary block is produced with: the later of the head's
/// timestamp and the clock, so block timestamps never run backwards.
pub open spec fn production_timestamp(head_timestamp: u64, now: u64) -> u64 {
    if head_timestamp >= now {
        head_timestamp
    } else {
        now
    }
}

impl ProducerContext {
    /// The expected-timestamp rule, evaluated against a chain view.
    pub fn expected_next_timestamp(&self, s: &ChainSnapshot) -> (r: u64)
        requires
            s.head.block_number < u32::MAX,
            expected_timestamp(*s, self.block_separation_time) <= u64::MAX,
        ensures
            r == expected_timestamp(*s, self.block_separation_time),
    {
        let next_number: u32 = s.head.block_number + 1;
        let index: u64 = if next_number >= s.macro_head.block_number {
            (next_number - s.macro_head.block_number) as u64
        } else {
            0
        };
        s.macro_head.timestamp + index * self.block_separation_time
    }

    /// The turn decision, evaluated against a chain view.
    pub fn is_our_turn(&self, s: &ChainSnapshot) -> (r: bool)
        ensures
            r == our_turn(*self, *s),
    {
        match s.proposer {
            ProposerLookup::Found { slot_band } => slot_band == self.validator_slot_band,
            ProposerLookup::Pruned => false,
        }
    }

    /// The in-current-state check, evaluated against the head of a chain
    /// view.
    pub fn in_current_state(&self, head: &HeadBlock) -> (r: bool)
        ensures
            r == in_current_state(*self, *head),
    {
        self.prev_seed == head.seed
            && (self.block_number as u64) == (head.block_number as u64) + 1
    }

    /// When the fallback may trigger, given the clock and the scheduled
    /// timestamp. The result is a lower bound on the wake-up time, never a
    /// fixed delay from entry.
    pub fn fallback_trigger_time(&self, now: u64, expected_ts: u64) -> (r: u64)
        requires
            self.wf(),
            now + self.producer_timeout <= u64::MAX,
            expected_ts + (self.producer_timeout - self.block_separation_time) <= u64::MAX,
        ensures
            r == fallback_trigger(
                now,
                expected_ts as int,
                self.producer_timeout,
                self.block_separation_time,
            ),
            r >= now + self.producer_timeout,
            r >= expected_ts + (self.producer_timeout - self.block_separation_time),
    {
        let by_entry: u64 = now + self.producer_timeout;
        let by_schedule: u64 = expected_ts
            + (self.producer_timeout - self.block_separation_time);
        if by_entry >= by_schedule {
            by_entry
        } else {
            by_schedule
        }
    }
}

/// Determinism: the turn decision and the expected timestamp are functions of
/// the context and the snapshot alone — any two evaluations on equal inputs
/// agree, independent of call count.
pub proof fn lemma_schedule_deterministic(
    ctx1: ProducerContext,
    ctx2: ProducerContext,
    s1: ChainSnapshot,
    s2: ChainSnapshot,
)
    requires
        ctx1 == ctx2,
        s1 == s2,
    ensures
        our_turn(ctx1, s1) == our_turn(ctx2, s2),
        expected_timestamp(s1, ctx1.block_separation_time) == expected_timestamp(
            s2,
            ctx2.block_separation_time,
        ),
{
}

} // verus!
