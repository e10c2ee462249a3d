//! The plain data the scheduler works on: what it reads from the chain, what
//! it carries through a cycle, and what a cycle can emit.

use vstd::prelude::*;

verus! {

/// A verifiable-random seed, modeled by the entropy the scheduler reads from
/// it. Two seeds compare equal exactly when their entropy does.
#[derive(Clone, Copy, PartialEq, Eq, Structural, Debug)]
pub struct Seed {
    pub entropy: u64,
}

/// The chain's head block, as the scheduler reads it.
#[derive(Clone, Copy, PartialEq, Eq, Structural, Debug)]
pub struct HeadBlock {
    pub block_number: u32,
    /// Milliseconds since the epoch.
    pub timestamp: u64,
    pub seed: Seed,
}

/// The most recent macro block: the anchor of the expected-timestamp rule.
#[derive(Clone, Copy, PartialEq, Eq, Structural, Debug)]
pub struct MacroHead {
    pub block_number: u32,
    /// Milliseconds since the epoch.
    pub timestamp: u64,
}

/// Outcome of the chain's deterministic proposer lookup for the target
/// height.
#[derive(Clone, Copy, PartialEq, Eq, Structural, Debug)]
pub enum ProposerLookup {
    /// The selection function yielded the proposer's slot band.
    Found { slot_band: u16 },
    /// The macro context the lookup needs was pruned concurrently.
    Pruned,
}

/// The active validator set, as the slot bands it comprises. The scheduler
/// never reads it; it only hands it on to the fallback quorum.
#[derive(Clone, Debug)]
pub struct ValidatorSet {
    pub slot_bands: Vec<u16>,
}

/// Everything one acquisition of the chain view shows the cycle before it
/// decides. `proposer` is the lookup result for the cycle's target height and
/// entropy, sampled by the driver from the same view.
#[derive(Clone, Debug)]
pub struct ChainSnapshot {
    pub head: HeadBlock,
    pub macro_head: MacroHead,
    pub proposer: ProposerLookup,
    pub validators: ValidatorSet,
}

/// Evidence that a validator signed conflicting blocks, pending inclusion in
/// the next block this validator produces.
#[derive(Clone, Copy, PartialEq, Eq, Structural, Debug)]
pub struct EquivocationProof {
    pub offender_slot: u16,
    pub block_number: u32,
}

/// Identifies which fallback (skip-block) round is being run, so the quorum
/// can correlate attestations.
#[derive(Clone, Copy, PartialEq, Eq, Structural, Debug)]
pub struct SkipBlockInfo {
    pub block_number: u32,
    pub vrf_entropy: u64,
}

/// A quorum-backed combined attestation that the appointed proposer's turn is
/// skipped, for the round it names.
#[derive(Clone, Copy, PartialEq, Eq, Structural, Debug)]
pub struct SkipBlockProof {
    pub info: SkipBlockInfo,
}

/// The committed block, as the cycle's event reports it.
#[derive(Clone, Copy, PartialEq, Eq, Structural, Debug)]
pub struct ProducedBlock {
    pub block_number: u32,
    /// Milliseconds since the epoch.
    pub timestamp: u64,
    /// Whether the block carries a skip-block proof instead of transactions.
    pub skip: bool,
}

/// The chain's acceptance outcome for a pushed block.
#[derive(Clone, Copy, PartialEq, Eq, Structural, Debug)]
pub enum PushOutcome {
    /// The block extended the current main chain.
    Extended,
    /// The block caused a rebranch to another chain.
    Rebranched,
}

/// The sole externally observable output of a cycle: the committed block and
/// how the chain accepted it. A cycle yields at most one.
#[derive(Clone, Copy, PartialEq, Eq, Structural, Debug)]
pub enum ProduceMicroBlockEvent {
    MicroBlock(ProducedBlock, PushOutcome),
}

/// Everything fixed for the lifetime of one production cycle.
#[derive(Clone, Debug)]
pub struct ProducerContext {
    /// The height this cycle is to produce: one past the head it extends.
    pub block_number: u32,
    /// The local validator's slot band.
    pub validator_slot_band: u16,
    /// The seed of the block the target is to extend.
    pub prev_seed: Seed,
    /// Opaque handle to the signing material, held and used by the driver.
    pub voting_key: u64,
    /// Equivocation proofs pending inclusion in an ordinary block.
    pub equivocation_proofs: Vec<EquivocationProof>,
    /// How long to wait for the appointed producer, in milliseconds.
    pub producer_timeout: u64,
    /// The network's fixed inter-block separation time, in milliseconds.
    pub block_separation_time: u64,
}

impl ProducerContext {
    /// Configuration invariant: the producer timeout is at least the
    /// inter-block separation time, so the fallback anchor
    /// `producer_timeout - block_separation_time` never underflows.
    pub open spec fn wf(self) -> bool {
        self.producer_timeout >= self.block_separation_time
    }
}

} // verus!
