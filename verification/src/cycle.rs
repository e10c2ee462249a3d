//! The production cycle: the state machine that sequences turn check,
//! scheduled production, timed waiting and the quorum fallback into exactly
//! one committed block — or an abort with no event.
//!
//! The cycle itself performs no suspension and touches no lock: it answers
//! each reported event with the next action for the driver, and every action
//! that follows a suspension demands a fresh chain view, so no assumption
//! about chain state survives a suspension.

use vstd::prelude::*;

use crate::model::{
    ChainSnapshot, ProduceMicroBlockEvent, ProducedBlock, ProducerContext, PushOutcome,
    SkipBlockInfo, SkipBlockProof, ValidatorSet,
};
use crate::schedule::{
    expected_timestamp, fallback_trigger, in_current_state, our_turn, production_timestamp,
};

verus! {

/// The states of a production cycle. `Committed` and `Aborted` are terminal;
/// every other state names the event the cycle is waiting for.
#[derive(Clone, Copy, PartialEq, Eq, Structural, Debug)]
pub enum Phase {
    /// Waiting for a chain view to run the turn check against.
    AwaitTurn,
    /// Our turn, but the scheduled timestamp is still ahead: timer running.
    Waiting,
    /// A commit attempt — ordinary or fallback — is in flight under the held
    /// view.
    Producing,
    /// Not our turn: the fallback timer is running.
    AwaitTimeout,
    /// The fallback timer elapsed: waiting for a chain view to re-validate
    /// against before starting the quorum round.
    FallbackCheck,
    /// The quorum round is in flight.
    FallbackAggregation,
    /// A quorum proof is in hand: waiting for a chain view to build the
    /// fallback block against.
    FallbackProducing { proof: SkipBlockProof },
    /// A block was committed; the event is ready to be yielded.
    Committed { event: ProduceMicroBlockEvent },
    /// The cycle ended without an event.
    Aborted,
}

/// What the driver reports back into the cycle.
#[derive(Clone, Debug)]
pub enum CycleEvent {
    /// A chain view was acquired: the snapshot it shows and the clock, in
    /// milliseconds since the epoch.
    ChainView { snapshot: ChainSnapshot, now: u64 },
    /// A requested timer elapsed.
    TimerElapsed,
    /// The fallback quorum resolved with a combined proof.
    QuorumProof { proof: SkipBlockProof },
    /// The commit attempt finished: the block as pushed and the chain's
    /// acceptance, or `None` if the chain rejected the block.
    Pushed { block: ProducedBlock, accepted: Option<PushOutcome> },
}

/// What the cycle asks the driver to do next. Each action names the event it
/// expects back.
#[derive(Clone, Debug)]
pub enum CycleAction {
    /// Acquire an upgradable chain view and report a `ChainView` event.
    AcquireChainView,
    /// Release the view, sleep for `millis`, then report `TimerElapsed`.
    Sleep { millis: u64 },
    /// Still holding the view: assemble an ordinary block at `timestamp`
    /// from the pending equivocation proofs and the transaction source,
    /// upgrade to an exclusive write, push, and report `Pushed`.
    ProduceOrdinary { timestamp: u64 },
    /// Release the view and start the fallback quorum round; report
    /// `QuorumProof` once it resolves.
    StartFallback {
        info: SkipBlockInfo,
        voting_key: u64,
        validator_slot_band: u16,
        validators: ValidatorSet,
    },
    /// Still holding the view: assemble the fallback block at `timestamp`
    /// carrying `proof` instead of transactions, upgrade to an exclusive
    /// write, push, and report `Pushed`.
    ProduceFallback { timestamp: u64, proof: SkipBlockProof },
    /// The cycle is terminal; nothing more will happen.
    Stop,
}

/// Which event each phase expects; terminal phases expect none.
pub open spec fn accepts(phase: Phase, event: CycleEvent) -> bool {
    match (phase, event) {
        (Phase::AwaitTurn, CycleEvent::ChainView { .. }) => true,
        (Phase::Waiting, CycleEvent::TimerElapsed) => true,
        (Phase::AwaitTimeout, CycleEvent::TimerElapsed) => true,
        (Phase::FallbackCheck, CycleEvent::ChainView { .. }) => true,
        (Phase::FallbackAggregation, CycleEvent::QuorumProof { .. }) => true,
        (Phase::FallbackProducing { .. }, CycleEvent::ChainView { .. }) => true,
        (Phase::Producing, CycleEvent::Pushed { .. }) => true,
        _ => false,
    }
}

/// The machine limits a chain view must satisfy so that every timestamp the
/// cycle may derive from it fits in a `u64`.
pub open spec fn snapshot_fits(ctx: ProducerContext, snapshot: ChainSnapshot, now: u64) -> bool {
    &&& snapshot.head.block_number < u32::MAX
    &&& expected_timestamp(snapshot, ctx.block_separation_time) <= u64::MAX
    &&& now + ctx.producer_timeout <= u64::MAX
    &&& expected_timestamp(snapshot, ctx.block_separation_time) + (ctx.producer_timeout
        - ctx.block_separation_time) <= u64::MAX
    &&& snapshot.head.timestamp + ctx.producer_timeout <= u64::MAX
}

/// `snapshot_fits` for the events that carry a snapshot; nothing for the
/// rest.
pub open spec fn event_fits(ctx: ProducerContext, event: CycleEvent) -> bool {
    match event {
        CycleEvent::ChainView { snapshot, now } => snapshot_fits(ctx, snapshot, now),
        _ => true,
    }
}

/// The full transition relation of the cycle, as one total function from
/// phase and event to next phase and action. `ProductionCycle::step` is
/// proved to follow it exactly.
pub open spec fn step_spec(ctx: ProducerContext, phase: Phase, event: CycleEvent) -> (
    Phase,
    CycleAction,
) {
    match (phase, event) {
        (Phase::AwaitTurn, CycleEvent::ChainView { snapshot, now }) => {
            if !in_current_state(ctx, snapshot.head) {
                (Phase::Aborted, CycleAction::Stop)
            } else if our_turn(ctx, snapshot) {
                let expected = expected_timestamp(snapshot, ctx.block_separation_time);
                if expected <= now {
                    (
                        Phase::Producing,
                        CycleAction::ProduceOrdinary {
                            timestamp: production_timestamp(snapshot.head.timestamp, now),
                        },
                    )
                } else {
                    (Phase::Waiting, CycleAction::Sleep { millis: (expected - now) as u64 })
                }
            } else {
                let expected = expected_timestamp(snapshot, ctx.block_separation_time);
                let trigger = fallback_trigger(
                    now,
                    expected,
                    ctx.producer_timeout,
                    ctx.block_separation_time,
                );
                (Phase::AwaitTimeout, CycleAction::Sleep { millis: (trigger - now) as u64 })
            }
        },
        (Phase::Waiting, CycleEvent::TimerElapsed) => (
            Phase::AwaitTurn,
            CycleAction::AcquireChainView,
        ),
        (Phase::AwaitTimeout, CycleEvent::TimerElapsed) => (
            Phase::FallbackCheck,
            CycleAction::AcquireChainView,
        ),
        (Phase::FallbackCheck, CycleEvent::ChainView { snapshot, now }) => {
            if in_current_state(ctx, snapshot.head) {
                (
                    Phase::FallbackAggregation,
                    CycleAction::StartFallback {
                        info: SkipBlockInfo {
                            block_number: ctx.block_number,
                            vrf_entropy: ctx.prev_seed.entropy,
                        },
                        voting_key: ctx.voting_key,
                        validator_slot_band: ctx.validator_slot_band,
                        validators: snapshot.validators,
                    },
                )
            } else {
                (Phase::Aborted, CycleAction::Stop)
            }
        },
        (Phase::FallbackAggregation, CycleEvent::QuorumProof { proof }) => (
            Phase::FallbackProducing { proof },
            CycleAction::AcquireChainView,
        ),
        (Phase::FallbackProducing { proof }, CycleEvent::ChainView { snapshot, now }) => {
            if in_current_state(ctx, snapshot.head) {
                (
                    Phase::Producing,
                    CycleAction::ProduceFallback {
                        timestamp: (snapshot.head.timestamp + ctx.producer_timeout) as u64,
                        proof,
                    },
                )
            } else {
                (Phase::Aborted, CycleAction::Stop)
            }
        },
        (Phase::Producing, CycleEvent::Pushed { block, accepted }) => {
            match accepted {
                Option::Some(outcome) => (
                    Phase::Committed {
                        event: ProduceMicroBlockEvent::MicroBlock(block, outcome),
                    },
                    CycleAction::Stop,
                ),
                Option::None => (Phase::Aborted, CycleAction::Stop),
            }
        },
        _ => (phase, CycleAction::Stop),
    }
}

/// A commit attempt: the only actions under which a push can occur.
pub open spec fn is_commit_action(action: CycleAction) -> bool {
    action is ProduceOrdinary || action is ProduceFallback
}

/// The actions a cycle issues from `phase` when fed `events`, in order.
pub open spec fn run(ctx: ProducerContext, phase: Phase, events: Seq<CycleEvent>) -> Seq<
    CycleAction,
>
    decreases events.len(),
{
    if events.len() == 0 {
        Seq::empty()
    } else {
        let next = step_spec(ctx, phase, events[0]);
        seq![next.1] + run(ctx, next.0, events.drop_first())
    }
}

/// A cycle answers every event with exactly one action.
pub proof fn lemma_run_len(ctx: ProducerContext, phase: Phase, events: Seq<CycleEvent>)
    ensures
        run(ctx, phase, events).len() == events.len(),
    decreases events.len(),
{
    if events.len() > 0 {
        let next = step_spec(ctx, phase, events[0]);
        lemma_run_len(ctx, next.0, events.drop_first());
    }
}

/// A terminal cycle is done: whatever event arrives, the phase stands and the
/// only answer is `Stop`.
pub proof fn lemma_terminal_absorbs(ctx: ProducerContext, phase: Phase, event: CycleEvent)
    requires
        phase is Committed || phase is Aborted,
    ensures
        step_spec(ctx, phase, event).0 == phase,
        step_spec(ctx, phase, event).1 == CycleAction::Stop,
{
}

/// An aborted cycle stays aborted and never issues a commit action, whatever
/// events are fed to it.
pub proof fn lemma_aborted_never_commits(ctx: ProducerContext, events: Seq<CycleEvent>)
    ensures
        forall|i: int|
            0 <= i < events.len() ==> !is_commit_action(
                #[trigger] run(ctx, Phase::Aborted, events)[i],
            ),
    decreases events.len(),
{
    if events.len() > 0 {
        let rest = events.drop_first();
        lemma_aborted_never_commits(ctx, rest);
        lemma_run_len(ctx, Phase::Aborted, rest);
        assert(step_spec(ctx, Phase::Aborted, events[0]).0 == Phase::Aborted);
        assert(run(ctx, Phase::Aborted, events) == seq![CycleAction::Stop] + run(
            ctx,
            Phase::Aborted,
            rest,
        ));
        assert forall|i: int|
            0 <= i < events.len() implies !is_commit_action(
            #[trigger] run(ctx, Phase::Aborted, events)[i],
        ) by {
            if i > 0 {
                assert((seq![CycleAction::Stop] + run(ctx, Phase::Aborted, rest))[i] == run(
                    ctx,
                    Phase::Aborted,
                    rest,
                )[i - 1]);
                assert(!is_commit_action(run(ctx, Phase::Aborted, rest)[i - 1]));
            } else {
                assert((seq![CycleAction::Stop] + run(ctx, Phase::Aborted, rest))[0]
                    == CycleAction::Stop);
            }
        }
    }
}

/// A chain view that fails the in-current-state check aborts the cycle at
/// once, from every phase that awaits a view.
pub proof fn lemma_stale_view_aborts(
    ctx: ProducerContext,
    phase: Phase,
    snapshot: ChainSnapshot,
    now: u64,
)
    requires
        accepts(phase, CycleEvent::ChainView { snapshot, now }),
        !in_current_state(ctx, snapshot.head),
    ensures
        step_spec(ctx, phase, CycleEvent::ChainView { snapshot, now }).0 is Aborted,
        step_spec(ctx, phase, CycleEvent::ChainView { snapshot, now }).1 == CycleAction::Stop,
{
}

/// No stale commit: once any re-check of the in-current-state invariant
/// fails, the cycle issues no commit action — not for that view, and not at
/// any later event.
pub proof fn lemma_no_stale_commit(
    ctx: ProducerContext,
    phase: Phase,
    snapshot: ChainSnapshot,
    now: u64,
    later: Seq<CycleEvent>,
)
    requires
        accepts(phase, CycleEvent::ChainView { snapshot, now }),
        !in_current_state(ctx, snapshot.head),
    ensures
        forall|i: int|
            0 <= i < later.len() + 1 ==> !is_commit_action(
                #[trigger] run(
                    ctx,
                    phase,
                    seq![CycleEvent::ChainView { snapshot, now }] + later,
                )[i],
            ),
{
    let stale = CycleEvent::ChainView { snapshot, now };
    let events = seq![stale] + later;
    lemma_stale_view_aborts(ctx, phase, snapshot, now);
    assert(events[0] == stale);
    assert(events.len() == later.len() + 1);
    assert(step_spec(ctx, phase, stale).0 == Phase::Aborted);
    assert(run(ctx, phase, events) == seq![CycleAction::Stop] + run(
        ctx,
        Phase::Aborted,
        events.drop_first(),
    ));
    assert(events.drop_first() =~= later);
    lemma_aborted_never_commits(ctx, later);
    lemma_run_len(ctx, Phase::Aborted, later);
    assert(run(ctx, phase, events) == seq![CycleAction::Stop] + run(ctx, Phase::Aborted, later));
    assert forall|i: int|
        0 <= i < later.len() + 1 implies !is_commit_action(#[trigger] run(ctx, phase, events)[i]) by {
        if i > 0 {
            assert((seq![CycleAction::Stop] + run(ctx, Phase::Aborted, later))[i] == run(
                ctx,
                Phase::Aborted,
                later,
            )[i - 1]);
            assert(!is_commit_action(run(ctx, Phase::Aborted, later)[i - 1]));
        } else {
            assert((seq![CycleAction::Stop] + run(ctx, Phase::Aborted, later))[0]
                == CycleAction::Stop);
        }
    }
}

/// One production cycle for one target block height. The driver feeds it the
/// event its last action asked for and performs the action it answers with.
pub struct ProductionCycle {
    pub ctx: ProducerContext,
    pub phase: Phase,
}

impl ProductionCycle {
    pub open spec fn wf(self) -> bool {
        self.ctx.wf()
    }

    /// The cycle has reached `Committed` or `Aborted` and will do nothing
    /// more.
    pub open spec fn terminal(self) -> bool {
        self.phase is Committed || self.phase is Aborted
    }

    /// A fresh cycle for the context's target height, ready for the first
    /// turn check.
    pub fn new(ctx: ProducerContext) -> (r: ProductionCycle)
        requires
            ctx.wf(),
        ensures
            r.ctx == ctx,
            r.phase == Phase::AwaitTurn,
    {
        ProductionCycle { ctx, phase: Phase::AwaitTurn }
    }

    /// Feed the event the pending action asked for; answers with the next
    /// action. The whole transition is pinned to `step_spec`.
    pub fn step(&mut self, event: CycleEvent) -> (action: CycleAction)
        requires
            old(self).wf(),
            accepts(old(self).phase, event),
            event_fits(old(self).ctx, event),
        ensures
            final(self).ctx == old(self).ctx,
            final(self).phase == step_spec(old(self).ctx, old(self).phase, event).0,
            action == step_spec(old(self).ctx, old(self).phase, event).1,
    {
        match event {
            CycleEvent::ChainView { snapshot, now } => match self.phase {
                Phase::AwaitTurn => {
                    let expected: u64 = self.ctx.expected_next_timestamp(&snapshot);
                    if !self.ctx.in_current_state(&snapshot.head) {
                        self.phase = Phase::Aborted;
                        CycleAction::Stop
                    } else if self.ctx.is_our_turn(&snapshot) {
                        if expected <= now {
                            self.phase = Phase::Producing;
                            CycleAction::ProduceOrdinary {
                                timestamp: if snapshot.head.timestamp >= now {
                                    snapshot.head.timestamp
                                } else {
                                    now
                                },
                            }
                        } else {
                            self.phase = Phase::Waiting;
                            CycleAction::Sleep { millis: expected - now }
                        }
                    } else {
                        let trigger: u64 = self.ctx.fallback_trigger_time(now, expected);
                        self.phase = Phase::AwaitTimeout;
                        CycleAction::Sleep { millis: trigger - now }
                    }
                },
                Phase::FallbackCheck => {
                    if self.ctx.in_current_state(&snapshot.head) {
                        self.phase = Phase::FallbackAggregation;
                        CycleAction::StartFallback {
                            info: SkipBlockInfo {
                                block_number: self.ctx.block_number,
                                vrf_entropy: self.ctx.prev_seed.entropy,
                            },
                            voting_key: self.ctx.voting_key,
                            validator_slot_band: self.ctx.validator_slot_band,
                            validators: snapshot.validators,
                        }
                    } else {
                        self.phase = Phase::Aborted;
                        CycleAction::Stop
                    }
                },
                Phase::FallbackProducing { proof } => {
                    if self.ctx.in_current_state(&snapshot.head) {
                        self.phase = Phase::Producing;
                        CycleAction::ProduceFallback {
                            timestamp: snapshot.head.timestamp + self.ctx.producer_timeout,
                            proof,
                        }
                    } else {
                        self.phase = Phase::Aborted;
                        CycleAction::Stop
                    }
                },
                _ => {
                    assert(false);
                    CycleAction::Stop
                },
            },
            CycleEvent::TimerElapsed => match self.phase {
                Phase::Waiting => {
                    self.phase = Phase::AwaitTurn;
                    CycleAction::AcquireChainView
                },
                Phase::AwaitTimeout => {
                    self.phase = Phase::FallbackCheck;
                    CycleAction::AcquireChainView
                },
                _ => {
                    assert(false);
                    CycleAction::Stop
                },
            },
            CycleEvent::QuorumProof { proof } => match self.phase {
                Phase::FallbackAggregation => {
                    self.phase = Phase::FallbackProducing { proof };
                    CycleAction::AcquireChainView
                },
                _ => {
                    assert(false);
                    CycleAction::Stop
                },
            },
            CycleEvent::Pushed { block, accepted } => match self.phase {
                Phase::Producing => match accepted {
                    Option::Some(outcome) => {
                        self.phase = Phase::Committed {
                            event: ProduceMicroBlockEvent::MicroBlock(block, outcome),
                        };
                        CycleAction::Stop
                    },
                    Option::None => {
                        self.phase = Phase::Aborted;
                        CycleAction::Stop
                    },
                },
                _ => {
                    assert(false);
                    CycleAction::Stop
                },
            },
        }
    }
}

} // verus!
