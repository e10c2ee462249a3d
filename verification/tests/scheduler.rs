use micro_producer::budget::remaining_budget;
use micro_producer::cycle::{CycleAction, CycleEvent, Phase, ProductionCycle};
use micro_producer::model::{
    ChainSnapshot, EquivocationProof, HeadBlock, MacroHead, ProduceMicroBlockEvent,
    ProducedBlock, ProducerContext, ProposerLookup, PushOutcome, Seed, SkipBlockInfo,
    SkipBlockProof, ValidatorSet,
};
use micro_producer::source::{PollOutcome, ProduceMicroBlock};

fn context() -> ProducerContext {
    ProducerContext {
        block_number: 11,
        validator_slot_band: 3,
        prev_seed: Seed { entropy: 77 },
        voting_key: 9,
        equivocation_proofs: vec![EquivocationProof { offender_slot: 5, block_number: 7 }],
        producer_timeout: 4000,
        block_separation_time: 1000,
    }
}

fn snapshot(proposer: ProposerLookup) -> ChainSnapshot {
    ChainSnapshot {
        head: HeadBlock { block_number: 10, timestamp: 2000, seed: Seed { entropy: 77 } },
        macro_head: MacroHead { block_number: 8, timestamp: 100 },
        proposer,
        validators: ValidatorSet { slot_bands: vec![1, 2, 3, 4] },
    }
}

fn our_slot() -> ProposerLookup {
    ProposerLookup::Found { slot_band: 3 }
}

#[test]
fn expected_timestamp_formula() {
    let ctx = context();
    // macro-head timestamp + index of target height in its batch * separation:
    // 100 + (11 - 8) * 1000
    assert_eq!(ctx.expected_next_timestamp(&snapshot(our_slot())), 3100);
}

#[test]
fn expected_timestamp_clamps_before_macro_head() {
    let ctx = context();
    let mut s = snapshot(our_slot());
    s.macro_head.block_number = 200;
    assert_eq!(ctx.expected_next_timestamp(&s), 100);
}

#[test]
fn turn_decision_deterministic() {
    let ctx = context();
    let s = snapshot(our_slot());
    assert_eq!(ctx.is_our_turn(&s), ctx.is_our_turn(&s));
    assert!(ctx.is_our_turn(&s));
    assert_eq!(
        ctx.expected_next_timestamp(&s),
        ctx.expected_next_timestamp(&s)
    );
}

#[test]
fn turn_decision_other_slot() {
    let ctx = context();
    assert!(!ctx.is_our_turn(&snapshot(ProposerLookup::Found { slot_band: 4 })));
}

#[test]
fn in_current_state_checks_seed_and_height() {
    let ctx = context();
    let good = HeadBlock { block_number: 10, timestamp: 2000, seed: Seed { entropy: 77 } };
    let wrong_seed = HeadBlock { seed: Seed { entropy: 78 }, ..good };
    let wrong_height = HeadBlock { block_number: 11, ..good };
    assert!(ctx.in_current_state(&good));
    assert!(!ctx.in_current_state(&wrong_seed));
    assert!(!ctx.in_current_state(&wrong_height));
}

#[test]
fn fallback_trigger_entry_bound_wins() {
    let ctx = context();
    // now + producer_timeout = 6600 dominates 3100 + (4000 - 1000) = 6100
    let trigger = ctx.fallback_trigger_time(2600, 3100);
    assert_eq!(trigger, 6600);
    assert!(trigger >= 2600 + 4000);
    assert!(trigger >= 3100 + (4000 - 1000));
}

#[test]
fn fallback_trigger_schedule_bound_wins() {
    let ctx = context();
    // 5000 + (4000 - 1000) = 8000 dominates 0 + 4000
    let trigger = ctx.fallback_trigger_time(0, 5000);
    assert_eq!(trigger, 8000);
    assert!(trigger >= 4000);
    assert!(trigger >= 5000 + (4000 - 1000));
}

#[test]
fn byte_budget_split() {
    assert_eq!(remaining_budget(100_000, 30_000), 70_000);
    assert_eq!(remaining_budget(10, 30), 0);
    assert_eq!(remaining_budget(10, 10), 0);
    // both selections within their budgets never exceed the block's total
    let control = 30_000;
    let regular = remaining_budget(100_000, control);
    assert!(control + regular <= 100_000);
}

#[test]
fn scenario_immediate_production() {
    // Head height 10, target 11, our turn, expected timestamp already past:
    // commit an ordinary block at the current time.
    let mut cycle = ProductionCycle::new(context());
    let action = cycle.step(CycleEvent::ChainView { snapshot: snapshot(our_slot()), now: 5000 });
    match action {
        CycleAction::ProduceOrdinary { timestamp } => assert_eq!(timestamp, 5000),
        other => panic!("expected an ordinary production, got {:?}", other),
    }
    assert_eq!(cycle.phase, Phase::Producing);
    let block = ProducedBlock { block_number: 11, timestamp: 5000, skip: false };
    let action = cycle.step(CycleEvent::Pushed { block, accepted: Some(PushOutcome::Extended) });
    assert!(matches!(action, CycleAction::Stop));
    match cycle.phase {
        Phase::Committed { event: ProduceMicroBlockEvent::MicroBlock(b, outcome) } => {
            assert_eq!(b.block_number, 11);
            assert_eq!(outcome, PushOutcome::Extended);
        }
        other => panic!("expected a committed cycle, got {:?}", other),
    }
}

#[test]
fn scenario_waits_for_expected_timestamp() {
    // Expected timestamp 500 ms ahead: sleep ~500 ms, re-validate, commit;
    // the fallback path is never entered.
    let mut cycle = ProductionCycle::new(context());
    let action = cycle.step(CycleEvent::ChainView { snapshot: snapshot(our_slot()), now: 2600 });
    match action {
        CycleAction::Sleep { millis } => assert_eq!(millis, 500),
        other => panic!("expected a timed wait, got {:?}", other),
    }
    assert_eq!(cycle.phase, Phase::Waiting);
    let action = cycle.step(CycleEvent::TimerElapsed);
    assert!(matches!(action, CycleAction::AcquireChainView));
    assert_eq!(cycle.phase, Phase::AwaitTurn);
    let action = cycle.step(CycleEvent::ChainView { snapshot: snapshot(our_slot()), now: 3100 });
    match action {
        CycleAction::ProduceOrdinary { timestamp } => assert_eq!(timestamp, 3100),
        other => panic!("expected an ordinary production, got {:?}", other),
    }
    let block = ProducedBlock { block_number: 11, timestamp: 3100, skip: false };
    cycle.step(CycleEvent::Pushed { block, accepted: Some(PushOutcome::Extended) });
    assert!(matches!(cycle.phase, Phase::Committed { .. }));
}

#[test]
fn scenario_fallback_after_timeout() {
    // Not our turn and the proposer never produces: after the timeout the
    // cycle runs the quorum round and commits a skip block whose timestamp is
    // head timestamp + producer timeout.
    let not_ours = ProposerLookup::Found { slot_band: 4 };
    let mut cycle = ProductionCycle::new(context());
    let action = cycle.step(CycleEvent::ChainView { snapshot: snapshot(not_ours), now: 2600 });
    match action {
        // trigger max(2600 + 4000, 3100 + 3000) = 6600, so sleep 4000
        CycleAction::Sleep { millis } => assert_eq!(millis, 4000),
        other => panic!("expected the fallback wait, got {:?}", other),
    }
    assert_eq!(cycle.phase, Phase::AwaitTimeout);
    let action = cycle.step(CycleEvent::TimerElapsed);
    assert!(matches!(action, CycleAction::AcquireChainView));
    assert_eq!(cycle.phase, Phase::FallbackCheck);
    let action = cycle.step(CycleEvent::ChainView { snapshot: snapshot(not_ours), now: 6600 });
    let info = match action {
        CycleAction::StartFallback { info, voting_key, validator_slot_band, validators } => {
            assert_eq!(info, SkipBlockInfo { block_number: 11, vrf_entropy: 77 });
            assert_eq!(voting_key, 9);
            assert_eq!(validator_slot_band, 3);
            assert_eq!(validators.slot_bands, vec![1, 2, 3, 4]);
            info
        }
        other => panic!("expected the quorum round to start, got {:?}", other),
    };
    assert_eq!(cycle.phase, Phase::FallbackAggregation);
    let proof = SkipBlockProof { info };
    let action = cycle.step(CycleEvent::QuorumProof { proof });
    assert!(matches!(action, CycleAction::AcquireChainView));
    let action = cycle.step(CycleEvent::ChainView { snapshot: snapshot(not_ours), now: 7000 });
    match action {
        CycleAction::ProduceFallback { timestamp, proof: p } => {
            assert_eq!(timestamp, 2000 + 4000);
            assert_eq!(p, proof);
        }
        other => panic!("expected the fallback production, got {:?}", other),
    }
    let block = ProducedBlock { block_number: 11, timestamp: 6000, skip: true };
    cycle.step(CycleEvent::Pushed { block, accepted: Some(PushOutcome::Extended) });
    match cycle.phase {
        Phase::Committed { event: ProduceMicroBlockEvent::MicroBlock(b, _) } => {
            assert!(b.skip);
            assert_eq!(b.timestamp, 6000);
        }
        other => panic!("expected a committed cycle, got {:?}", other),
    }
}

#[test]
fn scenario_concurrent_push_aborts() {
    // A concurrent push advances the head while we wait for the scheduled
    // time: the re-check fails and the cycle aborts with no event.
    let mut source = ProduceMicroBlock::new(context());
    let action = source.step(CycleEvent::ChainView { snapshot: snapshot(our_slot()), now: 2600 });
    assert!(matches!(action, CycleAction::Sleep { millis: 500 }));
    source.step(CycleEvent::TimerElapsed);
    let mut moved = snapshot(our_slot());
    moved.head = HeadBlock { block_number: 11, timestamp: 3000, seed: Seed { entropy: 123 } };
    let action = source.step(CycleEvent::ChainView { snapshot: moved, now: 3100 });
    assert!(matches!(action, CycleAction::Stop));
    assert_eq!(source.poll_next(), PollOutcome::Closed);
    assert_eq!(source.poll_next(), PollOutcome::Closed);
}

#[test]
fn scenario_pruned_lookup_is_not_our_turn() {
    // A failed proposer lookup resolves to "not our turn": the cycle takes
    // the fallback-timeout path instead of crashing.
    let ctx = context();
    assert!(!ctx.is_our_turn(&snapshot(ProposerLookup::Pruned)));
    let mut cycle = ProductionCycle::new(ctx);
    let action = cycle.step(CycleEvent::ChainView {
        snapshot: snapshot(ProposerLookup::Pruned),
        now: 2600,
    });
    assert!(matches!(action, CycleAction::Sleep { millis: 4000 }));
    assert_eq!(cycle.phase, Phase::AwaitTimeout);
}

#[test]
fn rejected_push_ends_cycle_without_event() {
    let mut source = ProduceMicroBlock::new(context());
    source.step(CycleEvent::ChainView { snapshot: snapshot(our_slot()), now: 5000 });
    let block = ProducedBlock { block_number: 11, timestamp: 5000, skip: false };
    let action = source.step(CycleEvent::Pushed { block, accepted: None });
    assert!(matches!(action, CycleAction::Stop));
    assert_eq!(source.poll_next(), PollOutcome::Closed);
}

#[test]
fn source_yields_at_most_one_event() {
    let mut source = ProduceMicroBlock::new(context());
    assert_eq!(source.poll_next(), PollOutcome::Pending);
    source.step(CycleEvent::ChainView { snapshot: snapshot(our_slot()), now: 5000 });
    assert_eq!(source.poll_next(), PollOutcome::Pending);
    let block = ProducedBlock { block_number: 11, timestamp: 5000, skip: false };
    source.step(CycleEvent::Pushed { block, accepted: Some(PushOutcome::Rebranched) });
    match source.poll_next() {
        PollOutcome::Ready { event: ProduceMicroBlockEvent::MicroBlock(b, outcome) } => {
            assert_eq!(b.block_number, 11);
            assert_eq!(outcome, PushOutcome::Rebranched);
        }
        other => panic!("expected the one event, got {:?}", other),
    }
    assert_eq!(source.poll_next(), PollOutcome::Closed);
    assert_eq!(source.poll_next(), PollOutcome::Closed);
}
