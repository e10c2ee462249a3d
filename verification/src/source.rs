//! The single-shot event source around one production cycle: it exposes the
//! cycle's one terminal outcome to a driver loop, yields at most one event,
//! and then permanently closes.

use vstd::prelude::*;

use crate::cycle::{accepts, event_fits, step_spec, CycleAction, CycleEvent, Phase, ProductionCycle};
use crate::model::{ProduceMicroBlockEvent, ProducerContext};

verus! {

/// What one poll of the source reports.
#[derive(Clone, Copy, PartialEq, Eq, Structural, Debug)]
pub enum PollOutcome {
    /// The cycle has not reached a terminal state yet; drive it further.
    Pending,
    /// The cycle committed: the one event this source will ever yield.
    Ready { event: ProduceMicroBlockEvent },
    /// The source is finished and will never yield an event.
    Closed,
}

/// A lazily driven event source over one production cycle. Callers construct
/// one instance per target block height; a closed instance never reopens.
pub struct ProduceMicroBlock {
    pub inner: Option<ProductionCycle>,
}

/// What a poll does: report a terminal cycle's outcome once, closing the
/// source; leave a running cycle untouched; answer `Closed` forever after.
pub open spec fn poll_spec(s: ProduceMicroBlock) -> (ProduceMicroBlock, PollOutcome) {
    match s.inner {
        Option::None => (s, PollOutcome::Closed),
        Option::Some(cycle) => match cycle.phase {
            Phase::Committed { event } => (
                ProduceMicroBlock { inner: Option::None },
                PollOutcome::Ready { event },
            ),
            Phase::Aborted => (ProduceMicroBlock { inner: Option::None }, PollOutcome::Closed),
            _ => (s, PollOutcome::Pending),
        },
    }
}

impl ProduceMicroBlock {
    /// The source still wraps a cycle; a poll may yet yield an event.
    pub open spec fn live(self) -> bool {
        self.inner is Some
    }

    /// The wrapped cycle, while the source is live.
    pub open spec fn cycle(self) -> ProductionCycle {
        self.inner->Some_0
    }

    /// A source for one fresh cycle over the given context.
    pub fn new(ctx: ProducerContext) -> (r: ProduceMicroBlock)
        requires
            ctx.wf(),
        ensures
            r.live(),
            r.cycle() == (ProductionCycle { ctx, phase: Phase::AwaitTurn }),
    {
        ProduceMicroBlock { inner: Option::Some(ProductionCycle::new(ctx)) }
    }

    /// Drive the wrapped cycle one event further. Driving never yields an
    /// event and never closes the source: only `poll_next` does either.
    pub fn step(&mut self, event: CycleEvent) -> (action: CycleAction)
        requires
            old(self).live(),
            old(self).cycle().wf(),
            accepts(old(self).cycle().phase, event),
            event_fits(old(self).cycle().ctx, event),
        ensures
            final(self).live(),
            *final(self) == drive_spec(*old(self), event),
            final(self).cycle().ctx == old(self).cycle().ctx,
            final(self).cycle().phase == step_spec(
                old(self).cycle().ctx,
                old(self).cycle().phase,
                event,
            ).0,
            action == step_spec(old(self).cycle().ctx, old(self).cycle().phase, event).1,
    {
        match &mut self.inner {
            Option::Some(cycle) => cycle.step(event),
            Option::None => {
                assert(false);
                CycleAction::Stop
            },
        }
    }

    /// The stream poll, stripped of the executor: report the cycle's terminal
    /// outcome once, then stay closed.
    pub fn poll_next(&mut self) -> (r: PollOutcome)
        ensures
            *final(self) == poll_spec(*old(self)).0,
            r == poll_spec(*old(self)).1,
            r is Ready ==> old(self).live() && !final(self).live(),
            r is Pending <==> old(self).live() && !old(self).cycle().terminal(),
            !old(self).live() ==> r is Closed && *final(self) == *old(self),
    {
        match &self.inner {
            Option::None => PollOutcome::Closed,
            Option::Some(cycle) => {
                let phase = cycle.phase;
                match phase {
                    Phase::Committed { event } => {
                        self.inner = Option::None;
                        PollOutcome::Ready { event }
                    },
                    Phase::Aborted => {
                        self.inner = Option::None;
                        PollOutcome::Closed
                    },
                    _ => PollOutcome::Pending,
                }
            },
        }
    }
}

/// What a drive does to the source: advance the wrapped cycle by one event;
/// a closed source is left as it is. `step` is pinned to this.
pub open spec fn drive_spec(s: ProduceMicroBlock, event: CycleEvent) -> ProduceMicroBlock {
    match s.inner {
        Option::Some(cycle) => ProduceMicroBlock {
            inner: Option::Some(
                ProductionCycle {
                    ctx: cycle.ctx,
                    phase: step_spec(cycle.ctx, cycle.phase, event).0,
                },
            ),
        },
        Option::None => s,
    }
}

/// One interaction with a source: a drive of the wrapped cycle, or a poll.
pub enum SourceOp {
    Drive { event: CycleEvent },
    Poll,
}

/// How many events the source yields over the given interactions, in order.
/// Only a poll can yield; a drive only advances the cycle.
pub open spec fn events_yielded(s: ProduceMicroBlock, ops: Seq<SourceOp>) -> int
    decreases ops.len(),
{
    if ops.len() == 0 {
        0
    } else {
        match ops[0] {
            SourceOp::Poll => {
                let next = poll_spec(s);
                (if next.1 is Ready {
                    1int
                } else {
                    0int
                }) + events_yielded(next.0, ops.drop_first())
            },
            SourceOp::Drive { event } => events_yielded(drive_spec(s, event), ops.drop_first()),
        }
    }
}

/// A source that no longer wraps a cycle yields nothing, however it is
/// driven and polled from then on.
pub proof fn lemma_closed_yields_nothing(s: ProduceMicroBlock, ops: Seq<SourceOp>)
    requires
        !s.live(),
    ensures
        events_yielded(s, ops) == 0,
    decreases ops.len(),
{
    if ops.len() > 0 {
        match ops[0] {
            SourceOp::Poll => lemma_closed_yields_nothing(poll_spec(s).0, ops.drop_first()),
            SourceOp::Drive { event } => lemma_closed_yields_nothing(
                drive_spec(s, event),
                ops.drop_first(),
            ),
        }
    }
}

/// At most one event: over any interleaving of drives and polls, however
/// long, a source yields at most one event. A poll that yields closes the
/// source, and a closed source never reopens.
pub proof fn lemma_at_most_one_event(s: ProduceMicroBlock, ops: Seq<SourceOp>)
    ensures
        events_yielded(s, ops) <= 1,
    decreases ops.len(),
{
    if ops.len() > 0 {
        match ops[0] {
            SourceOp::Poll => {
                let next = poll_spec(s);
                if next.1 is Ready {
                    assert(!next.0.live());
                    lemma_closed_yields_nothing(next.0, ops.drop_first());
                } else {
                    lemma_at_most_one_event(next.0, ops.drop_first());
                }
            },
            SourceOp::Drive { event } => {
                lemma_at_most_one_event(drive_spec(s, event), ops.drop_first());
            },
        }
    }
}

} // verus!
