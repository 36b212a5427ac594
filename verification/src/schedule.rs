//! How ticks turn into cycles: the interplay of the timer interrupt, which
//! raises the signal, and the main loop, which consumes it.
//!
//! The signal is a flag, not a counter. A tick that arrives while the flag is
//! still up is absorbed; a tick that finds the flag clear starts exactly one
//! cycle, at the next pass of the main loop.

use crate::engine::TestOutcome;
use crate::policy::{Directive, Phase, SelfTestState};
use vstd::prelude::*;

verus! {

/// One thing that happens to the system.
pub enum LoopEvent {
    /// The timer interrupt fired and its handler raised the signal.
    Tick,
    /// The main loop went round once: it looked at the signal and, when that
    /// asked for a cycle, ran the cycle to its end with this outcome.
    Pass(TestOutcome),
}

/// The main loop between two events, with a count of the cycles run so far.
#[verifier::ext_equal]
pub struct MainLoop {
    /// The state of the self-test.
    pub core: SelfTestState,
    /// Whether the tick signal is raised.
    pub raised: bool,
    /// Number of cycles run.
    pub cycles: nat,
}

/// The ticks a flag stands for: one when raised, none when clear.
pub open spec fn flag_count(raised: bool) -> nat {
    if raised {
        1
    } else {
        0
    }
}

/// Number of ticks among `events`.
pub open spec fn ticks(events: Seq<LoopEvent>) -> nat
    decreases events.len(),
{
    if events.len() == 0 {
        0
    } else {
        ticks(events.drop_last()) + (if events.last() is Tick {
            1nat
        } else {
            0nat
        })
    }
}

impl MainLoop {
    /// The main loop at boot: idle, signal clear, no cycle run.
    pub open spec fn boot() -> MainLoop {
        MainLoop { core: SelfTestState::boot(), raised: false, cycles: 0 }
    }

    /// One pass of the main loop: look at the signal, and run a whole cycle
    /// for `message` with `outcome` if the look asked for one.
    pub open spec fn pass(self, outcome: TestOutcome, message: Seq<u8>) -> MainLoop {
        let (polled, raised, directive) = self.core.poll(self.raised);
        if directive == Directive::RunCycle {
            MainLoop {
                core: polled.begin().report(outcome, message).end(),
                raised,
                cycles: self.cycles + 1,
            }
        } else {
            MainLoop { core: polled, raised, cycles: self.cycles }
        }
    }

    /// The main loop after one event.
    pub open spec fn apply(self, event: LoopEvent, message: Seq<u8>) -> MainLoop {
        match event {
            LoopEvent::Tick => MainLoop { raised: true, ..self },
            LoopEvent::Pass(outcome) => self.pass(outcome, message),
        }
    }

    /// The main loop after `events`, taken in order.
    pub open spec fn run(self, events: Seq<LoopEvent>, message: Seq<u8>) -> MainLoop
        decreases events.len(),
    {
        if events.len() == 0 {
            self
        } else {
            self.run(events.drop_last(), message).apply(events.last(), message)
        }
    }

    /// The main loop keeps up with the timer: every tick among `events` finds
    /// the signal clear, because the loop went round since the tick before.
    pub open spec fn keeps_up(self, events: Seq<LoopEvent>, message: Seq<u8>) -> bool {
        forall|i: int|
            0 <= i < events.len() && events[i] is Tick ==> !(#[trigger] self.run(
                events.take(i),
                message,
            )).raised
    }
}

/// `n` rounds of a tick followed by one pass of the main loop, the `i`-th
/// pass ending with `outcomes[i]`.
pub open spec fn rounds(outcomes: Seq<TestOutcome>) -> Seq<LoopEvent> {
    Seq::new(
        2 * outcomes.len(),
        |i: int|
            if i % 2 == 0 {
                LoopEvent::Tick
            } else {
                LoopEvent::Pass(outcomes[i / 2])
            },
    )
}

/// Between events the main loop is idle and valid, whatever happened.
pub proof fn lemma_run_returns_to_idle(start: MainLoop, events: Seq<LoopEvent>, message: Seq<u8>)
    requires
        start.core.wf(),
        start.core.phase == Phase::Idle,
    ensures
        start.run(events, message).core == SelfTestState::boot(),
    decreases events.len(),
{
    if events.len() > 0 {
        lemma_run_returns_to_idle(start, events.drop_last(), message);
    }
}

/// No cycle without a tick: the cycles run and the tick still pending never
/// add up to more than the ticks that came in. A cycle is never run twice
/// for one tick.
pub proof fn lemma_no_cycle_without_tick(
    start: MainLoop,
    events: Seq<LoopEvent>,
    message: Seq<u8>,
)
    requires
        start.core.wf(),
        start.core.phase == Phase::Idle,
    ensures
        start.run(events, message).cycles + flag_count(start.run(events, message).raised)
            <= start.cycles + flag_count(start.raised) + ticks(events),
    decreases events.len(),
{
    if events.len() > 0 {
        lemma_no_cycle_without_tick(start, events.drop_last(), message);
        lemma_run_returns_to_idle(start, events.drop_last(), message);
    }
}

/// No tick without a cycle: as long as the main loop keeps up with the timer,
/// every tick is either answered by exactly one cycle or still pending, to be
/// answered at the next pass. None is lost and none counts twice.
pub proof fn lemma_every_tick_runs_one_cycle(
    start: MainLoop,
    events: Seq<LoopEvent>,
    message: Seq<u8>,
)
    requires
        start.core.wf(),
        start.core.phase == Phase::Idle,
        start.keeps_up(events, message),
    ensures
        start.run(events, message).cycles + flag_count(start.run(events, message).raised)
            == start.cycles + flag_count(start.raised) + ticks(events),
    decreases events.len(),
{
    if events.len() > 0 {
        let before = events.drop_last();
        assert forall|i: int| 0 <= i < before.len() && before[i] is Tick implies !(
        #[trigger] start.run(before.take(i), message)).raised by {
            assert(before.take(i) =~= events.take(i));
        }
        lemma_every_tick_runs_one_cycle(start, before, message);
        lemma_run_returns_to_idle(start, before, message);
    }
}

/// `n` ticks with one pass of the main loop after each run `n` cycles: one
/// for each tick, no more and no fewer. Afterwards the loop is idle again and
/// no tick is pending.
pub proof fn lemma_tick_consumption(outcomes: Seq<TestOutcome>, message: Seq<u8>)
    ensures
        MainLoop::boot().run(rounds(outcomes), message) == (MainLoop {
            core: SelfTestState::boot(),
            raised: false,
            cycles: outcomes.len(),
        }),
    decreases outcomes.len(),
{
    let events = rounds(outcomes);
    if outcomes.len() > 0 {
        let earlier = outcomes.drop_last();
        lemma_tick_consumption(earlier, message);
        let tick = events.drop_last().last();
        assert(events.drop_last().drop_last() =~= rounds(earlier));
        let before = MainLoop::boot().run(rounds(earlier), message);
        assert(MainLoop::boot().run(events.drop_last(), message) == before.apply(tick, message));
    }
}

} // verus!
