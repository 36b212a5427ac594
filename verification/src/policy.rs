//! The idle policy: when a cycle starts, what it passes through, and what the
//! board shows while nothing is going on.

use crate::bounded::{line_as_str, line_bytes, line_clear, line_from_str};
use crate::engine::{LoopbackEngine, TestOutcome};
use crate::indicator::IndicatorState;
use crate::message::SelfTestMessage;
use crate::report::{led_for, plan, render, rendered_text, report_steps, verdict_led, ReportStep};
use crate::signal::TickSignal;
use vstd::prelude::*;
use vstd::string::StringSliceAdditionalSpecFns;

verus! {

/// Where the main loop stands.
#[derive(Clone, Copy, Debug, PartialEq, Eq, Structural)]
pub enum Phase {
    /// Nothing to do: lights out, processor asleep until the next interrupt.
    Idle,
    /// A tick has been taken from the signal; the cycle is about to begin.
    Triggered,
    /// The cycle is under way, from the first byte sent to the end of the
    /// report.
    Running,
}

/// What the main loop has to do after it looked at the tick signal.
#[derive(Clone, Copy, Debug, PartialEq, Eq, Structural)]
pub enum Directive {
    /// No tick: keep the verdict lights off and wait for the next interrupt.
    Sleep,
    /// A tick was consumed: run one self-test cycle now.
    RunCycle,
    /// A cycle is already under way; the signal was left alone.
    Busy,
}

/// The state of the self-test as a plain value.
#[verifier::ext_equal]
pub struct SelfTestState {
    /// Where the main loop stands.
    pub phase: Phase,
    /// The outcome on show, from the report of a cycle until its end.
    pub reported: Option<TestOutcome>,
    /// The bytes in the status text buffer.
    pub text: Seq<u8>,
}

impl SelfTestState {
    /// Only a running cycle has anything on show, and the text buffer is
    /// empty whenever nothing is.
    pub open spec fn wf(self) -> bool {
        &&& self.phase != Phase::Running ==> self.reported is None
        &&& self.reported is None ==> self.text == Seq::<u8>::empty()
    }

    /// The state at boot: idle, nothing on show.
    pub open spec fn boot() -> SelfTestState {
        SelfTestState { phase: Phase::Idle, reported: None, text: Seq::empty() }
    }

    /// The lights in this state: the light of the reported outcome and no
    /// other one, or none at all while nothing is reported.
    pub open spec fn indicators(self) -> IndicatorState {
        match self.reported {
            Some(outcome) => IndicatorState::dark().with(verdict_led(outcome), true),
            None => IndicatorState::dark(),
        }
    }

    /// One look at the tick signal, whose flag is `raised`. Gives the state
    /// and the flag afterwards and what the main loop has to do. Only an idle
    /// loop touches the flag, and it reads and clears it in one step.
    pub open spec fn poll(self, raised: bool) -> (SelfTestState, bool, Directive) {
        match self.phase {
            Phase::Idle => if raised {
                (SelfTestState { phase: Phase::Triggered, ..self }, false, Directive::RunCycle)
            } else {
                (self, false, Directive::Sleep)
            },
            _ => (self, raised, Directive::Busy),
        }
    }

    /// The state once the triggered cycle has begun.
    pub open spec fn begin(self) -> SelfTestState {
        if self.phase == Phase::Triggered {
            SelfTestState { phase: Phase::Running, ..self }
        } else {
            self
        }
    }

    /// A running cycle that has not reported yet.
    pub open spec fn can_report(self) -> bool {
        self.phase == Phase::Running && self.reported is None
    }

    /// The state once `outcome` of the cycle for `message` is on show.
    pub open spec fn report(self, outcome: TestOutcome, message: Seq<u8>) -> SelfTestState {
        if self.can_report() {
            SelfTestState {
                phase: Phase::Running,
                reported: Some(outcome),
                text: rendered_text(outcome, message),
            }
        } else {
            self
        }
    }

    /// A running cycle whose report is on show.
    pub open spec fn can_end(self) -> bool {
        self.phase == Phase::Running && self.reported is Some
    }

    /// The state once the reported cycle is over: idle again, lights out,
    /// text buffer empty.
    pub open spec fn end(self) -> SelfTestState {
        if self.can_end() {
            SelfTestState::boot()
        } else {
            self
        }
    }
}

/// The self-test as the main loop holds it.
#[derive(Debug)]
pub struct SelfTest {
    phase: Phase,
    reported: Option<TestOutcome>,
    line: heapless::String<30>,
}

impl View for SelfTest {
    type V = SelfTestState;

    closed spec fn view(&self) -> SelfTestState {
        SelfTestState { phase: self.phase, reported: self.reported, text: line_bytes(self.line) }
    }
}

impl SelfTest {
    #[verifier::type_invariant]
    spec fn inv(&self) -> bool {
        self@.wf()
    }

    /// The self-test at boot: idle, all lights off, nothing to show.
    pub fn new() -> (core: Self)
        ensures
            core@ == SelfTestState::boot(),
            core@.wf(),
    {
        proof {
            reveal_strlit("");
            vstd::string::is_ascii_spec_bytes("");
        }
        SelfTest { phase: Phase::Idle, reported: None, line: line_from_str("") }
    }

    /// Looks at the tick signal. An idle loop reads and clears the flag in
    /// one step: with a tick pending it moves to `Triggered` and asks for a
    /// cycle, without one it stays as it is and goes back to sleep. While a
    /// cycle is under way the signal is not touched, so a tick that arrives
    /// meanwhile is still pending afterwards.
    pub fn poll(&mut self, signal: &mut TickSignal) -> (directive: Directive)
        ensures
            (final(self)@, final(signal)@, directive) == old(self)@.poll(old(signal)@),
            final(self)@.wf(),
    {
        proof {
            use_type_invariant(&*self);
        }
        match self.phase {
            Phase::Idle => {
                if signal.take() {
                    self.phase = Phase::Triggered;
                    Directive::RunCycle
                } else {
                    Directive::Sleep
                }
            },
            _ => Directive::Busy,
        }
    }

    /// Begins the cycle that a consumed tick asked for and hands out its
    /// engine, with an empty receive buffer. Without a consumed tick there
    /// is no cycle to begin: nothing changes and no engine is handed out.
    pub fn begin_cycle<'a>(&mut self, message: &'a SelfTestMessage) -> (engine: Option<
        LoopbackEngine<'a>,
    >)
        ensures
            final(self)@ == old(self)@.begin(),
            final(self)@.wf(),
            engine is Some <==> old(self)@.phase == Phase::Triggered,
            engine matches Some(e) ==> e@ == crate::engine::Exchange::start(message@) && e@.wf(),
    {
        proof {
            use_type_invariant(&*self);
        }
        match self.phase {
            Phase::Triggered => {
                self.phase = Phase::Running;
                Some(LoopbackEngine::start(message))
            },
            _ => None,
        }
    }

    /// Puts the outcome of the running cycle on show: the status text goes
    /// into the text buffer, the light of the outcome counts as lit, and the
    /// caller gets the steps to carry out, in order. Outside a running cycle,
    /// or when the cycle has reported already, nothing changes and there is
    /// nothing to carry out.
    pub fn report(&mut self, outcome: TestOutcome, message: &SelfTestMessage) -> (steps: Option<
        Vec<ReportStep>,
    >)
        ensures
            final(self)@ == old(self)@.report(outcome, message@),
            final(self)@.wf(),
            steps is Some <==> old(self)@.can_report(),
            steps matches Some(list) ==> list@ == report_steps(outcome),
    {
        proof {
            use_type_invariant(&*self);
        }
        match (self.phase, self.reported) {
            (Phase::Running, None) => {
                self.reported = Some(outcome);
                self.line = render(outcome, message);
                Some(plan(outcome))
            },
            _ => None,
        }
    }

    /// Ends the reported cycle: back to idle, verdict lights off, text buffer
    /// emptied. Gives `true` when a reported cycle was there to end; otherwise
    /// nothing changes.
    pub fn end_cycle(&mut self) -> (ended: bool)
        ensures
            final(self)@ == old(self)@.end(),
            final(self)@.wf(),
            ended == old(self)@.can_end(),
    {
        proof {
            use_type_invariant(&*self);
        }
        match (self.phase, self.reported) {
            (Phase::Running, Some(_)) => {
                line_clear(&mut self.line);
                self.reported = None;
                self.phase = Phase::Idle;
                true
            },
            _ => false,
        }
    }

    /// Where the main loop stands.
    pub fn phase(&self) -> (phase: Phase)
        ensures
            phase == self@.phase,
            self@.wf(),
    {
        proof {
            use_type_invariant(self);
        }
        self.phase
    }

    /// The outcome on show, if a report is up.
    pub fn reported(&self) -> (reported: Option<TestOutcome>)
        ensures
            reported == self@.reported,
            self@.wf(),
    {
        proof {
            use_type_invariant(self);
        }
        self.reported
    }

    /// The lights as they have to be right now.
    pub fn indicators(&self) -> (lights: IndicatorState)
        ensures
            lights == self@.indicators(),
            self@.wf(),
            !(lights.red && lights.green),
            self@.phase != Phase::Running ==> lights == IndicatorState::dark(),
    {
        proof {
            use_type_invariant(self);
        }
        let mut lights = IndicatorState::all_off();
        match self.reported {
            Some(outcome) => lights.turn_on(led_for(outcome)),
            None => {},
        }
        lights
    }

    /// The status text as it stands in the text buffer.
    pub fn status_text(&self) -> (text: &str)
        ensures
            text.spec_bytes() == self@.text,
            self@.wf(),
    {
        proof {
            use_type_invariant(self);
        }
        line_as_str(&self.line)
    }
}

/// The state after `n` looks at a signal that was clear every time.
pub open spec fn quiet_polls(state: SelfTestState, n: nat) -> SelfTestState
    decreases n,
{
    if n == 0 {
        state
    } else {
        quiet_polls(state.poll(false).0, (n - 1) as nat)
    }
}

/// Every step takes a valid state to a valid state, and the state at boot is
/// valid.
pub proof fn lemma_steps_keep_validity(
    state: SelfTestState,
    raised: bool,
    outcome: TestOutcome,
    message: Seq<u8>,
)
    requires
        state.wf(),
    ensures
        SelfTestState::boot().wf(),
        state.poll(raised).0.wf(),
        state.begin().wf(),
        state.report(outcome, message).wf(),
        state.end().wf(),
{
}

/// No tick, no action: an idle loop that finds the signal clear goes back to
/// sleep with nothing changed, however often it looks. The lights stay dark,
/// the text buffer stays empty, and nothing is handed out to draw.
pub proof fn lemma_no_tick_no_action(state: SelfTestState, n: nat)
    requires
        state.wf(),
        state.phase == Phase::Idle,
    ensures
        state.poll(false) == (state, false, Directive::Sleep),
        quiet_polls(state, n) == state,
        state.indicators() == IndicatorState::dark(),
        state.text == Seq::<u8>::empty(),
    decreases n,
{
    if n > 0 {
        lemma_no_tick_no_action(state, (n - 1) as nat);
    }
}

/// The two verdict lights are never lit together and the third light is never
/// lit at all. While a report is on show exactly one verdict light is lit,
/// the one of the reported outcome; in every other state, the idle one in
/// particular, all lights are dark.
pub proof fn lemma_verdict_lights_exclusive(state: SelfTestState)
    requires
        state.wf(),
    ensures
        !(state.indicators().red && state.indicators().green),
        !state.indicators().blue,
        state.reported matches Some(outcome) ==> state.indicators().shows_one_verdict()
            && state.indicators().lit(verdict_led(outcome)),
        state.reported is None ==> state.indicators() == IndicatorState::dark(),
        state.phase != Phase::Running ==> state.indicators() == IndicatorState::dark(),
{
}

/// A cycle that has just reported shows exactly one verdict light, and the
/// end of the cycle puts it out again.
pub proof fn lemma_report_lights_one(state: SelfTestState, outcome: TestOutcome, message: Seq<u8>)
    requires
        state.wf(),
        state.can_report(),
    ensures
        state.report(outcome, message).indicators().shows_one_verdict(),
        state.report(outcome, message).indicators() == IndicatorState::dark().with(
            verdict_led(outcome),
            true,
        ),
        state.report(outcome, message).can_end(),
        state.report(outcome, message).end() == SelfTestState::boot(),
        SelfTestState::boot().indicators() == IndicatorState::dark(),
{
}

/// A faithful echo passes, and the status text of the pass carries the message:
/// the text is the label followed by the bytes of the message and nothing
/// else.
pub proof fn lemma_round_trip(state: SelfTestState, message: Seq<u8>)
    requires
        state.can_report(),
    ensures
        crate::engine::verdict(message, message) == TestOutcome::Success,
        state.report(crate::engine::verdict(message, message), message).text
            == crate::report::status_label() + message,
        state.report(crate::engine::verdict(message, message), message).text.skip(
            crate::report::status_label().len() as int,
        ) == message,
{
}

} // verus!
