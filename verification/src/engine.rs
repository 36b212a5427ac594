//! The loopback test engine: send the message one byte at a time, collect the
//! echo of each byte, and compare what came back with what went out.

use crate::bounded::{buffer_as_slice, buffer_bytes, buffer_new, buffer_push};
use crate::message::SelfTestMessage;
use vstd::prelude::*;

verus! {

/// How a self-test cycle ended.
#[derive(Clone, Copy, Debug, PartialEq, Eq, Structural)]
pub enum TestOutcome {
    /// Every byte came back as it was sent.
    Success,
    /// Some byte did not. A garbled echo and no usable echo at all are not
    /// told apart.
    NoResponse,
}

/// Position `i` of the message is not matched by the received bytes: the
/// byte there is another one, or none was received at all.
pub open spec fn differs_at(sent: Seq<u8>, received: Seq<u8>, i: int) -> bool {
    0 <= i < sent.len() && (i >= received.len() || received[i] != sent[i])
}

/// Every position of the message is matched by the received bytes.
pub open spec fn echoes(sent: Seq<u8>, received: Seq<u8>) -> bool {
    forall|i: int| 0 <= i < sent.len() ==> !differs_at(sent, received, i)
}

/// `k` is the first position at which the received bytes fail to match.
pub open spec fn first_difference(sent: Seq<u8>, received: Seq<u8>, k: int) -> bool {
    differs_at(sent, received, k) && forall|j: int| 0 <= j < k ==> !differs_at(sent, received, j)
}

/// The outcome that comparing `received` against `sent` gives.
pub open spec fn verdict(sent: Seq<u8>, received: Seq<u8>) -> TestOutcome {
    if echoes(sent, received) {
        TestOutcome::Success
    } else {
        TestOutcome::NoResponse
    }
}

/// What one comparison found, and how far it had to look.
#[derive(Clone, Copy, Debug, PartialEq, Eq, Structural)]
pub struct Comparison {
    /// The outcome of the comparison.
    pub outcome: TestOutcome,
    /// Number of positions that were looked at, counted from the start.
    pub inspected: usize,
}

/// Compares the received bytes with the message, position by position from
/// the start, and stops at the first position that does not match. A full
/// match looks at every position of the message; a mismatch at position `k`
/// looks at `k + 1` positions and at nothing behind them.
pub fn compare(message: &[u8], received: &[u8]) -> (found: Comparison)
    ensures
        found.outcome == verdict(message@, received@),
        match found.outcome {
            TestOutcome::Success => found.inspected == message@.len(),
            TestOutcome::NoResponse => first_difference(
                message@,
                received@,
                found.inspected - 1,
            ),
        },
{
    let mut i: usize = 0;
    while i < message.len()
        invariant
            i <= message@.len(),
            forall|j: int| 0 <= j < i ==> !differs_at(message@, received@, j),
        decreases message@.len() - i,
    {
        if i >= received.len() || received[i] != message[i] {
            assert(differs_at(message@, received@, i as int));
            return Comparison { outcome: TestOutcome::NoResponse, inspected: i + 1 };
        }
        i += 1;
    }
    Comparison { outcome: TestOutcome::Success, inspected: i }
}

/// What the engine needs from the serial port next.
#[derive(Clone, Copy, Debug, PartialEq, Eq, Structural)]
pub enum Transfer {
    /// Hand this byte to the transmitter.
    Send(u8),
    /// Read the echo of the byte just sent.
    Receive,
    /// Every byte has been sent and echoed; nothing more to transfer.
    Finished,
}

/// What the serial port reported for the transfer the engine asked for.
#[derive(Clone, Copy, Debug, PartialEq, Eq, Structural)]
pub enum LinkEvent {
    /// The transmitter took the byte.
    Accepted,
    /// The receiver delivered this byte.
    Arrived(u8),
    /// The port was not ready; the same transfer has to be tried again.
    WouldBlock,
}

/// The state of one exchange: the message being sent, the echo collected so
/// far, and whether a byte is out whose echo has not come back yet.
pub struct Exchange {
    /// The message of this cycle.
    pub message: Seq<u8>,
    /// The bytes received so far, one for each byte whose echo has arrived.
    pub received: Seq<u8>,
    /// A byte has been sent and its echo is still outstanding.
    pub awaiting_echo: bool,
}

impl Exchange {
    /// Never more echoes than message bytes, and an echo is only awaited
    /// for a byte that is still missing.
    pub open spec fn wf(self) -> bool {
        &&& self.received.len() <= self.message.len()
        &&& self.awaiting_echo ==> self.received.len() < self.message.len()
    }

    /// The start of a cycle: nothing received, nothing outstanding.
    pub open spec fn start(message: Seq<u8>) -> Exchange {
        Exchange { message, received: Seq::empty(), awaiting_echo: false }
    }

    /// The transfer to perform in this state. Bytes go out strictly one at a
    /// time: the next one is sent only once the echo of the last one is in.
    pub open spec fn pending(self) -> Transfer {
        if self.awaiting_echo {
            Transfer::Receive
        } else if self.received.len() < self.message.len() {
            Transfer::Send(self.message[self.received.len() as int])
        } else {
            Transfer::Finished
        }
    }

    /// Whether every byte has been sent and echoed.
    pub open spec fn finished(self) -> bool {
        self.pending() == Transfer::Finished
    }

    /// The state after the serial port reported `event`. Only the event that
    /// answers the pending transfer moves the exchange on; anything else,
    /// a port that is not ready in particular, leaves it where it was.
    pub open spec fn step(self, event: LinkEvent) -> Exchange {
        match (self.pending(), event) {
            (Transfer::Send(_), LinkEvent::Accepted) => Exchange { awaiting_echo: true, ..self },
            (Transfer::Receive, LinkEvent::Arrived(byte)) => Exchange {
                received: self.received.push(byte),
                awaiting_echo: false,
                ..self
            },
            _ => self,
        }
    }

    /// The state after a channel that takes every byte at once has answered
    /// the next bytes to go out with the bytes of `echo`, in order.
    pub open spec fn answered(self, echo: Seq<u8>) -> Exchange
        decreases echo.len(),
    {
        if echo.len() == 0 {
            self
        } else {
            self.answered(echo.drop_last()).step(LinkEvent::Accepted).step(
                LinkEvent::Arrived(echo.last()),
            )
        }
    }
}

/// The engine of one self-test cycle. It owns the receive buffer for the
/// length of the cycle and decides, transfer by transfer, what the serial
/// port has to do; the caller performs the transfer and reports back.
#[derive(Debug)]
pub struct LoopbackEngine<'a> {
    message: &'a SelfTestMessage,
    received: heapless::Vec<u8, 5>,
    awaiting_echo: bool,
}

impl<'a> View for LoopbackEngine<'a> {
    type V = Exchange;

    closed spec fn view(&self) -> Exchange {
        Exchange {
            message: self.message@,
            received: buffer_bytes(self.received),
            awaiting_echo: self.awaiting_echo,
        }
    }
}

impl<'a> LoopbackEngine<'a> {
    #[verifier::type_invariant]
    spec fn inv(&self) -> bool {
        self@.wf()
    }

    /// Starts a cycle for `message` with an empty receive buffer.
    pub fn start(message: &'a SelfTestMessage) -> (engine: Self)
        ensures
            engine@ == Exchange::start(message@),
            engine@.wf(),
    {
        LoopbackEngine { message, received: buffer_new(), awaiting_echo: false }
    }

    /// The transfer the serial port has to perform next.
    pub fn pending(&self) -> (transfer: Transfer)
        ensures
            transfer == self@.pending(),
    {
        let sent = self.message.as_bytes();
        let received = buffer_as_slice(&self.received);
        if self.awaiting_echo {
            Transfer::Receive
        } else if received.len() < sent.len() {
            Transfer::Send(sent[received.len()])
        } else {
            Transfer::Finished
        }
    }

    /// Takes in what the serial port reported and moves the exchange on.
    pub fn handle(&mut self, event: LinkEvent)
        ensures
            final(self)@ == old(self)@.step(event),
            final(self)@.wf(),
    {
        proof {
            use_type_invariant(&*self);
        }
        let sent_len = self.message.len();
        let received_len = buffer_as_slice(&self.received).len();
        match event {
            LinkEvent::Accepted => {
                if !self.awaiting_echo && received_len < sent_len {
                    self.awaiting_echo = true;
                }
            },
            LinkEvent::Arrived(byte) => {
                if self.awaiting_echo {
                    self.awaiting_echo = false;
                    let _ = buffer_push(&mut self.received, byte);
                }
            },
            LinkEvent::WouldBlock => {},
        }
    }

    /// The echo collected so far, oldest byte first.
    pub fn received(&self) -> (bytes: &[u8])
        ensures
            bytes@ == self@.received,
    {
        buffer_as_slice(&self.received)
    }

    /// Whether every byte has been sent and echoed.
    pub fn is_finished(&self) -> (finished: bool)
        ensures
            finished == self@.finished(),
    {
        !self.awaiting_echo && buffer_as_slice(&self.received).len() >= self.message.len()
    }

    /// The outcome of the cycle, once the exchange is finished: `Success`
    /// exactly when the receive buffer equals the message byte for byte.
    /// While bytes are still outstanding there is no outcome.
    pub fn outcome(&self) -> (outcome: Option<TestOutcome>)
        ensures
            outcome == if self@.finished() {
                Some(verdict(self@.message, self@.received))
            } else {
                None
            },
            outcome == Some(TestOutcome::Success) <==> self@.finished() && self@.received
                == self@.message,
    {
        proof {
            use_type_invariant(self);
        }
        if self.is_finished() {
            let found = compare(self.message.as_bytes(), buffer_as_slice(&self.received));
            proof {
                lemma_success_is_equality(self@.message, self@.received);
            }
            Some(found.outcome)
        } else {
            None
        }
    }
}

/// Every step takes a valid exchange to a valid exchange, and the start of a
/// cycle is valid.
pub proof fn lemma_exchange_stays_valid(state: Exchange, event: LinkEvent)
    requires
        state.wf(),
    ensures
        state.step(event).wf(),
        Exchange::start(state.message).wf(),
{
}

/// Byte by byte, in order: as long as the message has bytes left, each answer
/// of the channel is stored at the position of the byte it answers, and the
/// next byte goes out only after it. Once every byte has been answered the
/// exchange is finished, and not before.
pub proof fn lemma_exchange_collects_the_echo(message: Seq<u8>, echo: Seq<u8>)
    requires
        echo.len() <= message.len(),
    ensures
        Exchange::start(message).answered(echo) == (Exchange {
            message,
            received: echo,
            awaiting_echo: false,
        }),
        Exchange::start(message).answered(echo).finished() <==> echo.len() == message.len(),
    decreases echo.len(),
{
    if echo.len() > 0 {
        lemma_exchange_collects_the_echo(message, echo.drop_last());
        assert(echo.drop_last().push(echo.last()) =~= echo);
    } else {
        assert(echo =~= Seq::<u8>::empty());
    }
}

/// When as many bytes came back as went out, the comparison succeeds exactly
/// when the two sequences are equal, byte for byte.
pub proof fn lemma_success_is_equality(sent: Seq<u8>, received: Seq<u8>)
    requires
        received.len() == sent.len(),
    ensures
        verdict(sent, received) == TestOutcome::Success <==> received == sent,
{
    if echoes(sent, received) {
        assert forall|i: int| 0 <= i < sent.len() implies received[i] == sent[i] by {
            assert(!differs_at(sent, received, i));
        }
        assert(received =~= sent);
    }
}

/// Runs one whole cycle against a recorded echo: the channel takes every byte
/// at once and answers the `i`-th byte sent with `echo[i]`. The exchange is
/// strictly byte by byte, and the comparison follows once all bytes are in.
///
/// There is no timeout. When the echo runs dry before the last byte of the
/// message has been answered, the engine is left waiting and there is no
/// outcome. An empty message has nothing to wait for and succeeds at once.
pub fn run_cycle(message: &SelfTestMessage, echo: &[u8]) -> (outcome: Option<TestOutcome>)
    ensures
        outcome == if echo@.len() >= message@.len() {
            Some(verdict(message@, echo@))
        } else {
            None
        },
{
    let mut engine = LoopbackEngine::start(message);
    let mut answered: usize = 0;
    loop
        invariant
            engine@.wf(),
            engine@.message == message@,
            answered <= echo@.len(),
            engine@.received == echo@.take(answered as int),
        decreases 2 * (message@.len() - engine@.received.len()) + 1 - (if engine@.awaiting_echo {
            1int
        } else {
            0int
        }),
    {
        match engine.pending() {
            Transfer::Send(_) => {
                engine.handle(LinkEvent::Accepted);
            },
            Transfer::Receive => {
                if answered < echo.len() {
                    engine.handle(LinkEvent::Arrived(echo[answered]));
                    answered += 1;
                    assert(echo@.take(answered as int) == echo@.take(answered - 1).push(
                        echo@[answered - 1],
                    ));
                } else {
                    return None;
                }
            },
            Transfer::Finished => {
                proof {
                    lemma_verdict_ignores_surplus(message@, echo@);
                }
                return engine.outcome();
            },
        }
    }
}

/// The comparison looks at the positions of the message only: bytes received
/// beyond its length do not change the verdict.
pub proof fn lemma_verdict_ignores_surplus(sent: Seq<u8>, received: Seq<u8>)
    requires
        received.len() >= sent.len(),
    ensures
        verdict(sent, received.take(sent.len() as int)) == verdict(sent, received),
{
    let cut = received.take(sent.len() as int);
    assert forall|i: int| 0 <= i < sent.len() implies differs_at(sent, cut, i) == differs_at(
        sent,
        received,
        i,
    ) by {}
}

/// A comparison has at most one first difference.
pub proof fn lemma_first_difference_unique(sent: Seq<u8>, received: Seq<u8>, a: int, b: int)
    requires
        first_difference(sent, received, a),
        first_difference(sent, received, b),
    ensures
        a == b,
{
}

/// An echo that is wrong at position `k` and right at every other position
/// fails, and `k` is where the comparison stops: it is the first difference
/// and the only one, so `k + 1` positions are looked at and none behind `k`.
/// What stands behind `k` has no say in it.
pub proof fn lemma_corruption_stops_the_scan(sent: Seq<u8>, received: Seq<u8>, k: int)
    requires
        0 <= k < sent.len(),
        received.len() == sent.len(),
        received[k] != sent[k],
        forall|i: int| 0 <= i < sent.len() && i != k ==> received[i] == sent[i],
    ensures
        verdict(sent, received) == TestOutcome::NoResponse,
        first_difference(sent, received, k),
        forall|j: int| first_difference(sent, received, j) ==> j == k,
        forall|other: Seq<u8>|
            other.len() == sent.len() && other.take(k + 1) == received.take(k + 1)
                ==> first_difference(sent, other, k),
{
    assert forall|j: int| first_difference(sent, received, j) implies j == k by {
        lemma_first_difference_unique(sent, received, j, k);
    }
    assert forall|other: Seq<u8>|
        other.len() == sent.len() && other.take(k + 1) == received.take(
            k + 1,
        ) implies first_difference(sent, other, k) by {
        assert forall|j: int| 0 <= j <= k implies other[j] == received[j] by {
            assert(other.take(k + 1)[j] == received.take(k + 1)[j]);
        }
    }
}

/// An empty message is finished the moment the cycle starts, with nothing to
/// send and nothing to wait for, and it passes whatever the channel holds.
pub proof fn lemma_empty_message_passes(echo: Seq<u8>)
    ensures
        Exchange::start(Seq::<u8>::empty()).finished(),
        verdict(Seq::<u8>::empty(), echo) == TestOutcome::Success,
{
}

} // verus!
