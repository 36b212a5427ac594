//! The status reporter: what a finished cycle puts on the display and on the
//! indicator lights.

use crate::bounded::{line_bytes, line_from_str, line_push_str};
use crate::engine::TestOutcome;
use crate::indicator::Led;
use crate::message::SelfTestMessage;
use vstd::prelude::*;
use vstd::string::StringSliceAdditionalSpecFns;

verus! {

/// How long a report stays up, in milliseconds.
pub const HOLD_MS: u32 = 500;

/// A place on the display, in pixels from the top left corner.
#[derive(Clone, Copy, Debug, PartialEq, Eq, Structural)]
pub struct Position {
    /// Pixels from the left edge.
    pub x: i32,
    /// Pixels from the top edge.
    pub y: i32,
}

/// One thing the caller does to the display or the lights.
#[derive(Clone, Copy, Debug, PartialEq, Eq, Structural)]
pub enum ReportStep {
    /// Blank the text region of the display.
    EraseText,
    /// Switch this light on.
    Light(Led),
    /// Draw the status text, starting at this place.
    DrawText(Position),
    /// Leave everything as it is for this many milliseconds.
    Hold(u32),
}

/// The light that stands for `outcome`: red for a failure, green for a pass.
pub open spec fn verdict_led(outcome: TestOutcome) -> Led {
    match outcome {
        TestOutcome::Success => Led::Green,
        TestOutcome::NoResponse => Led::Red,
    }
}

/// Where the status text for `outcome` starts.
pub open spec fn text_position(outcome: TestOutcome) -> Position {
    match outcome {
        TestOutcome::Success => Position { x: 10, y: 35 },
        TestOutcome::NoResponse => Position { x: 1, y: 35 },
    }
}

/// The steps that report `outcome`, in the order in which they are carried
/// out, each one finished before the next begins. The text region is blanked
/// first, so that nothing of an earlier cycle shows through; light and text
/// are both up before the hold begins; a pass blanks its text again once the
/// hold is over, a failure leaves its text standing.
pub open spec fn report_steps(outcome: TestOutcome) -> Seq<ReportStep> {
    let shown = seq![
        ReportStep::EraseText,
        ReportStep::Light(verdict_led(outcome)),
        ReportStep::DrawText(text_position(outcome)),
        ReportStep::Hold(HOLD_MS),
    ];
    match outcome {
        TestOutcome::Success => shown.push(ReportStep::EraseText),
        TestOutcome::NoResponse => shown,
    }
}

/// The text shown for a failed cycle, as bytes.
pub open spec fn failure_text() -> Seq<u8> {
    "No response from UART ".spec_bytes()
}

/// The label that a passed cycle puts in front of the message, as bytes.
pub open spec fn status_label() -> Seq<u8> {
    "UART Message: ".spec_bytes()
}

/// The status text for `outcome`: the fixed failure text, or the label
/// followed by the message that was sent.
pub open spec fn rendered_text(outcome: TestOutcome, message: Seq<u8>) -> Seq<u8> {
    match outcome {
        TestOutcome::Success => status_label() + message,
        TestOutcome::NoResponse => failure_text(),
    }
}

/// The light that stands for `outcome`.
pub fn led_for(outcome: TestOutcome) -> (led: Led)
    ensures
        led == verdict_led(outcome),
{
    match outcome {
        TestOutcome::Success => Led::Green,
        TestOutcome::NoResponse => Led::Red,
    }
}

/// Works out the steps that report `outcome`.
pub fn plan(outcome: TestOutcome) -> (steps: Vec<ReportStep>)
    ensures
        steps@ == report_steps(outcome),
{
    let position = match outcome {
        TestOutcome::Success => Position { x: 10, y: 35 },
        TestOutcome::NoResponse => Position { x: 1, y: 35 },
    };
    let mut steps: Vec<ReportStep> = Vec::new();
    steps.push(ReportStep::EraseText);
    steps.push(ReportStep::Light(led_for(outcome)));
    steps.push(ReportStep::DrawText(position));
    steps.push(ReportStep::Hold(HOLD_MS));
    match outcome {
        TestOutcome::Success => steps.push(ReportStep::EraseText),
        TestOutcome::NoResponse => {},
    }
    steps
}

/// The failure text is 22 bytes long.
pub proof fn lemma_failure_text_len()
    ensures
        failure_text().len() == 22,
{
    let text = "No response from UART ";
    reveal_strlit("No response from UART ");
    vstd::string::is_ascii_spec_bytes(text);
}

/// The status label is 14 bytes long.
pub proof fn lemma_status_label_len()
    ensures
        status_label().len() == 14,
{
    let text = "UART Message: ";
    reveal_strlit("UART Message: ");
    vstd::string::is_ascii_spec_bytes(text);
}

/// Renders the status text for `outcome` into a fresh line.
pub(crate) fn render(outcome: TestOutcome, message: &SelfTestMessage) -> (line: heapless::String<
    30,
>)
    ensures
        line_bytes(line) == rendered_text(outcome, message@),
{
    match outcome {
        TestOutcome::Success => {
            proof {
                lemma_status_label_len();
            }
            let mut line = line_from_str("UART Message: ");
            let payload = message.as_str();
            let _ = line_push_str(&mut line, payload);
            line
        },
        TestOutcome::NoResponse => {
            proof {
                lemma_failure_text_len();
            }
            line_from_str("No response from UART ")
        },
    }
}

} // verus!
