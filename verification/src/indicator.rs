//! The three indicator lights of the board.

use vstd::prelude::*;

verus! {

/// One of the three lights, by name.
#[derive(Clone, Copy, Debug, PartialEq, Eq, Structural)]
pub enum Led {
    /// Lit to show a failed cycle.
    Red,
    /// Lit to show a passed cycle.
    Green,
    /// Not used by the self-test; dark from boot on.
    Blue,
}

/// Which of the three lights are lit. The lights are independent of each
/// other: switching one never touches another.
#[derive(Clone, Copy, Debug, PartialEq, Eq, Structural)]
pub struct IndicatorState {
    /// The red light is lit.
    pub red: bool,
    /// The green light is lit.
    pub green: bool,
    /// The blue light is lit.
    pub blue: bool,
}

impl IndicatorState {
    /// All three lights dark.
    pub open spec fn dark() -> IndicatorState {
        IndicatorState { red: false, green: false, blue: false }
    }

    /// Whether `led` is lit.
    pub open spec fn lit(self, led: Led) -> bool {
        match led {
            Led::Red => self.red,
            Led::Green => self.green,
            Led::Blue => self.blue,
        }
    }

    /// This state with `led` switched as given and the other two untouched.
    pub open spec fn with(self, led: Led, on: bool) -> IndicatorState {
        match led {
            Led::Red => IndicatorState { red: on, ..self },
            Led::Green => IndicatorState { green: on, ..self },
            Led::Blue => IndicatorState { blue: on, ..self },
        }
    }

    /// Exactly one of the two verdict lights, red and green, is lit.
    pub open spec fn shows_one_verdict(self) -> bool {
        self.red != self.green
    }

    /// All three lights dark, as they are at boot.
    pub fn all_off() -> (state: Self)
        ensures
            state == Self::dark(),
    {
        IndicatorState { red: false, green: false, blue: false }
    }

    /// Whether `led` is lit.
    pub fn is_lit(&self, led: Led) -> (on: bool)
        ensures
            on == self.lit(led),
    {
        match led {
            Led::Red => self.red,
            Led::Green => self.green,
            Led::Blue => self.blue,
        }
    }

    /// Lights `led`.
    pub fn turn_on(&mut self, led: Led)
        ensures
            *final(self) == old(self).with(led, true),
    {
        match led {
            Led::Red => self.red = true,
            Led::Green => self.green = true,
            Led::Blue => self.blue = true,
        }
    }

    /// Puts `led` out.
    pub fn turn_off(&mut self, led: Led)
        ensures
            *final(self) == old(self).with(led, false),
    {
        match led {
            Led::Red => self.red = false,
            Led::Green => self.green = false,
            Led::Blue => self.blue = false,
        }
    }
}

} // verus!
