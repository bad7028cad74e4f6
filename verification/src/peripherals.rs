//! State of the board's dimmable light.

use vstd::prelude::*;

verus! {

/// What to ask of the pulse width modulator that feeds the light.
#[derive(Copy, Clone, Debug, PartialEq, Eq, Structural)]
pub enum Duty {
    /// Drive the output for this many percent of each period.
    Percent(u8),
    /// Do not drive the output at all.
    FullyOff,
}

impl Duty {
    /// A percentage is at most a hundred.
    pub open spec fn valid(self) -> bool {
        self matches Duty::Percent(percent) ==> percent <= 100
    }

    /// The compare value that yields this duty on a counter that wraps after
    /// `top`.
    pub open spec fn spec_compare_value(self, top: u16) -> u16 {
        match self {
            Duty::Percent(percent) => (percent * top / 100) as u16,
            Duty::FullyOff => 0,
        }
    }

    /// The compare value that yields this duty on a counter that wraps after
    /// `top`: the given percentage of `top`, rounded down.
    #[verifier::when_used_as_spec(spec_compare_value)]
    pub fn compare_value(self, top: u16) -> (compare: u16)
        requires
            self.valid(),
        ensures
            compare == self.spec_compare_value(top),
            compare <= top,
    {
        match self {
            Duty::Percent(percent) => {
                assert(0 <= percent * top <= 100 * top) by (nonlinear_arith)
                    requires
                        0 <= percent <= 100,
                        0 <= top,
                ;
                let scaled = (percent as u32) * (top as u32);
                (scaled / 100) as u16
            },
            Duty::FullyOff => 0,
        }
    }
}

/// A light that can be switched and dimmed.
///
/// The light remembers its brightness while it is off.
#[derive(Copy, Clone, Debug, PartialEq, Eq, Structural)]
pub struct Led {
    on: bool,
    brightness: u8,
}

impl Led {
    /// Whether the light was last toggled on.
    pub closed spec fn spec_is_on(&self) -> bool {
        self.on
    }

    /// The brightness in percent.
    pub closed spec fn spec_brightness(&self) -> u8 {
        self.brightness
    }

    #[verifier::type_invariant]
    spec fn brightness_is_a_percentage(&self) -> bool {
        self.brightness <= 100
    }

    /// A light that is off and set to full brightness.
    pub fn new() -> (led: Led)
        ensures
            !led.spec_is_on(),
            led.spec_brightness() == 100,
    {
        Led { on: false, brightness: 100 }
    }

    /// Whether the light was last toggled on.
    #[verifier::when_used_as_spec(spec_is_on)]
    pub fn is_on(&self) -> (on: bool)
        ensures
            on == self.spec_is_on(),
    {
        self.on
    }

    /// The brightness in percent.
    #[verifier::when_used_as_spec(spec_brightness)]
    pub fn brightness(&self) -> (percent: u8)
        ensures
            percent == self.spec_brightness(),
            percent <= 100,
    {
        proof {
            use_type_invariant(self);
        }
        self.brightness
    }

    /// Toggles the light on or off.
    /// If it is toggled on it goes back to the previous brightness.
    pub fn toggle(&mut self) -> (duty: Duty)
        ensures
            final(self).spec_is_on() == !old(self).spec_is_on(),
            final(self).spec_brightness() == old(self).spec_brightness(),
            duty == if old(self).spec_is_on() {
                Duty::FullyOff
            } else {
                Duty::Percent(old(self).spec_brightness())
            },
            duty.valid(),
    {
        proof {
            use_type_invariant(&*self);
        }
        self.on = !self.on;
        match self.on {
            true => Duty::Percent(self.brightness),
            false => Duty::FullyOff,
        }
    }

    /// Sets the brightness of the led by percentage. The new brightness is
    /// put out at once, whether the light was toggled on or not.
    pub fn set_brightness(&mut self, brightness: u8) -> (duty: Duty)
        requires
            brightness <= 100,
        ensures
            final(self).spec_is_on() == old(self).spec_is_on(),
            final(self).spec_brightness() == brightness,
            duty == Duty::Percent(brightness),
            duty.valid(),
    {
        self.brightness = brightness;
        Duty::Percent(self.brightness)
    }
}

} // verus!
