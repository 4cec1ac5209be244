//! Status LED control. The Pico 2 W LED hangs off CYW43439 GPIO 0.

use vstd::prelude::*;

verus! {

/// LED state.
#[derive(Debug, Clone, Copy, PartialEq, Eq, Structural)]
pub enum LedState {
    Off,
    On,
    Blinking,
}

impl Default for LedState {
    fn default() -> (r: Self)
        ensures
            r == LedState::Off,
    {
        LedState::Off
    }
}

/// LED pattern for status indication.
#[derive(Debug, Clone, Copy, PartialEq, Eq, Structural)]
pub enum LedPattern {
    /// Solid off
    Off,
    /// Solid on
    On,
    /// Slow blink (idle/discoverable)
    SlowBlink,
    /// Fast blink (connecting)
    FastBlink,
    /// Double blink (streaming)
    DoubleBlink,
    /// Error pattern
    Error,
}

/// The LED state a pattern calls for: off, on, or blinking for every other
/// pattern.
pub open spec fn state_for(pattern: LedPattern) -> LedState {
    match pattern {
        LedPattern::Off => LedState::Off,
        LedPattern::On => LedState::On,
        _ => LedState::Blinking,
    }
}

/// LED controller.
pub struct Led {
    state: LedState,
    pattern: LedPattern,
}

impl Led {
    /// The state the LED is in.
    pub closed spec fn spec_state(&self) -> LedState {
        self.state
    }

    /// The pattern the LED shows.
    pub closed spec fn spec_pattern(&self) -> LedPattern {
        self.pattern
    }

    /// Create a new LED controller: off, showing the off pattern.
    pub fn new() -> (r: Self)
        ensures
            r.spec_state() == LedState::Off,
            r.spec_pattern() == LedPattern::Off,
    {
        Led { state: LedState::Off, pattern: LedPattern::Off }
    }

    /// Set the LED pattern. The state follows at the next `update`.
    pub fn set_pattern(&mut self, pattern: LedPattern)
        ensures
            final(self).spec_pattern() == pattern,
            final(self).spec_state() == old(self).spec_state(),
    {
        self.pattern = pattern;
    }

    /// Get current pattern.
    pub fn pattern(&self) -> (r: LedPattern)
        ensures
            r == self.spec_pattern(),
    {
        self.pattern
    }

    /// Update LED state (call periodically). The tick is not looked at:
    /// every blinking pattern gives the one blinking state.
    pub fn update(&mut self, _tick_ms: u32)
        ensures
            final(self).spec_state() == state_for(old(self).spec_pattern()),
            final(self).spec_pattern() == old(self).spec_pattern(),
    {
        match self.pattern {
            LedPattern::Off => {
                self.state = LedState::Off;
            },
            LedPattern::On => {
                self.state = LedState::On;
            },
            _ => {
                self.state = LedState::Blinking;
            },
        }
    }

    /// Get whether LED should be on right now.
    pub fn is_on(&self) -> (r: bool)
        ensures
            r == (self.spec_state() == LedState::On),
    {
        self.state == LedState::On
    }
}

impl Default for Led {
    fn default() -> (r: Self)
        ensures
            r.spec_state() == LedState::Off,
            r.spec_pattern() == LedPattern::Off,
    {
        Led::new()
    }
}

} // verus!
