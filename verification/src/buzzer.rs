//! The piezo buzzer driver.  While enabled, every tick of the tone timer
//! inverts the pin, which gives a square wave at half the tick rate.

use crate::pin::PinLevel;
use vstd::prelude::*;

verus! {

/// Which half of the square wave the pin is in.
#[derive(Debug, Clone, Copy, PartialEq, Eq, Structural)]
pub enum TonePhase {
    Off,
    On,
}

impl TonePhase {
    /// The other half of the wave.
    pub open spec fn flipped(self) -> TonePhase {
        match self {
            TonePhase::Off => TonePhase::On,
            TonePhase::On => TonePhase::Off,
        }
    }
}

/// The states of the buzzer.
#[derive(Debug, Clone, Copy, PartialEq, Eq, Structural)]
pub enum BuzzerState {
    Disabled,
    Enabled { tone_phase: TonePhase },
}

/// The buzzer driver.  The pin level is not stored apart from the state: the
/// pin is high exactly in the `On` half of the wave.
#[derive(Debug, Clone, Copy, PartialEq, Eq, Structural)]
pub struct Buzzer {
    pub state: BuzzerState,
}

impl Buzzer {
    /// The level the buzzer pin is at.
    pub open spec fn pin_level(self) -> PinLevel {
        match self.state {
            BuzzerState::Enabled { tone_phase: TonePhase::On } => PinLevel::High,
            _ => PinLevel::Low,
        }
    }

    /// The buzzer after one tick of the tone timer.
    pub open spec fn toggled(self) -> Buzzer {
        match self.state {
            BuzzerState::Disabled => self,
            BuzzerState::Enabled { tone_phase } => Buzzer {
                state: BuzzerState::Enabled { tone_phase: tone_phase.flipped() },
            },
        }
    }

    /// A disabled buzzer, its pin low.
    pub fn new() -> (buzzer: Buzzer)
        ensures
            buzzer.state == BuzzerState::Disabled,
    {
        Buzzer { state: BuzzerState::Disabled }
    }

    /// Whether the buzzer is enabled.
    pub fn enabled(&self) -> (e: bool)
        ensures
            e == (self.state is Enabled),
    {
        match self.state {
            BuzzerState::Disabled => false,
            BuzzerState::Enabled { .. } => true,
        }
    }

    /// The level the buzzer pin is at.
    pub fn pin(&self) -> (level: PinLevel)
        ensures
            level == self.pin_level(),
    {
        match self.state {
            BuzzerState::Enabled { tone_phase: TonePhase::On } => PinLevel::High,
            _ => PinLevel::Low,
        }
    }

    /// Enables the buzzer.  A buzzer that was disabled starts in the `Off`
    /// half of the wave; one that was enabled keeps its phase.  The pin is not
    /// touched.
    pub fn enable(&mut self)
        ensures
            final(self).state == match old(self).state {
                BuzzerState::Disabled => BuzzerState::Enabled { tone_phase: TonePhase::Off },
                enabled => enabled,
            },
            final(self).pin_level() == old(self).pin_level(),
    {
        match self.state {
            BuzzerState::Disabled => {
                self.state = BuzzerState::Enabled { tone_phase: TonePhase::Off };
            },
            BuzzerState::Enabled { .. } => {},
        }
    }

    /// Disables the buzzer and forgets the phase.  Returns the level to drive
    /// the pin to, which is always low.
    pub fn disable(&mut self) -> (pin: PinLevel)
        ensures
            final(self).state == BuzzerState::Disabled,
            pin == PinLevel::Low,
    {
        self.state = BuzzerState::Disabled;
        PinLevel::Low
    }

    /// One tick of the tone timer.  An enabled buzzer inverts its pin and
    /// returns the new level to drive it to; a disabled one does nothing.
    pub fn toggle_pwm(&mut self) -> (pin: Option<PinLevel>)
        ensures
            *final(self) == old(self).toggled(),
            pin == if old(self).state is Enabled {
                Some(final(self).pin_level())
            } else {
                None
            },
    {
        match self.state {
            BuzzerState::Disabled => None,
            BuzzerState::Enabled { tone_phase: TonePhase::On } => {
                self.state = BuzzerState::Enabled { tone_phase: TonePhase::Off };
                Some(PinLevel::Low)
            },
            BuzzerState::Enabled { tone_phase: TonePhase::Off } => {
                self.state = BuzzerState::Enabled { tone_phase: TonePhase::On };
                Some(PinLevel::High)
            },
        }
    }
}

/// Two ticks of the tone timer bring the buzzer back to where it was: the
/// wave has a period of two ticks.
pub proof fn lemma_tone_period(buzzer: Buzzer)
    ensures
        buzzer.toggled().toggled() == buzzer,
        buzzer.state is Enabled ==> buzzer.toggled().pin_level() != buzzer.pin_level(),
{
}

/// A tick changes nothing about a disabled buzzer, and its pin is low.
pub proof fn lemma_disabled_is_silent(buzzer: Buzzer)
    requires
        buzzer.state is Disabled,
    ensures
        buzzer.toggled() == buzzer,
        buzzer.pin_level() == PinLevel::Low,
{
}

} // verus!
