//! The gas sensor driver: heater state, baseline, and the classification of a
//! sample on the severity scale.

use crate::pin::PinLevel;
use vstd::arithmetic::div_mod::lemma_div_is_ordered;
use vstd::prelude::*;

verus! {

/// Severity of a reading, ordered `NONE < LOW < MEDIUM < HIGH < VERY_HIGH < DEATH`.
#[allow(non_camel_case_types)]
#[derive(Debug, Clone, Copy, PartialEq, Eq, Structural)]
pub enum BAC {
    NONE,
    LOW,
    MEDIUM,
    HIGH,
    VERY_HIGH,
    DEATH,
}

impl BAC {
    /// Position on the severity scale, `NONE` being 0 and `DEATH` 5.
    pub open spec fn rank(self) -> int {
        match self {
            BAC::NONE => 0,
            BAC::LOW => 1,
            BAC::MEDIUM => 2,
            BAC::HIGH => 3,
            BAC::VERY_HIGH => 4,
            BAC::DEATH => 5,
        }
    }

    /// The rank as a number, as it travels in the data field of a radio record.
    pub fn code(self) -> (r: u32)
        ensures
            r == self.rank(),
    {
        match self {
            BAC::NONE => 0,
            BAC::LOW => 1,
            BAC::MEDIUM => 2,
            BAC::HIGH => 3,
            BAC::VERY_HIGH => 4,
            BAC::DEATH => 5,
        }
    }
}

/// The lower bounds of the five levels above `NONE`, in percent of the
/// baseline.
#[derive(Debug, Clone, Copy, PartialEq, Eq, Structural)]
pub struct Ladder {
    pub low: u32,
    pub medium: u32,
    pub high: u32,
    pub very_high: u32,
    pub death: u32,
}

impl Ladder {
    /// The lower bound of `level`; `NONE` has none, so its bound is 0.
    pub open spec fn bound(self, level: BAC) -> int {
        match level {
            BAC::NONE => 0,
            BAC::LOW => self.low as int,
            BAC::MEDIUM => self.medium as int,
            BAC::HIGH => self.high as int,
            BAC::VERY_HIGH => self.very_high as int,
            BAC::DEATH => self.death as int,
        }
    }

    /// The level of a reading that stands at `percent` of the baseline: the
    /// levels are tried from `DEATH` down, and the first whose lower bound
    /// `percent` reaches wins; `NONE` when it reaches none.
    pub open spec fn level(self, percent: int) -> BAC {
        if percent >= self.death {
            BAC::DEATH
        } else if percent >= self.very_high {
            BAC::VERY_HIGH
        } else if percent >= self.high {
            BAC::HIGH
        } else if percent >= self.medium {
            BAC::MEDIUM
        } else if percent >= self.low {
            BAC::LOW
        } else {
            BAC::NONE
        }
    }
}

/// A sample in percent of the baseline, rounded down.
pub open spec fn percent_of(sample: u16, baseline: u16) -> int
    recommends
        baseline != 0,
{
    sample * 100 / (baseline as int)
}

/// The level of `sample` against `baseline`.  Without a baseline there is
/// nothing to divide by, and the level is `NONE`.
pub open spec fn classification(ladder: Ladder, sample: u16, baseline: u16) -> BAC {
    if baseline == 0 {
        BAC::NONE
    } else {
        ladder.level(percent_of(sample, baseline))
    }
}

/// Classifies `sample` against `baseline` on `ladder`.
pub fn classify(ladder: &Ladder, sample: u16, baseline: u16) -> (level: BAC)
    ensures
        level == classification(*ladder, sample, baseline),
{
    if baseline == 0 {
        return BAC::NONE;
    }
    let wide: u32 = sample as u32;
    let percent: u32 = wide * 100 / (baseline as u32);
    if percent >= ladder.death {
        BAC::DEATH
    } else if percent >= ladder.very_high {
        BAC::VERY_HIGH
    } else if percent >= ladder.high {
        BAC::HIGH
    } else if percent >= ladder.medium {
        BAC::MEDIUM
    } else if percent >= ladder.low {
        BAC::LOW
    } else {
        BAC::NONE
    }
}

/// The sensor driver: whether the heater is on, the baseline that samples are
/// held against, and the ladder they are classified on.
#[derive(Debug, Clone, Copy, PartialEq, Eq, Structural)]
pub struct Breathalyzer {
    pub ladder: Ladder,
    pub curr_val: u16,
    pub state: bool,
}

impl Breathalyzer {
    /// The level at which the heater pin is driven: the heater is wired
    /// active-low, so the pin is low exactly while the sensor is on.
    pub open spec fn heater_pin(self) -> PinLevel {
        if self.state {
            PinLevel::Low
        } else {
            PinLevel::High
        }
    }

    /// A sensor that is off and has no baseline yet.
    pub fn new(ladder: Ladder) -> (sensor: Breathalyzer)
        ensures
            sensor == (Breathalyzer { ladder, curr_val: 0, state: false }),
    {
        Breathalyzer { ladder, curr_val: 0, state: false }
    }

    /// Turns the sensor on by starting the heater.  Returns the level to drive
    /// the heater pin to.
    pub fn on(&mut self) -> (pin: PinLevel)
        ensures
            *final(self) == (Breathalyzer { state: true, ..*old(self) }),
            pin == final(self).heater_pin(),
    {
        self.state = true;
        PinLevel::Low
    }

    /// Shuts the heater down.  Returns the level to drive the heater pin to.
    pub fn off(&mut self) -> (pin: PinLevel)
        ensures
            *final(self) == (Breathalyzer { state: false, ..*old(self) }),
            pin == final(self).heater_pin(),
    {
        self.state = false;
        PinLevel::High
    }

    /// Classifies `sample`, the value just converted from the sensor, against
    /// the baseline.  An unpowered sensor gives no reading.
    pub fn read(&self, sample: u16) -> (level: Option<BAC>)
        ensures
            level == if self.state {
                Some(classification(self.ladder, sample, self.curr_val))
            } else {
                None
            },
    {
        if self.state {
            Some(classify(&self.ladder, sample, self.curr_val))
        } else {
            None
        }
    }

    /// The raw value of `sample`, the value just converted from the sensor.
    /// An unpowered sensor gives no reading.
    pub fn read_curr(&self, sample: u16) -> (value: Option<u16>)
        ensures
            value == if self.state {
                Some(sample)
            } else {
                None
            },
    {
        if self.state {
            Some(sample)
        } else {
            None
        }
    }
}

/// No level above the one a reading gets has its lower bound reached, and the
/// reading's own level, unless it is `NONE`, has.
pub proof fn lemma_level_is_highest_reached(ladder: Ladder, percent: int, other: BAC)
    ensures
        ladder.level(percent) != BAC::NONE ==> percent >= ladder.bound(ladder.level(percent)),
        other.rank() > ladder.level(percent).rank() ==> percent < ladder.bound(other),
{
}

/// A higher percentage never gets a lower level.
pub proof fn lemma_level_monotonic(ladder: Ladder, lower: int, higher: int)
    requires
        lower <= higher,
    ensures
        ladder.level(lower).rank() <= ladder.level(higher).rank(),
{
}

/// Against one baseline, a higher sample never gets a lower level.
pub proof fn lemma_classification_monotonic(ladder: Ladder, lower: u16, higher: u16, baseline: u16)
    requires
        lower <= higher,
    ensures
        classification(ladder, lower, baseline).rank() <= classification(
            ladder,
            higher,
            baseline,
        ).rank(),
{
    if baseline != 0 {
        assert(percent_of(lower, baseline) <= percent_of(higher, baseline)) by {
            lemma_div_is_ordered(lower * 100, higher * 100, baseline as int);
        }
        lemma_level_monotonic(ladder, percent_of(lower, baseline), percent_of(higher, baseline));
    }
}

} // verus!
