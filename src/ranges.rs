//! The value ranges of the panel's parameters, each held by its whole-number
//! bounds. The conversions themselves are iced_audio's (see `audio`).

use vstd::prelude::*;
use iced_audio::Normal;

verus! {

/// The widest span of a stepped range: every step count up to it is exact in
/// single precision, so each normalized position turns into a step in bounds.
pub const MAX_STEP_SPAN: i32 = 16777216;

/// A linear range of real values from `min` to `max`.
#[derive(Clone, Copy, Debug, PartialEq, Eq, Structural)]
pub struct LinearRange {
    pub min: i16,
    pub max: i16,
}

impl LinearRange {
    pub open spec fn wf(self) -> bool {
        self.min < self.max
    }
}

/// A range of whole numbers from `min` to `max`; a widget on it moves in steps.
#[derive(Clone, Copy, Debug, PartialEq, Eq, Structural)]
pub struct StepRange {
    pub min: i32,
    pub max: i32,
}

impl StepRange {
    pub open spec fn wf(self) -> bool {
        self.min < self.max && self.max - self.min <= MAX_STEP_SPAN
    }
}

/// A logarithmic range of decibels from `min_db` to `max_db`, with 0 dB at the
/// position `zero_position`; values near 0 dB change slowest.
#[derive(Clone, Copy, Debug, PartialEq)]
pub struct DecibelRange {
    pub min_db: i16,
    pub max_db: i16,
    pub zero_position: Normal,
}

impl DecibelRange {
    pub open spec fn wf(self) -> bool {
        self.min_db < self.max_db && self.min_db <= 0 && 0 <= self.max_db
    }
}

/// A logarithmic range of frequencies in Hz on the ten octaves from 20 Hz to
/// 20480 Hz, each octave taking an equal share of the positions. Bounds outside
/// those ten octaves are clamped to them.
#[derive(Clone, Copy, Debug, PartialEq, Eq, Structural)]
pub struct FrequencyRange {
    pub min_hz: i16,
    pub max_hz: i16,
}

impl FrequencyRange {
    pub open spec fn wf(self) -> bool {
        self.min_hz < self.max_hz
    }
}

} // verus!
