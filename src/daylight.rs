use vstd::prelude::*;
use crate::color::Color;

verus! {

/// Time of day, which sets the color and strength of the main light.
#[derive(Clone, Copy, Debug, PartialEq, Eq, Structural)]
pub enum DayPhase {
    Day,
    Dusk,
    Night,
}

/// Position of a phase in the cycle.
pub open spec fn phase_rank(p: DayPhase) -> int {
    match p {
        DayPhase::Day => 0,
        DayPhase::Dusk => 1,
        DayPhase::Night => 2,
    }
}

impl DayPhase {
    /// The phase that follows: day, dusk, night, then day again.
    pub fn next(self) -> (n: DayPhase)
        ensures
            phase_rank(n) == (phase_rank(self) + 1) % 3,
    {
        match self {
            DayPhase::Day => DayPhase::Dusk,
            DayPhase::Dusk => DayPhase::Night,
            DayPhase::Night => DayPhase::Day,
        }
    }

    /// Color of the main light: white by day, orange at dusk, dark blue by
    /// night.
    pub fn light_color(self) -> (c: Color)
        ensures
            self == DayPhase::Day ==> c == (Color { r: 255, g: 255, b: 255 }),
            self == DayPhase::Dusk ==> c == (Color { r: 255, g: 165, b: 0 }),
            self == DayPhase::Night ==> c == (Color { r: 0, g: 0, b: 139 }),
    {
        match self {
            DayPhase::Day => Color::new(255, 255, 255),
            DayPhase::Dusk => Color::new(255, 165, 0),
            DayPhase::Night => Color::new(0, 0, 139),
        }
    }

    /// Strength of the main light: 3 by day, 2 at dusk, 1 by night.
    pub fn light_intensity(self) -> (i: u8)
        ensures
            i == 3 - phase_rank(self),
    {
        match self {
            DayPhase::Day => 3,
            DayPhase::Dusk => 2,
            DayPhase::Night => 1,
        }
    }
}

/// Three steps of the cycle lead back to the phase one started from.
pub proof fn lemma_cycle_of_three(p: DayPhase, a: DayPhase, b: DayPhase, c: DayPhase)
    requires
        phase_rank(a) == (phase_rank(p) + 1) % 3,
        phase_rank(b) == (phase_rank(a) + 1) % 3,
        phase_rank(c) == (phase_rank(b) + 1) % 3,
    ensures
        c == p,
{
}

} // verus!
