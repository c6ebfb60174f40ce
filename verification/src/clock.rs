//! The 24 named hours of a day.

use vstd::prelude::*;

verus! {

/// A whole hour of the day, by its name on a 12-hour clock.
///
/// `TwelveAm` is midnight (hour 0) and `ElevenPm` is hour 23.
#[derive(Clone, Copy, Debug, PartialEq, Eq, Structural, Hash)]
pub enum Clock {
    TwelveAm,
    OneAm,
    TwoAm,
    ThreeAm,
    FourAm,
    FiveAm,
    SixAm,
    SevenAm,
    EightAm,
    NineAm,
    TenAm,
    ElevenAm,
    TwelvePm,
    OnePm,
    TwoPm,
    ThreePm,
    FourPm,
    FivePm,
    SixPm,
    SevenPm,
    EightPm,
    NinePm,
    TenPm,
    ElevenPm,
}

impl Clock {
    /// The hour number, 0 to 23, that the name stands for.
    pub open spec fn hour_number(self) -> nat {
        match self {
            Clock::TwelveAm => 0,
            Clock::OneAm => 1,
            Clock::TwoAm => 2,
            Clock::ThreeAm => 3,
            Clock::FourAm => 4,
            Clock::FiveAm => 5,
            Clock::SixAm => 6,
            Clock::SevenAm => 7,
            Clock::EightAm => 8,
            Clock::NineAm => 9,
            Clock::TenAm => 10,
            Clock::ElevenAm => 11,
            Clock::TwelvePm => 12,
            Clock::OnePm => 13,
            Clock::TwoPm => 14,
            Clock::ThreePm => 15,
            Clock::FourPm => 16,
            Clock::FivePm => 17,
            Clock::SixPm => 18,
            Clock::SevenPm => 19,
            Clock::EightPm => 20,
            Clock::NinePm => 21,
            Clock::TenPm => 22,
            Clock::ElevenPm => 23,
        }
    }

    /// Every named hour is a valid hour of the day.
    pub proof fn lemma_hour_number_in_range(self)
        ensures
            self.hour_number() <= 23,
    {
    }

    /// The hour number as a machine integer.
    pub fn hour(&self) -> (h: u32)
        ensures
            h == self.hour_number(),
            h <= 23,
    {
        match self {
            Clock::TwelveAm => 0,
            Clock::OneAm => 1,
            Clock::TwoAm => 2,
            Clock::ThreeAm => 3,
            Clock::FourAm => 4,
            Clock::FiveAm => 5,
            Clock::SixAm => 6,
            Clock::SevenAm => 7,
            Clock::EightAm => 8,
            Clock::NineAm => 9,
            Clock::TenAm => 10,
            Clock::ElevenAm => 11,
            Clock::TwelvePm => 12,
            Clock::OnePm => 13,
            Clock::TwoPm => 14,
            Clock::ThreePm => 15,
            Clock::FourPm => 16,
            Clock::FivePm => 17,
            Clock::SixPm => 18,
            Clock::SevenPm => 19,
            Clock::EightPm => 20,
            Clock::NinePm => 21,
            Clock::TenPm => 22,
            Clock::ElevenPm => 23,
        }
    }
}

} // verus!
