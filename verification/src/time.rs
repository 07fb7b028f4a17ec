//! Musical time, counted exactly in ticks.

use std::cmp::Ordering;
use vstd::prelude::*;
use vstd::std_specs::cmp::PartialOrdSpecImpl;

verus! {

/// Number of ticks in one beat.
pub const TICKS_PER_BEAT: i64 = 960;

/// Number of ticks in a quarter of a beat.
pub const TICKS_PER_QUARTER_BEAT: i64 = 240;

/// A point in musical time: a signed, exact count of ticks, `TICKS_PER_BEAT`
/// to the beat. The rational number of beats it stands for is
/// `ticks / TICKS_PER_BEAT`.
#[derive(Clone, Copy, Debug, PartialEq, Eq, Structural, Ord, Hash)]
pub struct MusicalTime {
    pub ticks: i64,
}

impl View for MusicalTime {
    type V = int;

    /// The time in ticks, as a mathematical integer.
    open spec fn view(&self) -> int {
        self.ticks as int
    }
}

impl MusicalTime {
    /// The time `beats` whole beats after zero.
    pub fn from_beats(beats: i32) -> (t: MusicalTime)
        ensures
            t@ == beats * TICKS_PER_BEAT,
    {
        let b: i64 = beats as i64;
        MusicalTime { ticks: b * TICKS_PER_BEAT }
    }

    /// The time `beats + quarters / 4` beats after zero, exactly: four times
    /// the result is `4 * beats + quarters` beats.
    pub fn from_quarter_beats(beats: i32, quarters: i32) -> (t: MusicalTime)
        ensures
            t@ == beats * TICKS_PER_BEAT + quarters * TICKS_PER_QUARTER_BEAT,
            4 * t@ == (4 * beats + quarters) * TICKS_PER_BEAT,
    {
        let b: i64 = beats as i64;
        let q: i64 = quarters as i64;
        MusicalTime { ticks: b * TICKS_PER_BEAT + q * TICKS_PER_QUARTER_BEAT }
    }

    /// The time in ticks.
    pub fn ticks(&self) -> (ticks: i64)
        ensures
            ticks == self@,
    {
        self.ticks
    }

    /// The time `self + other`, unless the tick count leaves the range of
    /// `i64`.
    pub fn checked_add(self, other: MusicalTime) -> (sum: Option<MusicalTime>)
        ensures
            i64::MIN <= self@ + other@ <= i64::MAX ==> sum is Some && sum.unwrap()@ == self@
                + other@,
            !(i64::MIN <= self@ + other@ <= i64::MAX) ==> sum is None,
    {
        match self.ticks.checked_add(other.ticks) {
            Some(ticks) => Some(MusicalTime { ticks }),
            None => None,
        }
    }

    /// The time `self - other`, unless the tick count leaves the range of
    /// `i64`.
    pub fn checked_sub(self, other: MusicalTime) -> (difference: Option<MusicalTime>)
        ensures
            i64::MIN <= self@ - other@ <= i64::MAX ==> difference is Some
                && difference.unwrap()@ == self@ - other@,
            !(i64::MIN <= self@ - other@ <= i64::MAX) ==> difference is None,
    {
        match self.ticks.checked_sub(other.ticks) {
            Some(ticks) => Some(MusicalTime { ticks }),
            None => None,
        }
    }
}

impl PartialOrd for MusicalTime {
    fn partial_cmp(&self, other: &MusicalTime) -> (order: Option<Ordering>) {
        if self.ticks < other.ticks {
            Some(Ordering::Less)
        } else if self.ticks > other.ticks {
            Some(Ordering::Greater)
        } else {
            Some(Ordering::Equal)
        }
    }
}

impl PartialOrdSpecImpl for MusicalTime {
    open spec fn obeys_partial_cmp_spec() -> bool {
        true
    }

    /// Times are ordered as their tick counts, that is as the exact numbers
    /// of beats that they stand for.
    open spec fn partial_cmp_spec(&self, other: &MusicalTime) -> Option<Ordering> {
        if self@ < other@ {
            Some(Ordering::Less)
        } else if self@ > other@ {
            Some(Ordering::Greater)
        } else {
            Some(Ordering::Equal)
        }
    }
}

} // verus!
