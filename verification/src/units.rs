//! Exact screen lengths and zoom factors.
//!
//! Geometry is computed without rounding. A zoom factor is counted in
//! thousandths, a length in units of which `UNITS_PER_PIXEL` make a pixel; the
//! unit is chosen so that a tick of musical time at a zoom of one thousandth
//! is exactly one unit long.

use vstd::prelude::*;

use crate::time::TICKS_PER_BEAT;

verus! {

/// Width of one beat in pixels at a zoom factor of one.
pub const PIXELS_PER_BEAT: i64 = 100;

/// Number of zoom steps in a zoom factor of one.
pub const SCALE_UNIT: u32 = 1000;

/// Number of length units in one pixel.
pub const UNITS_PER_PIXEL: i128 = 9600;

/// A length or position on screen, in units of `1 / UNITS_PER_PIXEL` pixels.
/// It may be negative: a position left of or above the origin.
#[derive(Clone, Copy, Debug, PartialEq, Eq, Structural, PartialOrd, Ord, Hash)]
pub struct Px {
    pub units: i128,
}

impl View for Px {
    type V = int;

    /// The length in units, as a mathematical integer.
    open spec fn view(&self) -> int {
        self.units as int
    }
}

impl Px {
    /// The length of `pixels` whole pixels.
    pub fn from_pixels(pixels: i32) -> (px: Px)
        ensures
            px@ == pixels * UNITS_PER_PIXEL,
    {
        let whole: i128 = pixels as i128;
        Px { units: whole * UNITS_PER_PIXEL }
    }

    /// The length in units.
    pub fn units(&self) -> (units: i128)
        ensures
            units == self@,
    {
        self.units
    }
}

/// A horizontal zoom factor, strictly positive, counted in thousandths: the
/// factor itself is `thousandths / SCALE_UNIT`, and one beat is
/// `PIXELS_PER_BEAT` times the factor wide.
#[derive(Clone, Copy, Debug, PartialEq, Eq, Structural, Hash)]
pub struct Scale {
    thousandths: u32,
}

impl View for Scale {
    type V = int;

    /// The zoom factor in thousandths, as a mathematical integer.
    closed spec fn view(&self) -> int {
        self.thousandths as int
    }
}

impl Scale {
    /// What holds of every zoom factor: it is positive, and its count of
    /// thousandths fits in 32 bits.
    #[verifier::type_invariant]
    pub open spec fn wf(self) -> bool {
        0 < self@ <= u32::MAX
    }

    /// The zoom factor of `thousandths` thousandths, unless that is zero.
    pub fn new(thousandths: u32) -> (scale: Option<Scale>)
        ensures
            thousandths > 0 ==> scale is Some && scale.unwrap()@ == thousandths
                && scale.unwrap().wf(),
            thousandths == 0 ==> scale is None,
    {
        if thousandths == 0 {
            None
        } else {
            Some(Scale { thousandths })
        }
    }

    /// The zoom factor one.
    pub fn unit() -> (scale: Scale)
        ensures
            scale@ == SCALE_UNIT,
            scale.wf(),
    {
        Scale { thousandths: SCALE_UNIT }
    }

    /// The zoom factor in thousandths.
    pub fn thousandths(&self) -> (thousandths: u32)
        ensures
            thousandths == self@,
    {
        self.thousandths
    }

    /// Two zoom factors are equal exactly when they count the same
    /// thousandths.
    pub proof fn lemma_view_is_injective(self, other: Scale)
        ensures
            self == other <==> self@ == other@,
    {
    }
}

/// The length unit is the length of one tick at a zoom of one thousandth:
/// a beat of `TICKS_PER_BEAT` ticks at the zoom factor one, `SCALE_UNIT`
/// thousandths, is `PIXELS_PER_BEAT` pixels wide.
pub proof fn lemma_units_per_pixel()
    ensures
        TICKS_PER_BEAT * SCALE_UNIT == PIXELS_PER_BEAT * UNITS_PER_PIXEL,
{
}

} // verus!
