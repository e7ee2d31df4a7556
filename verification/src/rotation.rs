//! A heading angle in integer milliradians, kept in its canonical range
//! `[0, TURN)`. Turning by any delta re-reduces the angle, which is
//! observationally equivalent to letting it grow without bound, since the
//! trigonometry is invariant to full turns.

use vstd::prelude::*;

use crate::trig::{wrap_mrad, wrap_spec, TURN};

verus! {

#[derive(Clone, Copy, PartialEq, Eq, Structural, Debug)]
pub struct Rotation {
    pub mrad: i64,
}

impl Rotation {
    /// The angle is in its canonical range.
    pub open spec fn canonical(self) -> bool {
        0 <= self.mrad < TURN
    }

    pub fn new_mrad(mrad: i64) -> (r: Rotation)
        ensures
            r.mrad == wrap_spec(mrad as int),
            r.canonical(),
    {
        Rotation { mrad: wrap_mrad(mrad as i128) }
    }

    pub fn get_mrad(&self) -> (r: i64)
        ensures
            r == self.mrad,
    {
        self.mrad
    }

    /// Turn by `delta` milliradians (counterclockwise in the mathematical
    /// orientation).
    pub fn add_mrad(self, delta: i64) -> (r: Rotation)
        ensures
            r.mrad == wrap_spec(self.mrad + delta),
            r.canonical(),
    {
        Rotation { mrad: wrap_mrad((self.mrad as i128) + (delta as i128)) }
    }

    /// Turn by `delta` milliradians the other way.
    pub fn sub_mrad(self, delta: i64) -> (r: Rotation)
        ensures
            r.mrad == wrap_spec(self.mrad - delta),
            r.canonical(),
    {
        Rotation { mrad: wrap_mrad((self.mrad as i128) - (delta as i128)) }
    }
}

} // verus!
