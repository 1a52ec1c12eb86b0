//! Three scalars: a direction, a point in space or a colour.

use crate::scalar::Scalar;
use vstd::prelude::*;

verus! {

/// The pattern of 1e-8, the size under which a component counts as vanished.
pub const NEAR_ZERO_BITS: u64 = 0x3e45_798e_e230_8c3a;

#[derive(Clone, Copy, Debug, PartialEq, Eq, Structural)]
pub struct Vec3 {
    pub x: Scalar,
    pub y: Scalar,
    pub z: Scalar,
}

/// A position in space.
pub type Point3 = Vec3;

/// Red, green and blue, by convention each within 0 and 1.
pub type Color = Vec3;

impl Vec3 {
    /// The size under which a component counts as vanished.
    pub open spec fn spec_tolerance() -> Scalar {
        Scalar { bits: NEAR_ZERO_BITS }
    }

    /// Every component is a number of size under the tolerance.
    pub open spec fn spec_near_zero(self) -> bool {
        &&& self.x.spec_abs().spec_lt(Vec3::spec_tolerance())
        &&& self.y.spec_abs().spec_lt(Vec3::spec_tolerance())
        &&& self.z.spec_abs().spec_lt(Vec3::spec_tolerance())
    }

    #[verifier::when_used_as_spec(spec_tolerance)]
    pub fn tolerance() -> (r: Scalar)
        ensures
            r == Vec3::spec_tolerance(),
    {
        Scalar { bits: NEAR_ZERO_BITS }
    }

    /// Whether the vector is too short to give a direction: every component
    /// is a number of size under 1e-8.
    #[verifier::when_used_as_spec(spec_near_zero)]
    pub fn near_zero(self) -> (r: bool)
        ensures
            r == self.spec_near_zero(),
    {
        let limit = Vec3::tolerance();
        self.x.abs().lt(limit) && self.y.abs().lt(limit) && self.z.abs().lt(limit)
    }
}

} // verus!
