//! Where a ray met a surface.

use crate::vec3::{Point3, Vec3};
use vstd::prelude::*;

verus! {

/// One intersection of a ray with a surface.
#[derive(Clone, Copy, Debug, PartialEq, Eq, Structural)]
pub struct HitRecord {
    /// The point that was hit.
    pub point: Point3,
    /// The surface normal there, of unit length, turned against the ray.
    pub normal: Vec3,
    /// The ray came from the side that the surface's own normal points to.
    pub front_face: bool,
}

} // verus!
