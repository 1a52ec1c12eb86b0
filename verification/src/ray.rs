//! A ray: where it starts and which way it goes.

use crate::vec3::{Point3, Vec3};
use vstd::prelude::*;

verus! {

/// A half-line from `origin` along `direction`, which need not have unit
/// length.
#[derive(Clone, Copy, Debug, PartialEq, Eq, Structural)]
pub struct Ray {
    pub origin: Point3,
    pub direction: Vec3,
}

} // verus!
