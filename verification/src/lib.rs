//! The optical decisions of a path tracer: what becomes of a ray that has
//! hit a diffuse, a metallic or a dielectric surface.
//!
//! Numbers are IEEE 754 binary64 values carried by their bit patterns. The
//! library orders, clamps and selects them exactly; rounded arithmetic, square
//! roots and random draws are made by the caller and handed in as samples.

pub mod hit;
pub mod material;
pub mod ray;
pub mod scalar;
pub mod vec3;
