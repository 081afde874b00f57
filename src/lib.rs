//! The decision logic of a Monte Carlo path tracer.
//!
//! Geometry and color arithmetic happen outside this crate. The crate decides
//! everything that depends on that arithmetic only through comparisons: which
//! root of a ray–sphere intersection is used, which side of a surface a ray
//! struck, which object of a scene is hit first, whether a surface absorbs a
//! ray, when a path of bounces ends, and how the quantized image is encoded
//! as text and in which order its pixels come. Distances and signs reach it
//! as ordered keys of their IEEE-754 bit patterns (see `order`).
pub mod hit;
pub mod hittable_list;
pub mod material;
pub mod order;
pub mod path;
pub mod ppm;
