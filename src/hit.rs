//! The decisions of a ray–sphere intersection: which root it uses, and which
//! side of the surface the ray struck.
//!
//! Substituting the ray into the sphere's equation gives a quadratic in the
//! ray parameter. When its discriminant is non-negative there are two roots,
//! the nearer one first. The intersection is the nearer root when it lies in
//! the open interval of accepted distances, else the farther root when that
//! one does, else there is none. All quantities here are ordered keys (see `order`).
use vstd::prelude::*;
use crate::order::{key_value, SIGN_BIT};

verus! {

/// Which root of the quadratic an intersection uses.
#[derive(Clone, Copy, Debug, PartialEq, Eq, Structural)]
pub enum Root {
    Near,
    Far,
}

/// Whether a key lies in the open interval `(lo, hi)`.
pub open spec fn within(key: u64, lo: u64, hi: u64) -> bool {
    key_value(lo) < key_value(key) && key_value(key) < key_value(hi)
}

/// The root that the intersection uses, if any.
pub open spec fn root_choice(discriminant: u64, near: u64, far: u64, t_min: u64, t_max: u64) -> Option<Root> {
    if key_value(discriminant) < 0 {
        None
    } else if within(near, t_min, t_max) {
        Some(Root::Near)
    } else if within(far, t_min, t_max) {
        Some(Root::Far)
    } else {
        None
    }
}

/// Chooses the root of an intersection from the ordered keys of the
/// discriminant, of the two roots (nearer first) and of the interval bounds.
/// A negative discriminant means no intersection.
pub fn select_root(discriminant: u64, near: u64, far: u64, t_min: u64, t_max: u64) -> (r: Option<Root>)
    ensures
        r == root_choice(discriminant, near, far, t_min, t_max),
{
    if discriminant < SIGN_BIT {
        None
    } else if t_min < near && near < t_max {
        Some(Root::Near)
    } else if t_min < far && far < t_max {
        Some(Root::Far)
    } else {
        None
    }
}

/// When the quadratic has real roots and the nearer one lies strictly inside
/// the interval (as for a ray aimed at the sphere's center from outside it,
/// with the hit distance in the interval), the intersection uses the nearer
/// root; a root on either bound is never used.
pub proof fn lemma_near_root_first(discriminant: u64, near: u64, far: u64, t_min: u64, t_max: u64)
    requires
        key_value(discriminant) >= 0,
    ensures
        within(near, t_min, t_max) ==> root_choice(discriminant, near, far, t_min, t_max) == Some(
            Root::Near,
        ),
        root_choice(discriminant, near, far, t_min, t_max) matches Some(_) ==> (within(
            near,
            t_min,
            t_max,
        ) || within(far, t_min, t_max)),
        near == t_min || near == t_max ==> root_choice(discriminant, near, far, t_min, t_max) != Some(
            Root::Near,
        ),
{
}

/// Whether the ray struck the outward side of the surface, from the ordered
/// key of the dot product of the ray's direction with the outward normal:
/// it did when that product is negative. The stored normal is the outward
/// one when this holds and its negation otherwise, so it always opposes the
/// ray.
pub fn front_face(direction_dot_outward: u64) -> (r: bool)
    ensures
        r == (key_value(direction_dot_outward) < 0),
{
    direction_dot_outward < SIGN_BIT
}

} // verus!
