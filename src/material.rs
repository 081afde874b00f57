//! Whether a surface scatters or absorbs an incoming ray.
//!
//! A diffuse (Lambertian) surface always scatters. A dielectric always
//! refracts. A metal reflects about the normal, perturbed by its fuzz; the
//! result is kept only when it leaves on the side the normal points to, and
//! the ray is absorbed otherwise.
use vstd::prelude::*;
use crate::order::{key_value, SIGN_BIT};
use crate::path::Interaction;

verus! {

/// The scattering law of a surface, with what it reads to decide.
#[derive(Clone, Copy, Debug, PartialEq, Eq, Structural)]
pub enum Scatter {
    /// A diffuse surface.
    Diffuse,
    /// A metal surface; `dot` is the ordered key of the dot product of the
    /// fuzzed reflected direction with the surface normal.
    Reflect { dot: u64 },
    /// A dielectric surface.
    Refract,
}

/// What the surface does with the ray.
pub open spec fn scatter_result(s: Scatter) -> Interaction {
    match s {
        Scatter::Reflect { dot } => if key_value(dot) > 0 {
            Interaction::Scattered
        } else {
            Interaction::Absorbed
        },
        _ => Interaction::Scattered,
    }
}

/// Decides whether the surface scatters the ray or absorbs it.
pub fn scatter_outcome(s: Scatter) -> (r: Interaction)
    ensures
        r == scatter_result(s),
{
    match s {
        Scatter::Reflect { dot } => if dot > SIGN_BIT {
            Interaction::Scattered
        } else {
            Interaction::Absorbed
        },
        _ => Interaction::Scattered,
    }
}

/// A diffuse or dielectric surface never absorbs; a metal absorbs exactly
/// when its fuzzed reflection does not point to the side of the normal.
pub proof fn lemma_absorption(s: Scatter)
    ensures
        s is Diffuse ==> scatter_result(s) == Interaction::Scattered,
        s is Refract ==> scatter_result(s) == Interaction::Scattered,
        s matches Scatter::Reflect { dot } ==> (scatter_result(s) == Interaction::Absorbed
            <==> key_value(dot) <= 0),
{
}

} // verus!
