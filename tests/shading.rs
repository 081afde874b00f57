use raytracer::material::{scatter_outcome, Scatter};
use raytracer::order::order_key;
use raytracer::path::{start_path, step_path, Interaction, PathState};

fn key(x: f64) -> u64 {
    order_key(x.to_bits())
}

#[test]
fn zero_depth_is_black() {
    assert_eq!(start_path(0), PathState::Black);
    assert_eq!(start_path(-5), PathState::Black);
}

#[test]
fn positive_depth_traces() {
    assert_eq!(start_path(50), PathState::Trace { depth: 50 });
}

#[test]
fn miss_ends_at_sky() {
    assert_eq!(step_path(3, Interaction::Missed), PathState::Sky);
}

#[test]
fn absorption_ends_in_black() {
    assert_eq!(step_path(3, Interaction::Absorbed), PathState::Black);
}

#[test]
fn scatter_spends_one_bounce() {
    assert_eq!(step_path(3, Interaction::Scattered), PathState::Trace { depth: 2 });
    assert_eq!(step_path(1, Interaction::Scattered), PathState::Black);
}

#[test]
fn endless_scattering_stops_after_depth_traces() {
    let mut state = start_path(50);
    let mut traces = 0;
    while let PathState::Trace { depth } = state {
        traces += 1;
        state = step_path(depth, Interaction::Scattered);
    }
    assert_eq!(traces, 50);
    assert_eq!(state, PathState::Black);
}

#[test]
fn diffuse_never_absorbs() {
    assert_eq!(scatter_outcome(Scatter::Diffuse), Interaction::Scattered);
}

#[test]
fn dielectric_never_absorbs() {
    assert_eq!(scatter_outcome(Scatter::Refract), Interaction::Scattered);
}

#[test]
fn metal_scatters_toward_normal_side() {
    assert_eq!(scatter_outcome(Scatter::Reflect { dot: key(0.3) }), Interaction::Scattered);
    assert_eq!(scatter_outcome(Scatter::Reflect { dot: key(1.0e-300) }), Interaction::Scattered);
}

#[test]
fn metal_absorbs_non_positive_reflection() {
    assert_eq!(scatter_outcome(Scatter::Reflect { dot: key(0.0) }), Interaction::Absorbed);
    assert_eq!(scatter_outcome(Scatter::Reflect { dot: key(-0.0) }), Interaction::Absorbed);
    assert_eq!(scatter_outcome(Scatter::Reflect { dot: key(-0.2) }), Interaction::Absorbed);
}
