//! The control of the recursive radiance evaluation, as a state machine.
//!
//! A path starts with a bounce budget. While budget remains, the current ray
//! is traced through the scene: a miss ends the path at the sky, an absorbing
//! surface ends it in black, and a scattering surface continues it with one
//! bounce less. An exhausted budget ends the path in black. The color of a
//! path is the product of the attenuations along it times its end color; that
//! arithmetic belongs to the caller, which performs each trace and reports
//! what the scene did.
use vstd::prelude::*;

verus! {

/// What the scene did with a traced ray.
#[derive(Clone, Copy, Debug, PartialEq, Eq, Structural)]
pub enum Interaction {
    /// No object was hit.
    Missed,
    /// An object was hit and its material absorbed the ray.
    Absorbed,
    /// An object was hit and its material scattered the ray.
    Scattered,
}

/// Where a path stands.
#[derive(Clone, Copy, Debug, PartialEq, Eq, Structural)]
pub enum PathState {
    /// The current ray is to be traced; `depth` bounces remain, `depth > 0`.
    Trace { depth: i32 },
    /// The path ends in black.
    Black,
    /// The path ends at the background.
    Sky,
}

/// The state of a path that is given `depth` bounces.
pub open spec fn begin(depth: int) -> PathState {
    if depth <= 0 {
        PathState::Black
    } else {
        PathState::Trace { depth: depth as i32 }
    }
}

/// The state after a trace that reported `event`.
pub open spec fn after(depth: int, event: Interaction) -> PathState {
    match event {
        Interaction::Missed => PathState::Sky,
        Interaction::Absorbed => PathState::Black,
        Interaction::Scattered => begin(depth - 1),
    }
}

/// Whether the path has ended.
pub open spec fn is_final(s: PathState) -> bool {
    !(s is Trace)
}

/// Runs a path from state `s` on the interactions that the scene reports, in
/// order, until it ends or they run out. Gives the state reached and the
/// number of traces made.
pub open spec fn run(s: PathState, events: Seq<Interaction>) -> (PathState, nat)
    decreases events.len(),
{
    match s {
        PathState::Trace { depth } => if events.len() == 0 {
            (s, 0)
        } else {
            let (e, n) = run(after(depth as int, events[0]), events.drop_first());
            (e, n + 1)
        },
        _ => (s, 0),
    }
}

/// Starts a path with `depth` bounces.
pub fn start_path(depth: i32) -> (s: PathState)
    ensures
        s == begin(depth as int),
{
    if depth <= 0 {
        PathState::Black
    } else {
        PathState::Trace { depth }
    }
}

/// Advances a path that had `depth` bounces left by what the scene did with
/// its ray.
pub fn step_path(depth: i32, event: Interaction) -> (s: PathState)
    requires
        depth > 0,
    ensures
        s == after(depth as int, event),
{
    match event {
        Interaction::Missed => PathState::Sky,
        Interaction::Absorbed => PathState::Black,
        Interaction::Scattered => start_path(depth - 1),
    }
}

/// A path given no bounces is black, whatever the scene would report: it
/// traces nothing.
pub proof fn lemma_no_budget_is_black(depth: int, events: Seq<Interaction>)
    requires
        depth <= 0,
    ensures
        run(begin(depth), events) == (PathState::Black, 0nat),
{
}

/// A path makes at most `depth` traces, and once the scene has reported
/// `depth` interactions it has ended.
pub proof fn lemma_path_is_bounded(depth: int, events: Seq<Interaction>)
    requires
        depth <= i32::MAX,
    ensures
        run(begin(depth), events).1 <= if depth > 0 { depth } else { 0 },
        events.len() >= depth ==> is_final(run(begin(depth), events).0),
    decreases events.len(),
{
    if depth > 0 && events.len() > 0 {
        let rest = events.drop_first();
        assert(begin(depth) == PathState::Trace { depth: depth as i32 });
        let next = after(depth, events[0]);
        assert(run(begin(depth), events) == (run(next, rest).0, run(next, rest).1 + 1));
        if events[0] == Interaction::Scattered {
            lemma_path_is_bounded(depth - 1, rest);
        } else {
            assert(run(next, rest) == (next, 0nat));
        }
    }
}

} // verus!
