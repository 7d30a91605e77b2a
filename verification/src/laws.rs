//! The laws of the game, proved about the model that the executable
//! update functions are contracted to follow.

use vstd::prelude::*;
use vstd::arithmetic::div_mod::lemma_mod_add_multiples_vanish;
use crate::{
    LEAN_BAND, OUT_OF_BOUNDS_Y, ROAD_MARKER_COUNT, ROAD_SPACING, ROAD_SPEED, ROAD_WRAP_SHIFT,
    ROAD_WRAP_X,
};
use crate::model::{
    after_collisions, frame_next, hits, lemma_hits_bounds, movement_next, process_events,
    qualifies, road_next, run, scrolled_x, Draws, FrameModel, FrameStep, StateModel,
};
use crate::world::CollisionEvent;

verus! {

/// Health never increases: one frame can only keep or lower it, and a
/// well-formed state stays well-formed, so health stays within
/// `[0, INITIAL_HEALTH]`.
pub proof fn lemma_health_monotone_step(m: FrameModel, st: FrameStep)
    requires
        m.state.wf(),
        st.hits >= 0,
    ensures
        frame_next(m, st).state.health <= m.state.health,
        frame_next(m, st).state.wf(),
{
}

/// Health never increases over a whole run of frames and stays within
/// `[0, INITIAL_HEALTH]`, whatever is pressed, drawn or hit.
pub proof fn lemma_health_monotone_run(m: FrameModel, steps: Seq<FrameStep>)
    requires
        m.state.wf(),
        forall|i: int| 0 <= i < steps.len() ==> (#[trigger] steps[i]).hits >= 0,
    ensures
        run(m, steps).state.health <= m.state.health,
        run(m, steps).state.wf(),
    decreases steps.len(),
{
    if steps.len() > 0 {
        lemma_health_monotone_step(m, steps[0]);
        assert(forall|i: int|
            0 <= i < steps.drop_first().len() ==> (#[trigger] steps.drop_first()[i]).hits >= 0);
        lemma_health_monotone_run(frame_next(m, steps[0]), steps.drop_first());
    }
}

/// The loss flag latches: once set, every later frame keeps it set.
pub proof fn lemma_lost_latches(m: FrameModel, st: FrameStep)
    requires
        m.state.lost,
    ensures
        frame_next(m, st).state.lost,
{
}

/// A lost round is frozen: with the loss flag set (and health at zero,
/// as well-formedness demands), a frame is a no-op — no movement, no
/// scrolling, no health change.
pub proof fn lemma_lost_freezes(m: FrameModel, st: FrameStep)
    requires
        m.state.lost,
        m.state.wf(),
    ensures
        frame_next(m, st) == m,
{
}

/// A lost round stays frozen over any whole run of frames.
pub proof fn lemma_lost_freezes_run(m: FrameModel, steps: Seq<FrameStep>)
    requires
        m.state.lost,
        m.state.wf(),
    ensures
        run(m, steps) == m,
    decreases steps.len(),
{
    if steps.len() > 0 {
        lemma_lost_freezes(m, steps[0]);
        lemma_lost_freezes_run(m, steps.drop_first());
    }
}

/// Collision decrement: resolving a frame's events one by one, each
/// decrement guarded per event, leaves exactly `max(0, H - N)` health,
/// where `N` counts the begin events involving the player — never
/// `H - 1` capped once per frame.
pub proof fn lemma_collision_decrement(s: StateModel, events: Seq<CollisionEvent>)
    requires
        s.health >= 0,
    ensures
        process_events(s, events) == after_collisions(s, hits(events)),
    decreases events.len(),
{
    if events.len() == 0 {
        assert(after_collisions(s, 0) == s);
    } else {
        lemma_hits_bounds(events.drop_first());
        if qualifies(events[0]) && s.health > 0 {
            lemma_collision_decrement(StateModel { health: s.health - 1, ..s }, events.drop_first());
        } else {
            lemma_collision_decrement(s, events.drop_first());
        }
    }
}

/// Road wrap, written out: while not leaning, a marker that crosses the
/// wrap line during a frame's scroll lands exactly one strip period
/// right of its scrolled position.
pub proof fn lemma_road_wrap_formula(x: int, delta: int)
    requires
        scrolled_x(x, 0, delta) < ROAD_WRAP_X as int,
    ensures
        road_next(x, 0, delta) == x - (ROAD_SPEED as int) * delta * 1000 + ROAD_WRAP_SHIFT as int,
{
}

/// The strip period is the marker count times their spacing, and one
/// frame keeps every marker's position congruent, modulo that period,
/// to its plainly scrolled position: wrapping a marker reproduces the
/// period-`ROAD_WRAP_SHIFT` pattern the markers tile.
pub proof fn lemma_road_wrap_period(x: int, slowdown: int, delta: int)
    ensures
        ROAD_WRAP_SHIFT as int == ROAD_MARKER_COUNT as int * (ROAD_SPACING as int),
        road_next(x, slowdown, delta) % (ROAD_WRAP_SHIFT as int) == scrolled_x(
            x,
            slowdown,
            delta,
        ) % (ROAD_WRAP_SHIFT as int),
{
    let xs = scrolled_x(x, slowdown, delta);
    if xs < ROAD_WRAP_X as int {
        lemma_mod_add_multiples_vanish(xs, ROAD_WRAP_SHIFT as int);
    }
}

/// Out-of-bounds latency, first half: a movement step that carries the
/// player past the vertical bounds zeroes health at once.
pub proof fn lemma_out_of_bounds_zeroes_health(s: StateModel, y: int, dir: int, delta: int, d: Draws)
    requires
        movement_next(s, y, dir, delta, d).y > OUT_OF_BOUNDS_Y as int || movement_next(
            s,
            y,
            dir,
            delta,
            d,
        ).y < -(OUT_OF_BOUNDS_Y as int),
    ensures
        movement_next(s, y, dir, delta, d).state.health == 0,
{
}

/// Out-of-bounds latency, second half: the loss itself is only detected
/// by the next frame, which latches the flag and freezes the round.
pub proof fn lemma_zero_health_frame(m: FrameModel, st: FrameStep)
    requires
        m.state.health == 0,
    ensures
        frame_next(m, st).state.lost,
        frame_next(m, st).state.health == 0,
        frame_next(m, st).y == m.y,
        frame_next(m, st).tilt == m.tilt,
        frame_next(m, st).state.slowdown == m.state.slowdown,
        frame_next(m, st).state.lean == m.state.lean,
{
}

/// Lean reset: whenever the player's height is inside the lean band at
/// the start of a movement step, that step leaves both the slowdown and
/// the lean accumulator at exactly zero, whatever they were before and
/// whatever is drawn.
pub proof fn lemma_lean_reset(s: StateModel, y: int, dir: int, delta: int, d: Draws)
    requires
        -(LEAN_BAND as int) <= y <= LEAN_BAND as int,
    ensures
        movement_next(s, y, dir, delta, d).state.slowdown == 0,
        movement_next(s, y, dir, delta, d).state.lean == 0,
{
}

} // verus!
