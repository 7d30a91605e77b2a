//! Mathematical model of the per-frame game logic.
//!
//! The executable update functions promise, in their contracts, to agree
//! with the spec functions here; the laws of the game are proved about
//! these functions alone. Randomness is modeled by the `Draws` record:
//! an executable function that draws random values promises that its
//! outcome equals the model applied to *some* draws in range.

use vstd::prelude::*;
use crate::{
    INITIAL_HEALTH, LEAN_SLOWDOWN, LEAN_BAND, OUT_OF_BOUNDS_Y, LEAN_STEP_MIN, LEAN_STEP_MAX,
    PERTURB_RANGE, TILT_BASE, PLAYER_SPEED, ROAD_SPEED, ROAD_WRAP_X, ROAD_WRAP_SHIFT,
    OBSTACLE_OFF_X, SPAWN_X_MIN, SPAWN_X_MAX, SPAWN_Y_MIN, SPAWN_Y_MAX,
};
use crate::world::{CollisionEvent, Entity, EntityKind};

verus! {

/// The mutable game record: health, loss flag, speed offset while
/// leaning, and the lean accumulator.
pub ghost struct StateModel {
    pub health: int,
    pub lost: bool,
    pub slowdown: int,
    pub lean: int,
}

impl StateModel {
    /// Well-formedness: health within its initial range, the slowdown
    /// either clear or the lean value, and the loss flag only set at
    /// zero health.
    pub open spec fn wf(self) -> bool {
        &&& 0 <= self.health <= INITIAL_HEALTH as int
        &&& (self.slowdown == 0 || self.slowdown == LEAN_SLOWDOWN as int)
        &&& (self.lost ==> self.health == 0)
    }
}

/// The state a round starts from.
pub open spec fn initial_state() -> StateModel {
    StateModel { health: INITIAL_HEALTH as int, lost: false, slowdown: 0, lean: 0 }
}

/// The random values one movement step can consume: a lean-accumulator
/// step, the snap-back draw, and the direction perturbation.
pub ghost struct Draws {
    pub lean_step: int,
    pub snap: bool,
    pub perturb: int,
}

/// Net input direction: up/W add one, down/S subtract one, so both held
/// cancel to zero.
pub open spec fn direction_spec(up: bool, w: bool, down: bool, s: bool) -> int {
    (if up || w { 1int } else { 0int }) + (if down || s { -1int } else { 0int })
}

/// The lean trigger: outside the lean band the accumulator moves by the
/// drawn step; inside the band it and the slowdown reset to zero — the
/// only place the slowdown is cleared.
pub open spec fn lean_triggered(s: StateModel, y: int, lean_step: int) -> StateModel {
    if y > LEAN_BAND as int || y < -(LEAN_BAND as int) {
        StateModel { lean: s.lean + lean_step, ..s }
    } else {
        StateModel { lean: 0, slowdown: 0, ..s }
    }
}

/// Range of the drawn lean step: positive above the band, negative below
/// it, unused (zero) inside it.
pub open spec fn lean_step_ok(y: int, lean_step: int) -> bool {
    if y > LEAN_BAND as int {
        LEAN_STEP_MIN as int <= lean_step < LEAN_STEP_MAX as int
    } else if y < -(LEAN_BAND as int) {
        -(LEAN_STEP_MAX as int) <= lean_step < 0
    } else {
        lean_step == 0
    }
}

/// Which draws a movement step from state `s` at height `y` can consume.
/// The snap and the perturbation are only drawn while leaning.
pub open spec fn draws_ok(s: StateModel, y: int, d: Draws) -> bool {
    &&& lean_step_ok(y, d.lean_step)
    &&& ({
        let leaning = lean_triggered(s, y, d.lean_step).lean != 0;
        if leaning {
            -(PERTURB_RANGE as int) <= d.perturb < PERTURB_RANGE as int
        } else {
            d.perturb == 0 && d.snap == false
        }
    })
}

/// Outcome of one movement step: the new state, the player's new height,
/// and the sprite tilt set this frame.
pub ghost struct MoveModel {
    pub state: StateModel,
    pub y: int,
    pub tilt: int,
}

/// One player-movement step: lean trigger, lean recovery (the
/// snap clears the accumulator but the slowdown and the perturbation
/// still apply that frame), position update, sprite tilt, and the
/// out-of-bounds check that zeroes health one frame before the loss is
/// detected.
pub open spec fn movement_next(s: StateModel, y: int, dir: int, delta: int, d: Draws) -> MoveModel {
    let s1 = lean_triggered(s, y, d.lean_step);
    let leaning = s1.lean != 0;
    let s2 = if leaning {
        StateModel {
            lean: if d.snap { 0 } else { s1.lean },
            slowdown: LEAN_SLOWDOWN as int,
            ..s1
        }
    } else {
        s1
    };
    let perturb = if leaning { d.perturb } else { 0 };
    let y2 = y + (dir * 1000 + perturb) * (PLAYER_SPEED as int + s2.slowdown) * delta;
    let tilt = dir * (TILT_BASE as int + s2.lean);
    let s3 = if y2 > OUT_OF_BOUNDS_Y as int || y2 < -(OUT_OF_BOUNDS_Y as int) {
        StateModel { health: 0, ..s2 }
    } else {
        s2
    };
    MoveModel { state: s3, y: y2, tilt: tilt }
}

/// A collision event costs health exactly when it is a begin event with
/// the player on one side.
pub open spec fn qualifies(e: CollisionEvent) -> bool {
    &&& e.state is Begin
    &&& (e.a is Player || e.b is Player)
}

/// How many events of a frame cost health.
pub open spec fn hits(events: Seq<CollisionEvent>) -> int
    decreases events.len(),
{
    if events.len() == 0 {
        0
    } else {
        (if qualifies(events[0]) { 1int } else { 0int }) + hits(events.drop_first())
    }
}

/// Health after `n` qualifying events: each decrements by one, guarded
/// per event, so the result is `max(0, h - n)`.
pub open spec fn health_after(h: int, n: int) -> int {
    if h - n >= 0 { h - n } else { 0 }
}

/// Collision resolution event by event, as the frame performs it: each
/// qualifying event decrements health, guarded per event, never once
/// per frame.
pub open spec fn process_events(s: StateModel, events: Seq<CollisionEvent>) -> StateModel
    decreases events.len(),
{
    if events.len() == 0 {
        s
    } else {
        let s1 = if qualifies(events[0]) && s.health > 0 {
            StateModel { health: s.health - 1, ..s }
        } else {
            s
        };
        process_events(s1, events.drop_first())
    }
}

/// The state after this frame's collision resolution.
pub open spec fn after_collisions(s: StateModel, n: int) -> StateModel {
    StateModel { health: health_after(s.health, n), ..s }
}

/// Where one frame's scroll moves a world x: road and obstacles share
/// the player's slowdown.
pub open spec fn scrolled_x(x: int, slowdown: int, delta: int) -> int {
    x - (ROAD_SPEED as int + slowdown) * delta * 1000
}

/// A road marker's x after one frame: scrolled, then wrapped right by
/// one strip period once it passes the wrap line.
pub open spec fn road_next(x: int, slowdown: int, delta: int) -> int {
    let xs = scrolled_x(x, slowdown, delta);
    if xs < ROAD_WRAP_X as int { xs + ROAD_WRAP_SHIFT as int } else { xs }
}

/// Whether an obstacle starting at `x` leaves the screen this frame.
pub open spec fn obstacle_respawns(x: int, slowdown: int, delta: int) -> bool {
    scrolled_x(x, slowdown, delta) < OBSTACLE_OFF_X as int
}

/// Admissible x of a respawned obstacle.
pub open spec fn spawn_x_ok(x: int) -> bool {
    SPAWN_X_MIN as int <= x < SPAWN_X_MAX as int
}

/// Admissible y of a respawned obstacle.
pub open spec fn spawn_y_ok(y: int) -> bool {
    SPAWN_Y_MIN as int <= y < SPAWN_Y_MAX as int
}

/// How one frame's scroll relates an entity to its successor: road
/// markers scroll and wrap, obstacles scroll and possibly respawn,
/// everything else stands still.
pub open spec fn scrolled_entity(before: Entity, after: Entity, slowdown: int, delta: int) -> bool {
    match before.kind {
        EntityKind::RoadLine => after == (Entity {
            x: road_next(before.x as int, slowdown, delta) as i64,
            ..before
        }),
        EntityKind::Obstacle => {
            &&& after == (Entity { x: after.x, y: after.y, ..before })
            &&& (if obstacle_respawns(before.x as int, slowdown, delta) {
                spawn_x_ok(after.x as int) && spawn_y_ok(after.y as int)
            } else {
                after.x as int == scrolled_x(before.x as int, slowdown, delta) && after.y
                    == before.y
            })
        },
        _ => after == before,
    }
}

/// Appending one event adds its own cost to the count.
pub proof fn lemma_hits_snoc(events: Seq<CollisionEvent>, e: CollisionEvent)
    ensures
        hits(events.push(e)) == hits(events) + (if qualifies(e) { 1int } else { 0int }),
    decreases events.len(),
{
    if events.len() == 0 {
        assert(events.push(e)[0] == e);
        assert(events.push(e).drop_first() =~= Seq::<CollisionEvent>::empty());
        assert(hits(events.push(e).drop_first()) == 0);
        assert(hits(events.push(e)) == (if qualifies(e) { 1int } else { 0int }) + hits(
            events.push(e).drop_first(),
        ));
    } else {
        assert(events.push(e)[0] == events[0]);
        assert(events.push(e).drop_first() =~= events.drop_first().push(e));
        lemma_hits_snoc(events.drop_first(), e);
        assert(hits(events.push(e)) == (if qualifies(events[0]) { 1int } else { 0int }) + hits(
            events.push(e).drop_first(),
        ));
        assert(hits(events) == (if qualifies(events[0]) { 1int } else { 0int }) + hits(
            events.drop_first(),
        ));
    }
}

/// The count of costly events lies between zero and the event count.
pub proof fn lemma_hits_bounds(events: Seq<CollisionEvent>)
    ensures
        0 <= hits(events) <= events.len(),
    decreases events.len(),
{
    if events.len() > 0 {
        lemma_hits_bounds(events.drop_first());
    }
}

/// The game record and the player position, as one frame sees them.
pub ghost struct FrameModel {
    pub state: StateModel,
    pub y: int,
    pub tilt: int,
}

/// Everything one frame consumes: held keys, elapsed time, random draws,
/// and the number of qualifying collision events.
pub ghost struct FrameStep {
    pub up: bool,
    pub w: bool,
    pub down: bool,
    pub s: bool,
    pub delta: int,
    pub draws: Draws,
    pub hits: int,
}

/// One whole frame. At zero health the frame only latches the loss flag
/// and freezes everything else; otherwise input, movement and collision
/// resolution run in order.
pub open spec fn frame_next(m: FrameModel, st: FrameStep) -> FrameModel {
    if m.state.health == 0 {
        FrameModel { state: StateModel { lost: true, ..m.state }, ..m }
    } else {
        let dir = direction_spec(st.up, st.w, st.down, st.s);
        let mv = movement_next(m.state, m.y, dir, st.delta, st.draws);
        FrameModel { state: after_collisions(mv.state, st.hits), y: mv.y, tilt: mv.tilt }
    }
}

/// A whole run: the frames applied in order.
pub open spec fn run(m: FrameModel, steps: Seq<FrameStep>) -> FrameModel
    decreases steps.len(),
{
    if steps.len() == 0 {
        m
    } else {
        run(frame_next(m, steps[0]), steps.drop_first())
    }
}

} // verus!
