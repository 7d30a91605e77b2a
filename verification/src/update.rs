//! The per-frame update: input resolution, player movement with the
//! lean mechanic, world scrolling and recycling, and collision-driven
//! health loss.

use vstd::prelude::*;
use crate::{
    DELTA_LIMIT, POS_LIMIT, LEAN_LIMIT, LEAN_BAND, LEAN_STEP_MIN, LEAN_STEP_MAX, PERTURB_RANGE,
    PLAYER_SPEED, ROAD_SPEED, ROAD_WRAP_X, ROAD_WRAP_SHIFT, OBSTACLE_OFF_X, SPAWN_X_MIN,
    SPAWN_X_MAX, SPAWN_Y_MIN, SPAWN_Y_MAX, OUT_OF_BOUNDS_Y, TILT_BASE, SNAP_ODDS, LEAN_SLOWDOWN,
};
use crate::model::{
    direction_spec, road_next, scrolled_x, obstacle_respawns, spawn_x_ok, spawn_y_ok, Draws,
    draws_ok, movement_next, after_collisions, frame_next, health_after, hits, process_events,
    scrolled_entity, lemma_hits_snoc, lemma_hits_bounds, FrameModel, FrameStep,
};
use crate::state::GameState;
use crate::world::{
    CollisionEvent, CollisionState, Entity, EntityKind, GameError, find_player, first_player_at,
    has_player, player_index, lemma_first_player_unique,
};
use crate::rng::{rand_range, rand_ratio};

verus! {

/// Net input direction for one frame: up/W and down/S are additive, so
/// opposite keys held together cancel to zero. Pure in the current key
/// state; nothing persists across frames.
pub fn determine_direction(up: bool, w: bool, down: bool, s: bool) -> (d: i64)
    ensures
        d as int == direction_spec(up, w, down, s),
        -1 <= d <= 1,
{
    let mut d: i64 = 0;
    if up || w {
        d = d + 1;
    }
    if down || s {
        d = d - 1;
    }
    d
}

/// The HUD text for a health value; values above the initial health
/// read as full.
pub open spec fn health_label_spec(h: u8) -> Seq<char> {
    if h == 0 {
        "Health: 0"@
    } else if h == 1 {
        "Health: 1"@
    } else if h == 2 {
        "Health: 2"@
    } else if h == 3 {
        "Health: 3"@
    } else if h == 4 {
        "Health: 4"@
    } else {
        "Health: 5"@
    }
}

/// Renders the HUD health text.
pub fn health_label(h: u8) -> (r: String)
    ensures
        r@ == health_label_spec(h),
{
    if h == 0 {
        String::from_str("Health: 0")
    } else if h == 1 {
        String::from_str("Health: 1")
    } else if h == 2 {
        String::from_str("Health: 2")
    } else if h == 3 {
        String::from_str("Health: 3")
    } else if h == 4 {
        String::from_str("Health: 4")
    } else {
        String::from_str("Health: 5")
    }
}

/// Scrolls one road marker left at the road speed plus the shared
/// slowdown, wrapping right by one strip period past the wrap line.
pub fn move_road(delta: i64, sprite: &mut Entity, state: &GameState)
    requires
        0 <= delta <= DELTA_LIMIT,
        -POS_LIMIT <= old(sprite).x <= POS_LIMIT,
        state@.wf(),
    ensures
        final(sprite).x as int == road_next(old(sprite).x as int, state@.slowdown, delta as int),
        *final(sprite) == (Entity { x: final(sprite).x, ..*old(sprite) }),
{
    let speed: i64 = ROAD_SPEED + state.slowdown;
    proof {
        assert(0 <= (speed as int) * (delta as int) <= 400 * 1_000_000) by (nonlinear_arith)
            requires
                0 <= speed <= 400,
                0 <= delta <= 1_000_000,
        ;
    }
    sprite.x = sprite.x - speed * delta * 1000;
    if sprite.x < ROAD_WRAP_X {
        sprite.x = sprite.x + ROAD_WRAP_SHIFT;
    }
}

/// Scrolls one obstacle like the road; once it leaves the screen on the
/// left it respawns at a random spot inside the spawn box, both axes
/// drawn fresh.
pub fn move_obstacles(delta: i64, sprite: &mut Entity, state: &GameState)
    requires
        0 <= delta <= DELTA_LIMIT,
        -POS_LIMIT <= old(sprite).x <= POS_LIMIT,
        state@.wf(),
    ensures
        obstacle_respawns(old(sprite).x as int, state@.slowdown, delta as int) ==> {
            &&& spawn_x_ok(final(sprite).x as int)
            &&& spawn_y_ok(final(sprite).y as int)
        },
        !obstacle_respawns(old(sprite).x as int, state@.slowdown, delta as int) ==> {
            &&& final(sprite).x as int == scrolled_x(
                old(sprite).x as int,
                state@.slowdown,
                delta as int,
            )
            &&& final(sprite).y == old(sprite).y
        },
        *final(sprite) == (Entity {
            x: final(sprite).x,
            y: final(sprite).y,
            ..*old(sprite)
        }),
{
    let speed: i64 = ROAD_SPEED + state.slowdown;
    proof {
        assert(0 <= (speed as int) * (delta as int) <= 400 * 1_000_000) by (nonlinear_arith)
            requires
                0 <= speed <= 400,
                0 <= delta <= 1_000_000,
        ;
    }
    sprite.x = sprite.x - speed * delta * 1000;
    if sprite.x < OBSTACLE_OFF_X {
        sprite.x = rand_range(SPAWN_X_MIN, SPAWN_X_MAX);
        sprite.y = rand_range(SPAWN_Y_MIN, SPAWN_Y_MAX);
    }
}

/// Moves the player: the lean trigger, the chance to snap out of the
/// lean, the position update at the slowed speed, the sprite tilt, and
/// the out-of-bounds check that zeroes health for the next frame's
/// game-over check. The outcome equals the model on the draws actually
/// taken; everything promised of the draws is their range.
pub fn player_movement(state: &mut GameState, player: &mut Entity, direction: i64, delta: i64)
    requires
        old(state)@.wf(),
        -1 <= direction <= 1,
        0 <= delta <= DELTA_LIMIT,
        -POS_LIMIT <= old(player).y <= POS_LIMIT,
        -LEAN_LIMIT <= old(state).rotation <= LEAN_LIMIT,
    ensures
        ({
            let s0 = old(state)@;
            let y0 = old(player).y as int;
            exists|d: Draws|
                #[trigger] draws_ok(s0, y0, d) && ({
                    let m = movement_next(s0, y0, direction as int, delta as int, d);
                    &&& final(state)@ == m.state
                    &&& final(player).y as int == m.y
                    &&& final(player).tilt as int == m.tilt
                })
        }),
        final(state)@.wf(),
        final(state).lost == old(state).lost,
        final(state).health_amount == old(state).health_amount || final(state).health_amount
            == 0,
        *final(player) == (Entity {
            y: final(player).y,
            tilt: final(player).tilt,
            ..*old(player)
        }),
{
    let y0 = player.y;
    let step: i64;
    if y0 > LEAN_BAND {
        step = rand_range(LEAN_STEP_MIN, LEAN_STEP_MAX);
        state.rotation = state.rotation + step;
    } else if y0 < -LEAN_BAND {
        step = rand_range(-LEAN_STEP_MAX, 0);
        state.rotation = state.rotation + step;
    } else {
        step = 0;
        state.rotation = 0;
        state.slowdown = 0;
    }
    let mut snap: bool = false;
    let mut perturb: i64 = 0;
    if state.rotation != 0 {
        snap = rand_ratio(1, SNAP_ODDS);
        if snap {
            state.rotation = 0;
        }
        state.slowdown = LEAN_SLOWDOWN;
        perturb = rand_range(-PERTURB_RANGE, PERTURB_RANGE);
    }
    let dir_eff: i64 = direction * 1000 + perturb;
    let speed: i64 = PLAYER_SPEED + state.slowdown;
    proof {
        assert(-500_000 <= (dir_eff as int) * (speed as int) <= 500_000) by (nonlinear_arith)
            requires
                -2000 <= dir_eff <= 2000,
                100 <= speed <= 250,
        ;
        assert(-500_000 * 1_000_000 <= ((dir_eff * speed) as int) * (delta as int) <= 500_000
            * 1_000_000) by (nonlinear_arith)
            requires
                -500_000 <= (dir_eff * speed) as int <= 500_000,
                0 <= delta <= 1_000_000,
        ;
    }
    player.y = player.y + dir_eff * speed * delta;
    let tilt_scale: i64 = TILT_BASE + state.rotation;
    proof {
        assert(-1_100_000_000 <= (direction as int) * (tilt_scale as int)
            <= 1_100_000_000) by (nonlinear_arith)
            requires
                -1 <= direction <= 1,
                -1_100_000_000 <= tilt_scale <= 1_100_000_000,
        ;
    }
    player.tilt = direction * tilt_scale;
    if player.y > OUT_OF_BOUNDS_Y || player.y < -OUT_OF_BOUNDS_Y {
        state.health_amount = 0;
    }
    proof {
        let d = Draws { lean_step: step as int, snap: snap, perturb: perturb as int };
        assert(draws_ok(old(state)@, old(player).y as int, d));
        let m = movement_next(
            old(state)@,
            old(player).y as int,
            direction as int,
            delta as int,
            d,
        );
        assert(state@ == m.state);
        assert(player.y as int == m.y);
        assert(player.tilt as int == m.tilt);
    }
}

/// Scrolls every road marker and obstacle of the scene by this frame's
/// travel, recycling what left the screen; everything else, the player
/// included, stands still here.
pub fn process_objects(entities: &mut Vec<Entity>, state: &GameState, delta: i64)
    requires
        state@.wf(),
        0 <= delta <= DELTA_LIMIT,
        forall|i: int|
            0 <= i < old(entities)@.len() ==> -POS_LIMIT <= (#[trigger] old(entities)@[i]).x
                <= POS_LIMIT,
    ensures
        final(entities)@.len() == old(entities)@.len(),
        forall|i: int|
            0 <= i < old(entities)@.len() ==> scrolled_entity(
                old(entities)@[i],
                #[trigger] final(entities)@[i],
                state@.slowdown,
                delta as int,
            ),
{
    let ghost orig = entities@;
    let n = entities.len();
    let mut i: usize = 0;
    while i < n
        invariant
            i <= n,
            n as int == orig.len(),
            entities@.len() == orig.len(),
            state@.wf(),
            0 <= delta <= DELTA_LIMIT,
            forall|k: int| 0 <= k < orig.len() ==> -POS_LIMIT <= (#[trigger] orig[k]).x
                <= POS_LIMIT,
            forall|k: int| i as int <= k < orig.len() ==> #[trigger] entities@[k] == orig[k],
            forall|k: int|
                0 <= k < i as int ==> scrolled_entity(
                    orig[k],
                    #[trigger] entities@[k],
                    state@.slowdown,
                    delta as int,
                ),
        decreases n - i,
    {
        let kind = entities[i].kind;
        match kind {
            EntityKind::RoadLine => move_road(delta, &mut entities[i], state),
            EntityKind::Obstacle => move_obstacles(delta, &mut entities[i], state),
            _ => {},
        }
        i = i + 1;
    }
}

/// Resolves this frame's collision events: each begin event involving
/// the player costs one health while any is left; the returned count of
/// decrements says how many impact effects the frame produced.
pub fn update_health(state: &mut GameState, events: &Vec<CollisionEvent>) -> (impacts: u8)
    requires
        old(state)@.wf(),
    ensures
        final(state)@ == after_collisions(old(state)@, hits(events@)),
        final(state)@ == process_events(old(state)@, events@),
        final(state)@.wf(),
        impacts as int == old(state)@.health - final(state)@.health,
{
    let mut impacts: u8 = 0;
    let n = events.len();
    let mut i: usize = 0;
    proof {
        assert(events@.take(0) =~= Seq::<CollisionEvent>::empty());
    }
    while i < n
        invariant
            i <= n,
            n as int == events@.len(),
            old(state)@.wf(),
            state@.lost == old(state)@.lost,
            state@.slowdown == old(state)@.slowdown,
            state@.lean == old(state)@.lean,
            state@.health == health_after(old(state)@.health, hits(events@.take(i as int))),
            0 <= state@.health <= old(state)@.health,
            impacts as int == old(state)@.health - state@.health,
        decreases n - i,
    {
        let e = events[i];
        let qualifying = matches!(e.state, CollisionState::Begin) && (matches!(
            e.a,
            EntityKind::Player,
        ) || matches!(e.b, EntityKind::Player));
        proof {
            assert(events@.take(i as int + 1) =~= events@.take(i as int).push(events@[i as int]));
            lemma_hits_snoc(events@.take(i as int), events@[i as int]);
            lemma_hits_bounds(events@.take(i as int));
        }
        if qualifying && state.health_amount > 0 {
            state.health_amount = state.health_amount - 1;
            impacts = impacts + 1;
        }
        i = i + 1;
    }
    proof {
        assert(events@.take(n as int) =~= events@);
        crate::laws::lemma_collision_decrement(old(state)@, events@);
    }
    impacts
}

/// Everything one frame consumes from the host: elapsed time, held
/// keys, and the collision events drained since the last frame.
pub struct FrameInput {
    pub delta: i64,
    pub up: bool,
    pub w: bool,
    pub down: bool,
    pub s: bool,
    pub events: Vec<CollisionEvent>,
}

/// Everything one frame asks of the host: whether the game-over overlay
/// and jingle are due, how many impact effects to play, and the fresh
/// HUD text when health changed.
#[derive(Debug, PartialEq, Eq)]
pub struct FrameEffects {
    pub game_over: bool,
    pub impacts: u8,
    pub label: Option<String>,
}

/// One whole frame. At zero health it latches the loss flag, asks for
/// the game-over effects and leaves everything else untouched — checked
/// anew every frame, so a lost round stays frozen. Otherwise it resolves
/// input, moves the player, scrolls the world at the player's slowdown,
/// and resolves collisions into health loss. A scene without a player
/// is a broken setup and is reported, nothing mutated.
pub fn game_logic(state: &mut GameState, entities: &mut Vec<Entity>, input: &FrameInput) -> (r:
    Result<FrameEffects, GameError>)
    requires
        old(state)@.wf(),
        0 <= input.delta <= DELTA_LIMIT,
        -LEAN_LIMIT <= old(state).rotation <= LEAN_LIMIT,
        forall|i: int|
            0 <= i < old(entities)@.len() ==> {
                &&& -POS_LIMIT <= (#[trigger] old(entities)@[i]).x <= POS_LIMIT
                &&& -POS_LIMIT <= old(entities)@[i].y <= POS_LIMIT
            },
    ensures
        final(state)@.wf(),
        old(state)@.health == 0 ==> {
            &&& *final(state) == (GameState { lost: true, ..*old(state) })
            &&& final(entities)@ == old(entities)@
            &&& (r matches Ok(fx) && fx == (FrameEffects {
                game_over: true,
                impacts: 0,
                label: None,
            }))
        },
        old(state)@.health != 0 && !has_player(old(entities)@) ==> {
            &&& *final(state) == *old(state)
            &&& final(entities)@ == old(entities)@
            &&& r == Err::<FrameEffects, GameError>(GameError::PlayerMissing)
        },
        old(state)@.health != 0 && has_player(old(entities)@) ==> ({
            let s0 = old(state)@;
            let e0 = old(entities)@;
            let pi = player_index(e0);
            let y0 = e0[pi].y as int;
            let dir = direction_spec(input.up, input.w, input.down, input.s);
            exists|d: Draws|
                #[trigger] draws_ok(s0, y0, d) && ({
                    let mv = movement_next(s0, y0, dir, input.delta as int, d);
                    &&& final(state)@ == after_collisions(mv.state, hits(input.events@))
                    &&& (FrameModel {
                        state: final(state)@,
                        y: final(entities)@[pi].y as int,
                        tilt: final(entities)@[pi].tilt as int,
                    }) == frame_next(
                        FrameModel { state: s0, y: y0, tilt: e0[pi].tilt as int },
                        FrameStep {
                            up: input.up,
                            w: input.w,
                            down: input.down,
                            s: input.s,
                            delta: input.delta as int,
                            draws: d,
                            hits: hits(input.events@),
                        },
                    )
                    &&& final(entities)@.len() == e0.len()
                    &&& final(entities)@[pi] == (Entity {
                        y: mv.y as i64,
                        tilt: mv.tilt as i64,
                        ..e0[pi]
                    })
                    &&& (forall|i: int|
                        0 <= i < e0.len() && i != pi ==> scrolled_entity(
                            e0[i],
                            #[trigger] final(entities)@[i],
                            mv.state.slowdown,
                            input.delta as int,
                        ))
                    &&& (r matches Ok(fx) && {
                        &&& fx.game_over == false
                        &&& fx.impacts as int == mv.state.health - final(state)@.health
                        &&& (fx.impacts > 0 ==> (fx.label matches Some(l) && l@
                            == health_label_spec(final(state).health_amount)))
                        &&& (fx.impacts == 0 ==> fx.label is None)
                    })
                })
        }),
{
    if state.health_amount == 0 {
        state.lost = true;
        return Ok(FrameEffects { game_over: true, impacts: 0, label: None });
    }
    let pi: usize = match find_player(entities) {
        Some(i) => i,
        None => {
            return Err(GameError::PlayerMissing);
        },
    };
    let dir = determine_direction(input.up, input.w, input.down, input.s);
    player_movement(state, &mut entities[pi], dir, input.delta);
    let ghost mid_state = state@;
    let ghost mid_entities = entities@;
    process_objects(entities, state, input.delta);
    let impacts = update_health(state, &input.events);
    let label: Option<String> = if impacts > 0 {
        Some(health_label(state.health_amount))
    } else {
        None
    };
    proof {
        let s0 = old(state)@;
        let e0 = old(entities)@;
        assert(first_player_at(e0, pi as int));
        lemma_first_player_unique(e0, player_index(e0), pi as int);
        let y0 = e0[pi as int].y as int;
        let d = choose|d: Draws|
            #[trigger] draws_ok(s0, y0, d) && ({
                let m = movement_next(s0, y0, dir as int, input.delta as int, d);
                &&& mid_state == m.state
                &&& mid_entities[pi as int].y as int == m.y
                &&& mid_entities[pi as int].tilt as int == m.tilt
            });
        let mv = movement_next(s0, y0, dir as int, input.delta as int, d);
        assert(draws_ok(s0, y0, d));
        assert(scrolled_entity(
            mid_entities[pi as int],
            entities@[pi as int],
            mv.state.slowdown,
            input.delta as int,
        ));
        assert(entities@[pi as int] == (Entity { y: mv.y as i64, tilt: mv.tilt as i64, ..e0[
            pi as int] }));
        assert(forall|i: int|
            0 <= i < e0.len() && i != pi as int ==> mid_entities[i] == e0[i]);
    }
    Ok(FrameEffects { game_over: false, impacts, label })
}

} // verus!
