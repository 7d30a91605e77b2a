//! The modeled scene: entities with a tagged kind in place of the host
//! engine's string labels, and the setup that populates the scene once
//! at startup.

use vstd::prelude::*;
use crate::{
    UNIT, ROAD_MARKER_COUNT, ROAD_SPACING, ROAD_FIRST_X, SIDE_LINE_PITCH, SIDE_LINE_Y,
    OBSTACLE_COUNT, SPAWN_X_MIN, SPAWN_X_MAX, SPAWN_Y_MIN, SPAWN_Y_MAX, PLAYER_START_X,
    POS_LIMIT,
};
use crate::model::{spawn_x_ok, spawn_y_ok};
use crate::rng::rand_range;

verus! {

/// What an entity is, set at creation time.
#[derive(Clone, Copy, Debug, PartialEq, Eq, Structural)]
pub enum EntityKind {
    RoadLine,
    SideLineTop,
    SideLineBottom,
    Obstacle,
    Player,
}

/// A visual entity of the scene. Positions and tilt are fixed-point:
/// `x`, `y` in position steps (millionths of a unit), `tilt` and
/// `scale` in thousandths.
#[derive(Clone, Copy, Debug, PartialEq, Eq, Structural)]
pub struct Entity {
    pub kind: EntityKind,
    pub x: i64,
    pub y: i64,
    pub tilt: i64,
    pub scale: i64,
    pub layer: i64,
    pub collision: bool,
}

/// Begin or end of an overlap, as the host collision system reports it.
#[derive(Clone, Copy, Debug, PartialEq, Eq, Structural)]
pub enum CollisionState {
    Begin,
    End,
}

/// One collision notification: the kinds of the two sprites involved
/// and whether the overlap begins or ends.
#[derive(Clone, Copy, Debug, PartialEq, Eq, Structural)]
pub struct CollisionEvent {
    pub state: CollisionState,
    pub a: EntityKind,
    pub b: EntityKind,
}

/// A setup invariant was broken: the frame update found no player in
/// the scene it was handed.
#[derive(Clone, Copy, Debug, PartialEq, Eq, Structural)]
pub enum GameError {
    PlayerMissing,
}

/// The `i`-th road centerline marker as setup creates it.
pub open spec fn road_marker(i: int) -> Entity {
    Entity {
        kind: EntityKind::RoadLine,
        x: (ROAD_FIRST_X + i * ROAD_SPACING) as i64,
        y: 0,
        tilt: 0,
        scale: 100,
        layer: 0,
        collision: false,
    }
}

/// The `j`-th top or bottom side boundary line as setup creates it.
pub open spec fn side_line(j: int, top: bool) -> Entity {
    Entity {
        kind: if top { EntityKind::SideLineTop } else { EntityKind::SideLineBottom },
        x: (ROAD_FIRST_X + j * (SIDE_LINE_PITCH * UNIT)) as i64,
        y: if top { SIDE_LINE_Y } else { (-(SIDE_LINE_Y as int)) as i64 },
        tilt: 0,
        scale: 100,
        layer: 0,
        collision: false,
    }
}

/// The player as setup creates it: left of the strip, centered, on the
/// highest layer, colliding.
pub open spec fn player_start() -> Entity {
    Entity {
        kind: EntityKind::Player,
        x: PLAYER_START_X,
        y: 0,
        tilt: 0,
        scale: 1000,
        layer: 10,
        collision: true,
    }
}

/// What holds of an obstacle whenever it is (re)spawned: above the road
/// layer, colliding, placed inside the spawn box.
pub open spec fn obstacle_ok(e: Entity) -> bool {
    &&& e.kind is Obstacle
    &&& e.tilt == 0
    &&& e.scale == 500
    &&& e.layer == 5
    &&& e.collision == true
    &&& spawn_x_ok(e.x as int)
    &&& spawn_y_ok(e.y as int)
}

/// Whether an entity sits inside the positions the update functions
/// work on; everything setup creates does, by a wide margin.
pub open spec fn within_pos_limit(e: Entity) -> bool {
    &&& -POS_LIMIT <= e.x <= POS_LIMIT
    &&& -POS_LIMIT <= e.y <= POS_LIMIT
}

/// Whether some entity of the scene is the player.
pub open spec fn has_player(s: Seq<Entity>) -> bool {
    exists|i: int| 0 <= i < s.len() && (#[trigger] s[i].kind) is Player
}

/// `i` is the index of the first player of the scene.
pub open spec fn first_player_at(s: Seq<Entity>, i: int) -> bool {
    &&& 0 <= i < s.len()
    &&& s[i].kind is Player
    &&& forall|j: int| 0 <= j < i ==> !((#[trigger] s[j].kind) is Player)
}

/// The index of the first player of the scene, where one exists.
pub open spec fn player_index(s: Seq<Entity>) -> int {
    choose|i: int| first_player_at(s, i)
}

/// At most one index can hold the first player.
pub proof fn lemma_first_player_unique(s: Seq<Entity>, i: int, j: int)
    requires
        first_player_at(s, i),
        first_player_at(s, j),
    ensures
        i == j,
{
    if i < j {
        assert(!(s[i].kind is Player));
    } else if j < i {
        assert(!(s[j].kind is Player));
    }
}

/// How many side-line pairs a viewport of the given height gets: one
/// pair per `SIDE_LINE_PITCH` pixels.
pub open spec fn side_line_pairs(viewport_height: int) -> int {
    viewport_height / (SIDE_LINE_PITCH as int)
}

/// Creates the road strip: `ROAD_MARKER_COUNT` centerline markers
/// spaced `ROAD_SPACING` apart from `ROAD_FIRST_X`, then one top and
/// one bottom boundary line per `SIDE_LINE_PITCH` pixels of viewport
/// height.
pub fn create_road(viewport_height: i64) -> (r: Vec<Entity>)
    requires
        0 <= viewport_height <= 1_000_000,
    ensures
        r@.len() == ROAD_MARKER_COUNT as int + 2 * side_line_pairs(viewport_height as int),
        forall|i: int| 0 <= i < ROAD_MARKER_COUNT as int ==> #[trigger] r@[i] == road_marker(i),
        forall|j: int|
            0 <= j < side_line_pairs(viewport_height as int) ==> {
                &&& r@[ROAD_MARKER_COUNT as int + 2 * j] == #[trigger] side_line(j, true)
                &&& r@[ROAD_MARKER_COUNT as int + 2 * j + 1] == side_line(j, false)
            },
        forall|i: int| 0 <= i < r@.len() ==> !((#[trigger] r@[i].kind) is Player),
        forall|i: int| 0 <= i < r@.len() ==> within_pos_limit(#[trigger] r@[i]),
{
    let mut r: Vec<Entity> = Vec::new();
    let mut i: usize = 0;
    while i < ROAD_MARKER_COUNT
        invariant
            i <= ROAD_MARKER_COUNT,
            r@.len() == i as int,
            forall|k: int| 0 <= k < i as int ==> #[trigger] r@[k] == road_marker(k),
            forall|k: int| 0 <= k < r@.len() ==> !((#[trigger] r@[k].kind) is Player),
            forall|k: int| 0 <= k < r@.len() ==> within_pos_limit(#[trigger] r@[k]),
        decreases ROAD_MARKER_COUNT - i,
    {
        let x: i64 = ROAD_FIRST_X + (i as i64) * ROAD_SPACING;
        r.push(Entity {
            kind: EntityKind::RoadLine,
            x,
            y: 0,
            tilt: 0,
            scale: 100,
            layer: 0,
            collision: false,
        });
        i = i + 1;
    }
    let pairs: u64 = (viewport_height as u64) / (SIDE_LINE_PITCH as u64);
    proof {
        assert(pairs <= 47_620) by (nonlinear_arith)
            requires
                pairs == (viewport_height as u64) / 21,
                viewport_height as u64 <= 1_000_000,
        ;
    }
    let mut j: u64 = 0;
    while j < pairs
        invariant
            0 <= j <= pairs,
            pairs as int == side_line_pairs(viewport_height as int),
            pairs <= 47_620,
            r@.len() == ROAD_MARKER_COUNT as int + 2 * (j as int),
            forall|k: int| 0 <= k < ROAD_MARKER_COUNT as int ==> #[trigger] r@[k] == road_marker(k),
            forall|k: int|
                0 <= k < j as int ==> {
                    &&& r@[ROAD_MARKER_COUNT as int + 2 * k] == #[trigger] side_line(k, true)
                    &&& r@[ROAD_MARKER_COUNT as int + 2 * k + 1] == side_line(k, false)
                },
            forall|k: int| 0 <= k < r@.len() ==> !((#[trigger] r@[k].kind) is Player),
            forall|k: int| 0 <= k < r@.len() ==> within_pos_limit(#[trigger] r@[k]),
        decreases pairs - j,
    {
        let step: i64 = SIDE_LINE_PITCH * UNIT;
        proof {
            assert(0 <= (j as int) * (step as int) <= 47_620 * 21_000_000) by (nonlinear_arith)
                requires
                    0 <= j <= 47_620,
                    step == 21_000_000,
            ;
        }
        let x: i64 = ROAD_FIRST_X + (j as i64) * step;
        r.push(Entity {
            kind: EntityKind::SideLineTop,
            x,
            y: SIDE_LINE_Y,
            tilt: 0,
            scale: 100,
            layer: 0,
            collision: false,
        });
        r.push(Entity {
            kind: EntityKind::SideLineBottom,
            x,
            y: -SIDE_LINE_Y,
            tilt: 0,
            scale: 100,
            layer: 0,
            collision: false,
        });
        j = j + 1;
    }
    r
}

/// Creates the `OBSTACLE_COUNT` obstacles, each placed at a random spot
/// inside the spawn box.
pub fn generate_obstacles() -> (r: Vec<Entity>)
    ensures
        r@.len() == OBSTACLE_COUNT as int,
        forall|i: int| 0 <= i < OBSTACLE_COUNT as int ==> obstacle_ok(#[trigger] r@[i]),
        forall|i: int| 0 <= i < r@.len() ==> within_pos_limit(#[trigger] r@[i]),
{
    let mut r: Vec<Entity> = Vec::new();
    let mut i: usize = 0;
    while i < OBSTACLE_COUNT
        invariant
            i <= OBSTACLE_COUNT,
            r@.len() == i as int,
            forall|k: int| 0 <= k < i as int ==> obstacle_ok(#[trigger] r@[k]),
            forall|k: int| 0 <= k < r@.len() ==> within_pos_limit(#[trigger] r@[k]),
        decreases OBSTACLE_COUNT - i,
    {
        let x = rand_range(SPAWN_X_MIN, SPAWN_X_MAX);
        let y = rand_range(SPAWN_Y_MIN, SPAWN_Y_MAX);
        r.push(Entity {
            kind: EntityKind::Obstacle,
            x,
            y,
            tilt: 0,
            scale: 500,
            layer: 5,
            collision: true,
        });
        i = i + 1;
    }
    r
}

/// Creates the player entity.
pub fn create_player() -> (r: Entity)
    ensures
        r == player_start(),
{
    Entity {
        kind: EntityKind::Player,
        x: PLAYER_START_X,
        y: 0,
        tilt: 0,
        scale: 1000,
        layer: 10,
        collision: true,
    }
}

/// Builds the whole initial scene: road strip, obstacles, player last.
pub fn setup_world(viewport_height: i64) -> (r: Vec<Entity>)
    requires
        0 <= viewport_height <= 1_000_000,
    ensures
        r@.len() == ROAD_MARKER_COUNT as int + 2 * side_line_pairs(viewport_height as int)
            + OBSTACLE_COUNT as int + 1,
        forall|i: int| 0 <= i < ROAD_MARKER_COUNT as int ==> #[trigger] r@[i] == road_marker(i),
        forall|j: int|
            0 <= j < side_line_pairs(viewport_height as int) ==> {
                &&& r@[ROAD_MARKER_COUNT as int + 2 * j] == #[trigger] side_line(j, true)
                &&& r@[ROAD_MARKER_COUNT as int + 2 * j + 1] == side_line(j, false)
            },
        forall|i: int|
            r@.len() - 1 - OBSTACLE_COUNT as int <= i < r@.len() - 1 ==> obstacle_ok(
                #[trigger] r@[i],
            ),
        r@[r@.len() - 1] == player_start(),
        first_player_at(r@, r@.len() - 1),
        has_player(r@),
        forall|i: int| 0 <= i < r@.len() ==> within_pos_limit(#[trigger] r@[i]),
{
    let mut r = create_road(viewport_height);
    let ghost road_part = r@;
    let obstacles = generate_obstacles();
    let base = r.len();
    let mut k: usize = 0;
    while k < OBSTACLE_COUNT
        invariant
            k <= OBSTACLE_COUNT,
            obstacles@.len() == OBSTACLE_COUNT as int,
            forall|t: int| 0 <= t < OBSTACLE_COUNT as int ==> obstacle_ok(#[trigger] obstacles@[t]),
            base as int == road_part.len(),
            r@.len() == base as int + k as int,
            forall|t: int| 0 <= t < base as int ==> #[trigger] r@[t] == road_part[t],
            forall|t: int| base as int <= t < base as int + k as int ==> obstacle_ok(
                #[trigger] r@[t],
            ),
            forall|t: int| 0 <= t < road_part.len() ==> !((#[trigger] road_part[t].kind) is Player),
            forall|t: int| 0 <= t < r@.len() ==> !((#[trigger] r@[t].kind) is Player),
            forall|t: int| 0 <= t < OBSTACLE_COUNT as int ==> within_pos_limit(
                #[trigger] obstacles@[t],
            ),
            forall|t: int| 0 <= t < r@.len() ==> within_pos_limit(#[trigger] r@[t]),
        decreases OBSTACLE_COUNT - k,
    {
        r.push(obstacles[k]);
        k = k + 1;
    }
    r.push(create_player());
    proof {
        assert(r@[r@.len() - 1].kind is Player);
    }
    r
}

/// Finds the player: the first entity whose kind is `Player`, or `None`
/// when setup did not run.
pub fn find_player(entities: &Vec<Entity>) -> (r: Option<usize>)
    ensures
        match r {
            Some(i) => first_player_at(entities@, i as int),
            None => !has_player(entities@),
        },
{
    let mut i: usize = 0;
    while i < entities.len()
        invariant
            i <= entities@.len(),
            forall|j: int| 0 <= j < i as int ==> !((#[trigger] entities@[j].kind) is Player),
        decreases entities@.len() - i,
    {
        if matches!(entities[i].kind, EntityKind::Player) {
            return Some(i);
        }
        i = i + 1;
    }
    None
}

} // verus!
