//! The player avatar: axis-independent movement against collider tiles,
//! camera tracking, and the encounter cooldown that turns time spent moving
//! over encounter-zone tiles into combat transitions.
//!
//! Each tick, the two axis displacements are resolved independently: the x
//! candidate is tested against every collider tile first and committed when
//! free, then the y candidate is tested from the position the x resolution
//! produced. Moving into a wall along one axis therefore never suppresses a
//! valid displacement along the other (sliding along walls).

use vstd::prelude::*;

use crate::combat::CombatStats;
use crate::tilemap::{tile_world_x, tile_world_y, Tile, TileMap};
use crate::timer::{Timer, TimerMode};
use crate::{TILE_SIZE, TIME_SCALE};

verus! {

/// Movement speed of the player, in tiles per time unit.
pub const PLAYER_SPEED: i64 = 3;

/// Half the player's collision box: the hitbox is 90% of a tile, slightly
/// shrunk so the avatar slips through tile-wide gaps.
pub const PLAYER_HALF: i64 = 45;

/// Half a wall tile's collision box: walls fill their whole tile.
pub const TILE_HALF: i64 = 50;

/// A position in fixed-point world coordinates.
#[derive(Clone, Copy, Debug, PartialEq, Eq, Structural)]
pub struct Pos {
    pub x: i64,
    pub y: i64,
}

/// The player avatar: its position, movement speed, the flag that records
/// whether the last tick actually changed its position on some axis, and
/// the aggregate visibility flag.
#[derive(Clone, Copy, Debug)]
pub struct Player {
    pub pos: Pos,
    pub speed: i64,
    pub just_moved: bool,
    pub visible: bool,
}

impl Player {
    pub open spec fn wf(self) -> bool {
        self.speed >= 0
    }
}

/// The camera; it tracks the player exactly in the overworld and is pinned
/// to the origin during combat.
#[derive(Clone, Copy, Debug, PartialEq, Eq, Structural)]
pub struct Camera {
    pub x: i64,
    pub y: i64,
}

/// The directional input of one tick; opposite keys pressed together cancel.
#[derive(Clone, Copy, Debug, PartialEq, Eq, Structural)]
pub struct MoveInput {
    pub up: bool,
    pub down: bool,
    pub left: bool,
    pub right: bool,
}

/// Strict axis-aligned overlap of the player's shrunk box centered at
/// `(px, py)` with a full tile box centered at `(wx, wy)`: the boxes
/// intersect on both axes, touching edges not included.
pub open spec fn player_box_overlap(px: int, py: int, wx: int, wy: int) -> bool {
    &&& wx - (PLAYER_HALF + TILE_HALF) < px < wx + (PLAYER_HALF + TILE_HALF)
    &&& wy - (PLAYER_HALF + TILE_HALF) < py < wy + (PLAYER_HALF + TILE_HALF)
}

/// Whether a player box at `(px, py)` overlaps some collider tile.
pub open spec fn hits_wall(tiles: Seq<Tile>, px: int, py: int) -> bool {
    exists|i: int|
        0 <= i < tiles.len() && (#[trigger] tiles[i]).collider && player_box_overlap(
            px,
            py,
            tile_world_x(tiles[i]),
            tile_world_y(tiles[i]),
        )
}

/// Whether a player box at `(px, py)` overlaps some encounter-zone tile.
pub open spec fn on_encounter_zone(tiles: Seq<Tile>, px: int, py: int) -> bool {
    exists|i: int|
        0 <= i < tiles.len() && (#[trigger] tiles[i]).encounter && player_box_overlap(
            px,
            py,
            tile_world_x(tiles[i]),
            tile_world_y(tiles[i]),
        )
}

/// The length of one tick's displacement along a pressed axis:
/// `speed * TILE_SIZE * delta / TIME_SCALE` fixed-point coordinate steps.
pub open spec fn move_step(speed: int, delta: int) -> int {
    speed * TILE_SIZE * delta / (TIME_SCALE as int)
}

/// The x displacement the input asks for: right minus left.
pub open spec fn x_delta(inp: MoveInput, step: int) -> int {
    (if inp.right {
        step
    } else {
        0
    }) - (if inp.left {
        step
    } else {
        0
    })
}

/// The y displacement the input asks for: up minus down.
pub open spec fn y_delta(inp: MoveInput, step: int) -> int {
    (if inp.up {
        step
    } else {
        0
    }) - (if inp.down {
        step
    } else {
        0
    })
}

/// The player after one movement tick: each axis commits independently
/// exactly when its candidate position is wall-free, and `just_moved` holds
/// exactly when some axis committed a nonzero displacement.
pub open spec fn move_result(p: Player, tiles: Seq<Tile>, inp: MoveInput, delta: u64) -> Player {
    let step = move_step(p.speed as int, delta as int);
    let dx = x_delta(inp, step);
    let dy = y_delta(inp, step);
    let x_free = !hits_wall(tiles, p.pos.x + dx, p.pos.y as int);
    let x1 = if x_free {
        p.pos.x + dx
    } else {
        p.pos.x as int
    };
    let y_free = !hits_wall(tiles, x1, p.pos.y + dy);
    let y1 = if y_free {
        p.pos.y + dy
    } else {
        p.pos.y as int
    };
    Player {
        pos: Pos { x: x1 as i64, y: y1 as i64 },
        just_moved: (x_free && dx != 0) || (y_free && dy != 0),
        ..p
    }
}

/// Law: collision is resolved per axis, independently. If the x candidate
/// runs into a wall while the y candidate — tested from the x position that
/// resolution left, here the unchanged one — is free, the y displacement
/// still commits, and the other way around: a blocked or absent y never
/// affects the x resolution at all.
pub proof fn lemma_axis_independent_collision(
    p: Player,
    tiles: Seq<Tile>,
    inp: MoveInput,
    delta: u64,
)
    requires
        p.wf(),
        i64::MIN <= p.pos.x - move_step(p.speed as int, delta as int),
        p.pos.x + move_step(p.speed as int, delta as int) <= i64::MAX,
        i64::MIN <= p.pos.y - move_step(p.speed as int, delta as int),
        p.pos.y + move_step(p.speed as int, delta as int) <= i64::MAX,
    ensures
        ({
            let step = move_step(p.speed as int, delta as int);
            let r = move_result(p, tiles, inp, delta);
            &&& (hits_wall(tiles, p.pos.x + x_delta(inp, step), p.pos.y as int) && !hits_wall(
                tiles,
                p.pos.x as int,
                p.pos.y + y_delta(inp, step),
            )) ==> r.pos.y == p.pos.y + y_delta(inp, step) && r.pos.x == p.pos.x
            &&& !hits_wall(tiles, p.pos.x + x_delta(inp, step), p.pos.y as int) ==> r.pos.x
                == p.pos.x + x_delta(inp, step)
        }),
{
    let step = move_step(p.speed as int, delta as int);
    assert(p.speed * TILE_SIZE * delta >= 0) by (nonlinear_arith)
        requires
            p.speed >= 0,
            delta >= 0,
            TILE_SIZE > 0,
    ;
    assert(step >= 0) by (nonlinear_arith)
        requires
            p.speed * TILE_SIZE * delta >= 0,
            TIME_SCALE > 0,
            step == p.speed * TILE_SIZE * delta / (TIME_SCALE as int),
    ;
}

/// Law: `just_moved` is false whenever both axis displacements were blocked,
/// even if input was pressed.
pub proof fn lemma_blocked_means_no_move(p: Player, tiles: Seq<Tile>, inp: MoveInput, delta: u64)
    requires
        hits_wall(
            tiles,
            p.pos.x + x_delta(inp, move_step(p.speed as int, delta as int)),
            p.pos.y as int,
        ),
        hits_wall(
            tiles,
            p.pos.x as int,
            p.pos.y + y_delta(inp, move_step(p.speed as int, delta as int)),
        ),
    ensures
        !move_result(p, tiles, inp, delta).just_moved,
        move_result(p, tiles, inp, delta).pos == p.pos,
{
}

/// Whether the player box at `target` overlaps the full tile box of a wall
/// at `wall`, by strict axis-aligned bounding-box overlap.
pub fn wall_collision_check(target: Pos, wall: Pos) -> (hit: bool)
    ensures
        hit == player_box_overlap(target.x as int, target.y as int, wall.x as int, wall.y as int),
{
    let px = target.x as i128;
    let py = target.y as i128;
    let wx = wall.x as i128;
    let wy = wall.y as i128;
    let reach = (PLAYER_HALF + TILE_HALF) as i128;
    wx - reach < px && px < wx + reach && wy - reach < py && py < wy + reach
}

/// Whether the player box at `(px, py)` overlaps any collider tile of the
/// map.
pub fn collides_with_wall(map: &TileMap, px: i64, py: i64) -> (hit: bool)
    requires
        map.wf(),
    ensures
        hit == hits_wall(map.tiles@, px as int, py as int),
{
    let mut i: usize = 0;
    while i < map.tiles.len()
        invariant
            map.wf(),
            i <= map.tiles@.len(),
            forall|j: int|
                0 <= j < i ==> !((#[trigger] map.tiles@[j]).collider && player_box_overlap(
                    px as int,
                    py as int,
                    tile_world_x(map.tiles@[j]),
                    tile_world_y(map.tiles@[j]),
                )),
        decreases map.tiles@.len() - i,
    {
        let t = map.tiles[i];
        if t.collider {
            let wall = Pos { x: (t.x as i64) * TILE_SIZE, y: -((t.y as i64) * TILE_SIZE) };
            if wall_collision_check(Pos { x: px, y: py }, wall) {
                return true;
            }
        }
        i = i + 1;
    }
    false
}

/// Whether the player box at `(px, py)` overlaps any encounter-zone tile of
/// the map.
pub fn over_encounter_zone(map: &TileMap, px: i64, py: i64) -> (over: bool)
    requires
        map.wf(),
    ensures
        over == on_encounter_zone(map.tiles@, px as int, py as int),
{
    let mut i: usize = 0;
    while i < map.tiles.len()
        invariant
            map.wf(),
            i <= map.tiles@.len(),
            forall|j: int|
                0 <= j < i ==> !((#[trigger] map.tiles@[j]).encounter && player_box_overlap(
                    px as int,
                    py as int,
                    tile_world_x(map.tiles@[j]),
                    tile_world_y(map.tiles@[j]),
                )),
        decreases map.tiles@.len() - i,
    {
        let t = map.tiles[i];
        if t.encounter {
            let zone = Pos { x: (t.x as i64) * TILE_SIZE, y: -((t.y as i64) * TILE_SIZE) };
            if wall_collision_check(Pos { x: px, y: py }, zone) {
                return true;
            }
        }
        i = i + 1;
    }
    false
}

/// One movement tick: read the directional input, resolve each axis
/// independently against the collider tiles, and record in `just_moved`
/// whether any axis actually changed the position.
pub fn player_movement(player: &mut Player, map: &TileMap, inp: MoveInput, delta: u64)
    requires
        old(player).wf(),
        map.wf(),
        old(player).speed * TILE_SIZE * delta <= i64::MAX,
        i64::MIN <= old(player).pos.x - move_step(old(player).speed as int, delta as int),
        old(player).pos.x + move_step(old(player).speed as int, delta as int) <= i64::MAX,
        i64::MIN <= old(player).pos.y - move_step(old(player).speed as int, delta as int),
        old(player).pos.y + move_step(old(player).speed as int, delta as int) <= i64::MAX,
    ensures
        *final(player) == move_result(*old(player), map.tiles@, inp, delta),
        final(player).wf(),
{
    player.just_moved = false;

    let step = (((player.speed as i128) * (TILE_SIZE as i128) * (delta as i128)) / (
    TIME_SCALE as i128)) as i64;

    let mut dx: i64 = 0;
    if inp.right {
        dx = dx + step;
    }
    if inp.left {
        dx = dx - step;
    }
    let mut dy: i64 = 0;
    if inp.up {
        dy = dy + step;
    }
    if inp.down {
        dy = dy - step;
    }

    let target_x = player.pos.x + dx;
    if !collides_with_wall(map, target_x, player.pos.y) {
        player.pos.x = target_x;
        if dx != 0 {
            player.just_moved = true;
        }
    }

    let target_y = player.pos.y + dy;
    if !collides_with_wall(map, player.pos.x, target_y) {
        player.pos.y = target_y;
        if dy != 0 {
            player.just_moved = true;
        }
    }
}

/// Set the camera to exactly the player's position, with no smoothing.
pub fn camera_follow(player: &Player, camera: &mut Camera)
    ensures
        *final(camera) == (Camera { x: player.pos.x, y: player.pos.y }),
{
    camera.x = player.pos.x;
    camera.y = player.pos.y;
}

/// The cooldown that paces encounters: a repeating timer that only advances
/// while the player is actually moving over an encounter zone.
#[derive(Clone, Copy, Debug)]
pub struct EncounterTracker {
    pub timer: Timer,
}

impl EncounterTracker {
    pub open spec fn wf(self) -> bool {
        &&& self.timer.wf()
        &&& self.timer.mode == TimerMode::Repeating
    }
}

/// The tracker after one tick: its timer advances exactly when the player
/// both just moved and stands over an encounter zone; otherwise the tracker
/// is unchanged and no cooldown time leaks.
pub open spec fn encounter_tracker_result(
    tr: EncounterTracker,
    p: Player,
    tiles: Seq<Tile>,
    delta: u64,
) -> EncounterTracker {
    if p.just_moved && on_encounter_zone(tiles, p.pos.x as int, p.pos.y as int) {
        EncounterTracker { timer: tr.timer.spec_tick(delta) }
    } else {
        tr
    }
}

/// Whether one tick completes the cooldown and so triggers a combat
/// transition: only possible on a tick where the timer advanced.
pub open spec fn encounter_triggers(
    tr: EncounterTracker,
    p: Player,
    tiles: Seq<Tile>,
    delta: u64,
) -> bool {
    &&& p.just_moved
    &&& on_encounter_zone(tiles, p.pos.x as int, p.pos.y as int)
    &&& tr.timer.spec_tick_finished(delta)
}

/// Law: the encounter cooldown does not advance — and cannot fire — on a
/// tick where the player did not actually move or is not overlapping an
/// encounter zone, even if the timer was mid-cycle from a previous overlap.
pub proof fn lemma_cooldown_frozen_off_zone(
    tr: EncounterTracker,
    p: Player,
    tiles: Seq<Tile>,
    delta: u64,
)
    requires
        !(p.just_moved && on_encounter_zone(tiles, p.pos.x as int, p.pos.y as int)),
    ensures
        encounter_tracker_result(tr, p, tiles, delta) == tr,
        !encounter_triggers(tr, p, tiles, delta),
{
}

/// One encounter-check tick, run after movement: if the player just moved
/// onto or across an encounter zone, advance the cooldown by the elapsed
/// time; when the cooldown completes a cycle, request the combat
/// transition. On any other tick the cooldown does not advance.
pub fn player_encounter_checking(
    player: &Player,
    map: &TileMap,
    tracker: &mut EncounterTracker,
    delta: u64,
) -> (trigger_combat: bool)
    requires
        map.wf(),
        old(tracker).wf(),
        old(tracker).timer.elapsed + delta <= u64::MAX,
    ensures
        *final(tracker) == encounter_tracker_result(*old(tracker), *player, map.tiles@, delta),
        trigger_combat == encounter_triggers(*old(tracker), *player, map.tiles@, delta),
        final(tracker).wf(),
{
    if player.just_moved && over_encounter_zone(map, player.pos.x, player.pos.y) {
        tracker.timer.tick(delta)
    } else {
        false
    }
}

/// The freshly spawned player: two tiles right and two below the map
/// origin, three tiles per time unit of speed, not yet moved, visible,
/// with its baseline combat stats and a one-time-unit repeating encounter
/// cooldown.
pub fn spawn_player() -> (spawned: (Player, CombatStats, EncounterTracker))
    ensures
        spawned.0 == (Player {
            pos: Pos { x: (2 * TILE_SIZE) as i64, y: (-2 * TILE_SIZE) as i64 },
            speed: PLAYER_SPEED,
            just_moved: false,
            visible: true,
        }),
        spawned.1 == (CombatStats { health: 10, max_health: 10, attack: 2, defense: 1 }),
        spawned.2 == (EncounterTracker {
            timer: Timer { duration: TIME_SCALE, elapsed: 0, mode: TimerMode::Repeating },
        }),
        spawned.0.wf(),
        spawned.1.wf(),
        spawned.2.wf(),
{
    let player = Player {
        pos: Pos { x: 2 * TILE_SIZE, y: -2 * TILE_SIZE },
        speed: PLAYER_SPEED,
        just_moved: false,
        visible: true,
    };
    let stats = CombatStats { health: 10, max_health: 10, attack: 2, defense: 1 };
    let tracker = EncounterTracker { timer: Timer::new(TIME_SCALE, TimerMode::Repeating) };
    (player, stats, tracker)
}

/// Hide the player aggregate and everything attached to it.
pub fn hide_player(player: &mut Player)
    ensures
        *final(player) == (Player { visible: false, ..*old(player) }),
{
    player.visible = false;
}

/// Show the player aggregate and everything attached to it.
pub fn show_player(player: &mut Player)
    ensures
        *final(player) == (Player { visible: true, ..*old(player) }),
{
    player.visible = true;
}

} // verus!
