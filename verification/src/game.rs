//! The whole game world and its tick pipeline. One tick runs, in order: the
//! fade system (which alone may flip the global mode, and fires the
//! enter/exit work of a flip), then the current mode's systems — movement,
//! encounter checking and camera tracking in the overworld; attack input,
//! damage resolution, the combat camera and the debug force-exit in combat.
//! Movement always resolves before the encounter check and the camera read
//! the new position.
//!
//! At most one fade is in flight at a time: a transition already under way
//! is never interrupted, and further transition requests while it runs are
//! dropped.

use vstd::prelude::*;

use crate::combat::{
    combat_input, damage_calculation, fade_requests_after_events, spawn_enemy,
    stats_after_events, CombatStats, Enemy, FightEvent, ENEMY_ATTACK, ENEMY_DEFENSE, ENEMY_HEALTH,
};
use crate::fadeout::{
    create_fadeout, fade_despawns, fade_flips, fade_result, fadeout, ScreenFade, FADE_DURATION,
};
use crate::player::{
    camera_follow, encounter_tracker_result, encounter_triggers, hide_player, move_result,
    move_step, player_encounter_checking, player_movement, show_player, Camera, EncounterTracker,
    MoveInput, Player, Pos,
};
use crate::tilemap::{create_simple_map, hide_map, map_tiles, show_map, Tile, TileMap};
use crate::timer::{Timer, TimerMode};
use crate::{GameState, TILE_SIZE};

verus! {

/// Everything the game reads from the input surface on one tick: the held
/// directional keys, and the just-pressed attack and force-exit keys.
#[derive(Clone, Copy, Debug, PartialEq, Eq, Structural)]
pub struct InputState {
    pub movement: MoveInput,
    pub attack_just_pressed: bool,
    pub exit_just_pressed: bool,
}

/// A mathematical snapshot of the whole game world; `Game`'s view.
#[verifier::ext_equal]
pub ghost struct GameView {
    pub state: GameState,
    pub player: Player,
    pub player_stats: CombatStats,
    pub tracker: EncounterTracker,
    pub tiles: Seq<Tile>,
    pub map_visible: bool,
    pub camera: Camera,
    pub fade: Option<ScreenFade>,
    pub enemy: Option<Enemy>,
    pub next_entity_id: u64,
}

/// The tiles of a map aggregate after setting its visibility recursively.
pub open spec fn tiles_with_visibility(tiles: Seq<Tile>, visible: bool) -> Seq<Tile> {
    tiles.map_values(|t: Tile| Tile { visible, ..t })
}

/// A freshly spawned fade toward `next_state`.
pub open spec fn fresh_fade(next_state: GameState) -> ScreenFade {
    ScreenFade {
        alpha: 0,
        sent: false,
        next_state,
        timer: Timer { duration: FADE_DURATION, elapsed: 0, mode: TimerMode::Once },
    }
}

/// The enemy spawned on entry to combat, under the given entity identity.
pub open spec fn fresh_enemy(id: u64) -> Enemy {
    Enemy {
        id,
        stats: CombatStats {
            health: ENEMY_HEALTH,
            max_health: ENEMY_HEALTH,
            attack: ENEMY_ATTACK,
            defense: ENEMY_DEFENSE,
        },
        visible: true,
    }
}

/// Entering combat: the overworld aggregates are hidden and exactly one
/// enemy is spawned.
pub open spec fn enter_combat(g: GameView) -> GameView {
    GameView {
        state: GameState::Combat,
        player: Player { visible: false, ..g.player },
        tiles: tiles_with_visibility(g.tiles, false),
        map_visible: false,
        enemy: Some(fresh_enemy(g.next_entity_id)),
        next_entity_id: (g.next_entity_id + 1) as u64,
        ..g
    }
}

/// Leaving combat: the enemy and everything attached to it are destroyed
/// unconditionally, and the overworld aggregates become visible again.
pub open spec fn exit_combat(g: GameView) -> GameView {
    GameView {
        state: GameState::Overworld,
        player: Player { visible: true, ..g.player },
        tiles: tiles_with_visibility(g.tiles, true),
        map_visible: true,
        enemy: None,
        ..g
    }
}

/// The fade phase of a tick: an active fade advances; on the tick it first
/// reaches its midpoint it flips the global state — running the enter/exit
/// work when the target differs from the current state — and when its
/// countdown completes, the fade entity is destroyed.
pub open spec fn fade_phase(g: GameView, delta: u64) -> GameView {
    match g.fade {
        None => g,
        Some(f) => {
            let g1 = if fade_flips(f, delta) && f.next_state != g.state {
                if f.next_state == GameState::Combat {
                    enter_combat(g)
                } else {
                    exit_combat(g)
                }
            } else {
                g
            };
            GameView {
                fade: if fade_despawns(f, delta) {
                    None
                } else {
                    Some(fade_result(f, delta))
                },
                ..g1
            }
        },
    }
}

/// The overworld systems of a tick: movement resolves first, then the
/// encounter check and the camera read the updated position. A completed
/// encounter cooldown requests a fade into combat, unless a transition is
/// already in flight.
pub open spec fn overworld_phase(g: GameView, input: InputState, delta: u64) -> GameView {
    let moved = move_result(g.player, g.tiles, input.movement, delta);
    let ticked = encounter_tracker_result(g.tracker, moved, g.tiles, delta);
    let trigger = encounter_triggers(g.tracker, moved, g.tiles, delta);
    GameView {
        player: moved,
        tracker: ticked,
        camera: Camera { x: moved.pos.x, y: moved.pos.y },
        fade: if trigger && g.fade is None {
            Some(fresh_fade(GameState::Combat))
        } else {
            g.fade
        },
        ..g
    }
}

/// The queued fight events of one combat tick: one per attack press,
/// carrying the player's attack stat against the enemy.
pub open spec fn combat_events(g: GameView, input: InputState, id: u64) -> Seq<FightEvent> {
    if input.attack_just_pressed {
        seq![FightEvent { target: id, damage_amount: g.player_stats.attack }]
    } else {
        Seq::empty()
    }
}

/// The combat systems of a tick: the attack input queues a fight event, the
/// damage step drains the queue against the enemy, the camera pins to the
/// origin, and a kill or the debug force-exit key requests a fade back to
/// the overworld, unless a transition is already in flight.
pub open spec fn combat_phase(g: GameView, input: InputState) -> GameView {
    match g.enemy {
        None => GameView { camera: Camera { x: 0, y: 0 }, ..g },
        Some(e) => {
            let evs = combat_events(g, input, e.id);
            let e1 = Enemy { stats: stats_after_events(e.stats, evs, evs.len() as int), ..e };
            let kill_requests = fade_requests_after_events(e.stats, evs, evs.len() as int);
            GameView {
                enemy: Some(e1),
                camera: Camera { x: 0, y: 0 },
                fade: if (kill_requests > 0 || input.exit_just_pressed) && g.fade is None {
                    Some(fresh_fade(GameState::Overworld))
                } else {
                    g.fade
                },
                ..g
            }
        },
    }
}

/// One whole tick: the fade phase, then the systems of whatever mode the
/// world is in afterwards.
pub open spec fn game_tick(g: GameView, input: InputState, delta: u64) -> GameView {
    let g1 = fade_phase(g, delta);
    if g1.state == GameState::Overworld {
        overworld_phase(g1, input, delta)
    } else {
        combat_phase(g1, input)
    }
}

/// Law: the global mode is never flipped directly. A tick changes it if
/// and only if a fade already in flight first reaches its midpoint on this
/// tick with a target other than the current mode — and then it changes to
/// exactly that target.
pub proof fn lemma_state_changes_only_via_fade(g: GameView, input: InputState, delta: u64)
    ensures
        game_tick(g, input, delta).state != g.state <==> match g.fade {
            Some(f) => fade_flips(f, delta) && f.next_state != g.state,
            None => false,
        },
        game_tick(g, input, delta).state != g.state ==> game_tick(g, input, delta).state
            == g.fade->Some_0.next_state,
{
}

/// The whole game world: the global mode, the one player and its stats and
/// encounter cooldown, the tile map, the camera, the at-most-one fade in
/// flight, the at-most-one enemy, and the id the next spawned entity gets.
#[derive(Debug)]
pub struct Game {
    pub state: GameState,
    pub player: Player,
    pub player_stats: CombatStats,
    pub tracker: EncounterTracker,
    pub map: TileMap,
    pub camera: Camera,
    pub fade: Option<ScreenFade>,
    pub enemy: Option<Enemy>,
    pub next_entity_id: u64,
}

impl View for Game {
    type V = GameView;

    open spec fn view(&self) -> GameView {
        GameView {
            state: self.state,
            player: self.player,
            player_stats: self.player_stats,
            tracker: self.tracker,
            tiles: self.map.tiles@,
            map_visible: self.map.visible,
            camera: self.camera,
            fade: self.fade,
            enemy: self.enemy,
            next_entity_id: self.next_entity_id,
        }
    }
}

impl Game {
    /// The world invariant: every part is well formed, and there is an
    /// enemy exactly while the world is in combat.
    pub open spec fn wf(self) -> bool {
        &&& self.player.wf()
        &&& self.player_stats.wf()
        &&& self.tracker.wf()
        &&& self.map.wf()
        &&& match self.fade {
            Some(f) => f.wf(),
            None => true,
        }
        &&& match self.enemy {
            Some(e) => e.stats.wf(),
            None => true,
        }
        &&& (self.enemy is Some <==> self.state == GameState::Combat)
    }

    /// Start a fresh game in the overworld: the player at its spawn point,
    /// the map parsed from its text description, the camera at the origin,
    /// no fade and no enemy.
    pub fn new(rows: &Vec<String>) -> (g: Game)
        requires
            rows@.len() <= crate::tilemap::MAX_GRID,
            forall|r: int|
                0 <= r < rows@.len() ==> (#[trigger] rows@[r])@.len() <= crate::tilemap::MAX_GRID,
        ensures
            g.wf(),
            g.state == GameState::Overworld,
            g.player == (Player {
                pos: Pos { x: (2 * TILE_SIZE) as i64, y: (-2 * TILE_SIZE) as i64 },
                speed: crate::player::PLAYER_SPEED,
                just_moved: false,
                visible: true,
            }),
            g.player_stats == (CombatStats { health: 10, max_health: 10, attack: 2, defense: 1 }),
            g.tracker.timer == (Timer {
                duration: crate::TIME_SCALE,
                elapsed: 0,
                mode: TimerMode::Repeating,
            }),
            g.map.tiles@ == map_tiles(rows@, rows@.len() as int),
            g.map.visible,
            g.camera == (Camera { x: 0, y: 0 }),
            g.fade is None,
            g.enemy is None,
            g.next_entity_id == 0,
    {
        let (player, player_stats, tracker) = crate::player::spawn_player();
        let map = create_simple_map(rows);
        Game {
            state: GameState::Overworld,
            player,
            player_stats,
            tracker,
            map,
            camera: Camera { x: 0, y: 0 },
            fade: None,
            enemy: None,
            next_entity_id: 0,
        }
    }

    /// Run one tick of the pipeline against this tick's input and elapsed
    /// clock ticks. The world after the call is exactly `game_tick` of the
    /// world before it.
    pub fn tick(&mut self, input: InputState, delta: u64)
        requires
            old(self).wf(),
            old(self).tracker.timer.elapsed + delta <= u64::MAX,
            match old(self).fade {
                Some(f) => f.timer.elapsed + delta <= u64::MAX,
                None => true,
            },
            old(self).next_entity_id < u64::MAX,
            old(self).player.speed * TILE_SIZE * delta <= i64::MAX,
            i64::MIN <= old(self).player.pos.x - move_step(
                old(self).player.speed as int,
                delta as int,
            ),
            old(self).player.pos.x + move_step(old(self).player.speed as int, delta as int)
                <= i64::MAX,
            i64::MIN <= old(self).player.pos.y - move_step(
                old(self).player.speed as int,
                delta as int,
            ),
            old(self).player.pos.y + move_step(old(self).player.speed as int, delta as int)
                <= i64::MAX,
        ensures
            final(self)@ == game_tick(old(self)@, input, delta),
            final(self).wf(),
    {
        let ghost g0 = self@;

        // Fade phase: the one system that may flip the global state.
        if let Some(mut f) = self.fade {
            let prev_state = self.state;
            let despawn = fadeout(&mut f, &mut self.state, delta);
            self.fade = if despawn {
                None
            } else {
                Some(f)
            };
            if self.state != prev_state {
                match self.state {
                    GameState::Combat => {
                        hide_player(&mut self.player);
                        hide_map(&mut self.map);
                        self.enemy = Some(spawn_enemy(self.next_entity_id));
                        self.next_entity_id = self.next_entity_id + 1;
                    },
                    GameState::Overworld => {
                        self.enemy = None;
                        show_player(&mut self.player);
                        show_map(&mut self.map);
                    },
                }
            }
            proof {
                assert(self@.tiles =~= fade_phase(g0, delta).tiles);
                assert(self@ =~= fade_phase(g0, delta));
            }
        }
        let ghost g1 = fade_phase(g0, delta);

        match self.state {
            GameState::Overworld => {
                player_movement(&mut self.player, &self.map, input.movement, delta);
                let trigger = player_encounter_checking(
                    &self.player,
                    &self.map,
                    &mut self.tracker,
                    delta,
                );
                camera_follow(&self.player, &mut self.camera);
                if trigger && self.fade.is_none() {
                    self.fade = Some(create_fadeout(GameState::Combat));
                }
                proof {
                    assert(self@ =~= overworld_phase(g1, input, delta));
                }
            },
            GameState::Combat => {
                let mut events: Vec<FightEvent> = Vec::new();
                if let Some(e) = &self.enemy {
                    if let Some(ev) = combat_input(
                        input.attack_just_pressed,
                        &self.player_stats,
                        e.id,
                    ) {
                        events.push(ev);
                    }
                }
                let mut fade_requests: usize = 0;
                if let Some(enemy) = &mut self.enemy {
                    proof {
                        assert(events@ =~= combat_events(g1, input, enemy.id));
                    }
                    fade_requests = damage_calculation(enemy, &events);
                }
                crate::combat::combat_camera(&mut self.camera);
                if (fade_requests > 0 || input.exit_just_pressed) && self.fade.is_none() {
                    self.fade = Some(create_fadeout(GameState::Overworld));
                }
                proof {
                    assert(self@ =~= combat_phase(g1, input));
                }
            },
        }
    }
}

} // verus!
