use tile_rpg::game::{Game, InputState};
use tile_rpg::player::{MoveInput, Pos};
use tile_rpg::GameState;

fn idle() -> InputState {
    InputState {
        movement: MoveInput { up: false, down: false, left: false, right: false },
        attack_just_pressed: false,
        exit_just_pressed: false,
    }
}

fn attack() -> InputState {
    InputState { attack_just_pressed: true, ..idle() }
}

// The player spawns at world (200, -200), grid (2, 2); the encounter zone
// sits one tile to its right at grid (3, 2).
fn rows() -> Vec<String> {
    vec![
        String::from("#####"),
        String::from("#...#"),
        String::from("#..~#"),
        String::from("#####"),
    ]
}

#[test]
fn fresh_game_starts_in_the_overworld() {
    let game = Game::new(&rows());
    assert_eq!(game.state, GameState::Overworld);
    assert_eq!(game.player.pos, Pos { x: 200, y: -200 });
    assert_eq!(game.map.tiles.len(), 20);
    assert!(game.fade.is_none());
    assert!(game.enemy.is_none());
}

#[test]
fn full_round_trip_overworld_combat_overworld() {
    let mut game = Game::new(&rows());

    let step_right = InputState {
        movement: MoveInput { up: false, down: false, left: false, right: true },
        ..idle()
    };
    let step_left = InputState {
        movement: MoveInput { up: false, down: false, left: true, right: false },
        ..idle()
    };

    // Walk onto the encounter zone and wiggle across it; a 334-tick move
    // covers one tile, and each tick spent moving on the zone feeds the
    // 1000-tick cooldown.
    game.tick(step_right, 334); // onto the zone: cooldown at 334
    assert_eq!(game.player.pos, Pos { x: 300, y: -200 });
    assert!(game.player.just_moved);
    game.tick(step_left, 334); // off the zone: cooldown frozen
    game.tick(step_right, 334); // on: 668
    game.tick(step_left, 334); // off
    assert!(game.fade.is_none());
    game.tick(step_right, 334); // on: 1002 >= 1000, combat requested
    let fade = game.fade.expect("encounter should start a fade");
    assert_eq!(fade.next_state, GameState::Combat);
    assert_eq!(game.state, GameState::Overworld);

    // The fade flips the state exactly when it reaches its midpoint.
    game.tick(idle(), 400);
    assert_eq!(game.state, GameState::Overworld);
    game.tick(idle(), 300);
    assert_eq!(game.state, GameState::Combat);
    let enemy = game.enemy.expect("entering combat spawns the enemy");
    assert_eq!(enemy.stats.health, 3);
    assert!(!game.player.visible);
    assert!(!game.map.visible);
    assert!(game.map.tiles.iter().all(|t| !t.visible));
    assert_eq!(game.camera, tile_rpg::player::Camera { x: 0, y: 0 });

    // Let the fade finish; the state stays flipped and the fade goes away.
    game.tick(idle(), 300);
    assert!(game.fade.is_none());
    assert_eq!(game.state, GameState::Combat);

    // Three strikes at attack 2 against defense 1: 3 -> 2 -> 1 -> 0, and
    // the kill requests the fade back, exactly once.
    game.tick(attack(), 10);
    assert_eq!(game.enemy.unwrap().stats.health, 2);
    assert!(game.fade.is_none());
    game.tick(attack(), 10);
    assert_eq!(game.enemy.unwrap().stats.health, 1);
    assert!(game.fade.is_none());
    game.tick(attack(), 10);
    assert_eq!(game.enemy.unwrap().stats.health, 0);
    let fade = game.fade.expect("the kill should start a fade");
    assert_eq!(fade.next_state, GameState::Overworld);

    // Ride the fade back: the enemy is destroyed unconditionally and the
    // overworld becomes visible again.
    game.tick(idle(), 500);
    assert_eq!(game.state, GameState::Overworld);
    assert!(game.enemy.is_none());
    assert!(game.player.visible);
    assert!(game.map.visible);
    assert!(game.map.tiles.iter().all(|t| t.visible));
    game.tick(idle(), 500);
    assert!(game.fade.is_none());
}

#[test]
fn cooldown_does_not_leak_while_standing_on_the_zone() {
    let mut game = Game::new(&rows());
    let step_right = InputState {
        movement: MoveInput { up: false, down: false, left: false, right: true },
        ..idle()
    };
    game.tick(step_right, 334); // onto the zone: cooldown at 334
    // Standing still on the zone for a long time must not fire anything.
    for _ in 0..10 {
        game.tick(idle(), 1000);
    }
    assert!(game.fade.is_none());
    assert_eq!(game.tracker.timer.elapsed, 334);
    // Pressing into the wall is a blocked move: still no cooldown.
    for _ in 0..10 {
        game.tick(step_right, 334);
    }
    assert!(game.fade.is_none());
    assert_eq!(game.tracker.timer.elapsed, 334);
}

#[test]
fn force_exit_leaves_combat_without_a_kill() {
    let mut game = Game::new(&rows());
    // Jump straight into combat through a real fade.
    game.fade = Some(tile_rpg::fadeout::create_fadeout(GameState::Combat));
    game.tick(idle(), 600);
    assert_eq!(game.state, GameState::Combat);
    game.tick(idle(), 400); // fade completes

    let exit = InputState { exit_just_pressed: true, ..idle() };
    game.tick(exit, 10);
    let fade = game.fade.expect("force-exit should start a fade");
    assert_eq!(fade.next_state, GameState::Overworld);
    // The enemy is still alive; the exit does not depend on health.
    assert_eq!(game.enemy.unwrap().stats.health, 3);

    game.tick(idle(), 500);
    assert_eq!(game.state, GameState::Overworld);
    assert!(game.enemy.is_none());
}

#[test]
fn transition_in_flight_is_not_interrupted() {
    let mut game = Game::new(&rows());
    game.fade = Some(tile_rpg::fadeout::create_fadeout(GameState::Combat));
    game.tick(idle(), 600);
    assert_eq!(game.state, GameState::Combat);

    // A kill while the entry fade is still running must not replace it.
    game.tick(attack(), 10);
    game.tick(attack(), 10);
    game.tick(attack(), 10);
    assert_eq!(game.enemy.unwrap().stats.health, 0);
    let fade = game.fade.expect("the entry fade is still running");
    assert_eq!(fade.next_state, GameState::Combat);
}

#[test]
fn camera_follows_in_overworld_and_pins_in_combat() {
    let mut game = Game::new(&rows());
    let step_right = InputState {
        movement: MoveInput { up: false, down: false, left: false, right: true },
        ..idle()
    };
    game.tick(step_right, 100);
    assert_eq!(game.camera.x, game.player.pos.x);
    assert_eq!(game.camera.y, game.player.pos.y);

    game.fade = Some(tile_rpg::fadeout::create_fadeout(GameState::Combat));
    game.tick(idle(), 600);
    assert_eq!(game.camera, tile_rpg::player::Camera { x: 0, y: 0 });
}
