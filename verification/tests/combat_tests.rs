use tile_rpg::combat::{
    apply_fight_event, combat_input, damage_calculation, health_readout, health_text, spawn_enemy,
    CombatStats, FightEvent,
};

fn stats(health: isize, max_health: isize, attack: isize, defense: isize) -> CombatStats {
    CombatStats { health, max_health, attack, defense }
}

#[test]
fn three_strikes_kill_and_request_one_fade() {
    // Player with attack 2 strikes an enemy with defense 1 and health 3.
    let mut enemy = spawn_enemy(7);
    assert_eq!(enemy.stats.health, 3);
    assert_eq!(enemy.stats.defense, 1);

    let strike = vec![FightEvent { target: 7, damage_amount: 2 }];

    let fades = damage_calculation(&mut enemy, &strike);
    assert_eq!(enemy.stats.health, 2);
    assert_eq!(fades, 0);

    let fades = damage_calculation(&mut enemy, &strike);
    assert_eq!(enemy.stats.health, 1);
    assert_eq!(fades, 0);

    let fades = damage_calculation(&mut enemy, &strike);
    assert_eq!(enemy.stats.health, 0);
    assert_eq!(fades, 1);
}

#[test]
fn damage_is_attack_minus_defense() {
    let mut s = stats(10, 10, 0, 3);
    let dead = apply_fight_event(&mut s, &FightEvent { target: 0, damage_amount: 5 });
    assert_eq!(s.health, 8);
    assert!(!dead);
}

#[test]
fn overdefended_hit_never_heals() {
    let mut s = stats(4, 10, 0, 5);
    let dead = apply_fight_event(&mut s, &FightEvent { target: 0, damage_amount: 1 });
    assert_eq!(s.health, 4);
    assert!(!dead);
}

#[test]
fn negative_damage_never_heals_either() {
    let mut s = stats(4, 10, 0, 0);
    let dead = apply_fight_event(&mut s, &FightEvent { target: 0, damage_amount: -7 });
    assert_eq!(s.health, 4);
    assert!(!dead);
}

#[test]
fn health_clamps_at_zero_never_negative() {
    let mut s = stats(2, 10, 0, 1);
    let dead = apply_fight_event(&mut s, &FightEvent { target: 0, damage_amount: 100 });
    assert_eq!(s.health, 0);
    assert!(dead);
}

#[test]
fn hit_changes_health_alone() {
    let mut s = stats(9, 12, 4, 2);
    apply_fight_event(&mut s, &FightEvent { target: 0, damage_amount: 3 });
    assert_eq!(s, stats(8, 12, 4, 2));
}

#[test]
fn queued_events_drain_in_order() {
    let mut enemy = spawn_enemy(1);
    let events = vec![
        FightEvent { target: 1, damage_amount: 2 },
        FightEvent { target: 1, damage_amount: 3 },
    ];
    let fades = damage_calculation(&mut enemy, &events);
    // 3 - (2-1) = 2, then 2 - (3-1) = 0.
    assert_eq!(enemy.stats.health, 0);
    assert_eq!(fades, 1);
}

#[test]
fn attack_press_emits_one_event_with_attack_stat() {
    let player = stats(10, 10, 2, 1);
    let ev = combat_input(true, &player, 42);
    assert_eq!(ev, Some(FightEvent { target: 42, damage_amount: 2 }));
    assert_eq!(combat_input(false, &player, 42), None);
}

#[test]
fn health_readout_text_shows_the_value() {
    let text: String = health_text(3).into_iter().collect();
    assert_eq!(text, "Health: 3");
    let text: String = health_text(0).into_iter().collect();
    assert_eq!(text, "Health: 0");
    let text: String = health_text(12045).into_iter().collect();
    assert_eq!(text, "Health: 12045");
}

#[test]
fn health_readout_glyphs_lay_out_like_text() {
    let glyphs = health_readout(10);
    assert_eq!(glyphs.len(), "Health: 10".len());
    assert_eq!(glyphs[0].index, 'H' as usize);
    assert_eq!(glyphs[8].index, '1' as usize);
    assert_eq!(glyphs[9].index, '0' as usize);
    for (i, g) in glyphs.iter().enumerate() {
        assert_eq!(g.x, (i as i64) * 100);
        assert_eq!(g.y, 0);
    }
}

#[test]
fn spawned_enemy_has_baseline_stats() {
    let enemy = spawn_enemy(3);
    assert_eq!(enemy.id, 3);
    assert!(enemy.visible);
    assert_eq!(enemy.stats, stats(3, 3, 2, 1));
}
