use tile_rpg::ascii::{spawn_ascii_sprite, spawn_ascii_text, Glyph};
use tile_rpg::timer::{Timer, TimerMode};

#[test]
fn text_layout_one_glyph_per_character() {
    let glyphs = spawn_ascii_text("Health: 3");
    assert_eq!(glyphs.len(), 9);
    assert_eq!(glyphs[0], Glyph { index: 'H' as usize, x: 0, y: 0 });
    assert_eq!(glyphs[1], Glyph { index: 'e' as usize, x: 100, y: 0 });
    assert_eq!(glyphs[8], Glyph { index: '3' as usize, x: 800, y: 0 });
    for (i, g) in glyphs.iter().enumerate() {
        assert_eq!(g.x, (i as i64) * 100);
        assert_eq!(g.y, 0);
        assert!(g.index < 256);
    }
}

#[test]
fn empty_text_lays_out_nothing() {
    assert_eq!(spawn_ascii_text("").len(), 0);
}

#[test]
fn sprite_keeps_its_index_and_position() {
    let g = spawn_ascii_sprite(42, -300, 700);
    assert_eq!(g, Glyph { index: 42, x: -300, y: 700 });
}

#[test]
fn one_shot_timer_clamps_at_its_duration() {
    let mut t = Timer::new(1000, TimerMode::Once);
    assert!(!t.tick(600));
    assert_eq!(t.elapsed, 600);
    assert!(t.tick(600));
    assert_eq!(t.elapsed, 1000);
    // Already finished: no second completion.
    assert!(!t.tick(600));
    assert_eq!(t.elapsed, 1000);
}

#[test]
fn repeating_timer_wraps_and_fires_again() {
    let mut t = Timer::new(1000, TimerMode::Repeating);
    assert!(!t.tick(600));
    assert!(t.tick(600));
    assert_eq!(t.elapsed, 200);
    assert!(t.tick(800));
    assert_eq!(t.elapsed, 0);
    // A delta spanning several cycles still wraps into range.
    assert!(t.tick(2500));
    assert_eq!(t.elapsed, 500);
}

#[test]
fn half_way_test_rounds_up_on_odd_durations() {
    let mut t = Timer::new(7, TimerMode::Once);
    t.tick(3);
    assert!(!t.at_least_half());
    t.tick(1);
    assert!(t.at_least_half());
}
