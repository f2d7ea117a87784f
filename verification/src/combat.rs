//! Turn-based combat: the shared health/attack/defense stats, the fight
//! events that carry damage to a target, and the resolution rule
//! `health' = max(health - max(damage - defense, 0), 0)` — damage is never
//! healing, and health is clamped at zero, never negative.

use vstd::prelude::*;

use crate::ascii::{text_glyph, Glyph};
use crate::TILE_SIZE;

verus! {

/// Baseline health of a freshly spawned enemy.
pub const ENEMY_HEALTH: isize = 3;

/// Baseline attack of a freshly spawned enemy.
pub const ENEMY_ATTACK: isize = 2;

/// Baseline defense of a freshly spawned enemy.
pub const ENEMY_DEFENSE: isize = 1;

/// Health, attack and defense, attached to the player and to every enemy.
#[derive(Clone, Copy, Debug, PartialEq, Eq, Structural)]
pub struct CombatStats {
    pub health: isize,
    pub max_health: isize,
    pub attack: isize,
    pub defense: isize,
}

impl CombatStats {
    /// Health stays between zero and the maximum; attack and defense are
    /// never negative.
    pub open spec fn wf(self) -> bool {
        &&& 0 <= self.health <= self.max_health
        &&& 0 <= self.attack
        &&& 0 <= self.defense
    }
}

/// An ephemeral damage message: consumed once per emission by the
/// damage-resolution step, against the combat participant it targets.
#[derive(Clone, Copy, Debug, PartialEq, Eq, Structural)]
pub struct FightEvent {
    pub target: u64,
    pub damage_amount: isize,
}

/// The one combat opponent: spawned on entry to the combat mode, destroyed
/// on exit, whatever the outcome.
#[derive(Clone, Copy, Debug)]
pub struct Enemy {
    pub id: u64,
    pub stats: CombatStats,
    pub visible: bool,
}

/// The health left after a hit of `damage` against `defense`: the damage
/// dealt is `damage - defense`, clamped at zero (an over-defended hit never
/// heals), and health is clamped at zero (death), never negative.
pub open spec fn damage_result(health: int, damage: int, defense: int) -> int {
    let dealt = if damage - defense > 0 {
        damage - defense
    } else {
        0
    };
    if health - dealt > 0 {
        health - dealt
    } else {
        0
    }
}

/// The stats after one hit of `damage`: only health changes.
pub open spec fn stats_after_hit(s: CombatStats, damage: int) -> CombatStats {
    CombatStats { health: damage_result(s.health as int, damage, s.defense as int) as isize, ..s }
}

/// The stats after draining the first `n` queued fight events in order.
pub open spec fn stats_after_events(s: CombatStats, evs: Seq<FightEvent>, n: int) -> CombatStats
    decreases n,
{
    if n <= 0 {
        s
    } else {
        stats_after_hit(stats_after_events(s, evs, n - 1), evs[n - 1].damage_amount as int)
    }
}

/// How many of the first `n` queued events leave the target at zero health;
/// each such event requests a fade back to the overworld.
pub open spec fn fade_requests_after_events(s: CombatStats, evs: Seq<FightEvent>, n: int) -> nat
    decreases n,
{
    if n <= 0 {
        0
    } else {
        fade_requests_after_events(s, evs, n - 1) + (if stats_after_events(s, evs, n).health == 0 {
            1nat
        } else {
            0nat
        })
    }
}

/// Law: for every prior health, damage amount and defense, the resulting
/// health is `max(prior - max(damage - defense, 0), 0)` by construction, it
/// never goes negative, and a hit never heals: it never exceeds the prior
/// health.
pub proof fn lemma_damage_never_negative(health: int, damage: int, defense: int)
    requires
        health >= 0,
    ensures
        0 <= damage_result(health, damage, defense) <= health,
{
}

/// Law: a hit changes health alone, and keeps valid stats valid.
pub proof fn lemma_hit_preserves_wf(s: CombatStats, damage: int)
    requires
        s.wf(),
    ensures
        stats_after_hit(s, damage).wf(),
        stats_after_hit(s, damage).max_health == s.max_health,
        stats_after_hit(s, damage).attack == s.attack,
        stats_after_hit(s, damage).defense == s.defense,
{
}

/// A fresh enemy with the fixed baseline stats, visible, under the given
/// entity identity.
pub fn spawn_enemy(id: u64) -> (e: Enemy)
    ensures
        e == (Enemy {
            id,
            stats: CombatStats {
                health: ENEMY_HEALTH,
                max_health: ENEMY_HEALTH,
                attack: ENEMY_ATTACK,
                defense: ENEMY_DEFENSE,
            },
            visible: true,
        }),
        e.stats.wf(),
{
    Enemy {
        id,
        stats: CombatStats {
            health: ENEMY_HEALTH,
            max_health: ENEMY_HEALTH,
            attack: ENEMY_ATTACK,
            defense: ENEMY_DEFENSE,
        },
        visible: true,
    }
}

/// On an attack press, emit one fight event against `target` whose damage
/// is the attacker's attack stat; otherwise emit nothing.
pub fn combat_input(attack_just_pressed: bool, attacker: &CombatStats, target: u64) -> (ev: Option<
    FightEvent,
>)
    ensures
        ev == if attack_just_pressed {
            Some(FightEvent { target, damage_amount: attacker.attack })
        } else {
            None::<FightEvent>
        },
{
    if attack_just_pressed {
        Some(FightEvent { target, damage_amount: attacker.attack })
    } else {
        None
    }
}

/// Resolve one fight event against the target's stats: health becomes
/// `max(health - max(damage - defense, 0), 0)`. Reports whether the target
/// is at zero health afterwards. Targeting a participant the event was not
/// meant for is the producer's contract violation and is excluded here.
pub fn apply_fight_event(stats: &mut CombatStats, ev: &FightEvent) -> (dead: bool)
    requires
        old(stats).wf(),
    ensures
        *final(stats) == stats_after_hit(*old(stats), ev.damage_amount as int),
        dead == (final(stats).health == 0),
        final(stats).wf(),
{
    let raw = (ev.damage_amount as i128) - (stats.defense as i128);
    let dealt: i128 = if raw > 0 {
        raw
    } else {
        0
    };
    let remaining = (stats.health as i128) - dealt;
    stats.health = if remaining > 0 {
        remaining as isize
    } else {
        0
    };
    stats.health == 0
}

/// The decimal digit `d` as a character.
pub open spec fn digit_char(d: int) -> char {
    if d == 0 {
        '0'
    } else if d == 1 {
        '1'
    } else if d == 2 {
        '2'
    } else if d == 3 {
        '3'
    } else if d == 4 {
        '4'
    } else if d == 5 {
        '5'
    } else if d == 6 {
        '6'
    } else if d == 7 {
        '7'
    } else if d == 8 {
        '8'
    } else {
        '9'
    }
}

/// The decimal representation of a non-negative number, most significant
/// digit first, without leading zeroes (zero itself is `"0"`).
pub open spec fn decimal_rep(n: int) -> Seq<char>
    decreases n,
{
    if n < 10 {
        seq![digit_char(n)]
    } else {
        decimal_rep(n / 10).push(digit_char(n % 10))
    }
}

/// Ten raised to the `k`-th power.
pub open spec fn pow10(k: nat) -> nat
    decreases k,
{
    if k == 0 {
        1
    } else {
        10 * pow10((k - 1) as nat)
    }
}

/// A number below the `k`-th power of ten has at most `k` decimal digits.
pub proof fn lemma_decimal_rep_len(n: int, k: nat)
    requires
        k >= 1,
        0 <= n < pow10(k),
    ensures
        1 <= decimal_rep(n).len() <= k,
    decreases k,
{
    if n >= 10 {
        assert(pow10(k) == 10 * pow10((k - 1) as nat));
        lemma_decimal_rep_len(n / 10, (k - 1) as nat);
    }
}

/// Every character of a decimal representation is a decimal digit.
pub proof fn lemma_decimal_rep_digits(n: int)
    requires
        n >= 0,
    ensures
        forall|i: int|
            0 <= i < decimal_rep(n).len() ==> '0' <= #[trigger] decimal_rep(n)[i] <= '9',
    decreases n,
{
    if n < 10 {
        assert(decimal_rep(n)[0] == digit_char(n));
    } else {
        lemma_decimal_rep_digits(n / 10);
        assert forall|i: int| 0 <= i < decimal_rep(n).len() implies '0' <= #[trigger] decimal_rep(
            n,
        )[i] <= '9' by {
            if i < decimal_rep(n / 10).len() {
                assert(decimal_rep(n)[i] == decimal_rep(n / 10)[i]);
            } else {
                assert(decimal_rep(n)[i] == digit_char(n % 10));
            }
        }
    }
}

/// The text of the health readout attached to a combat participant:
/// `"Health: "` followed by the decimal health value.
pub open spec fn health_label(health: int) -> Seq<char> {
    seq!['H', 'e', 'a', 'l', 't', 'h', ':', ' '] + decimal_rep(health)
}

/// The decimal digit `d` as a character.
fn digit_to_char(d: u64) -> (c: char)
    requires
        d < 10,
    ensures
        c == digit_char(d as int),
{
    if d == 0 {
        '0'
    } else if d == 1 {
        '1'
    } else if d == 2 {
        '2'
    } else if d == 3 {
        '3'
    } else if d == 4 {
        '4'
    } else if d == 5 {
        '5'
    } else if d == 6 {
        '6'
    } else if d == 7 {
        '7'
    } else if d == 8 {
        '8'
    } else {
        '9'
    }
}

/// Append the decimal representation of `n`, most significant digit first.
fn push_decimal(n: u64, out: &mut Vec<char>)
    ensures
        final(out)@ == old(out)@ + decimal_rep(n as int),
    decreases n,
{
    if n < 10 {
        out.push(digit_to_char(n));
        proof {
            assert(out@ =~= old(out)@ + decimal_rep(n as int));
        }
    } else {
        push_decimal(n / 10, out);
        out.push(digit_to_char(n % 10));
        proof {
            assert(out@ =~= old(out)@ + decimal_rep(n as int));
        }
    }
}

/// The characters of the health readout for the given health value.
pub fn health_text(health: isize) -> (text: Vec<char>)
    requires
        health >= 0,
    ensures
        text@ == health_label(health as int),
{
    let mut text: Vec<char> = Vec::new();
    text.push('H');
    text.push('e');
    text.push('a');
    text.push('l');
    text.push('t');
    text.push('h');
    text.push(':');
    text.push(' ');
    push_decimal(health as u64, &mut text);
    proof {
        assert(text@ =~= health_label(health as int));
    }
    text
}

/// Lay out the health readout as glyph sprites, one per character, exactly
/// like any other text: the glyph at the character's ordinal value, one
/// tile further right per character. This is the display that is replaced
/// whenever a hit changes the target's health.
pub fn health_readout(health: isize) -> (glyphs: Vec<Glyph>)
    requires
        health >= 0,
    ensures
        glyphs@.len() == health_label(health as int).len(),
        forall|i: int|
            0 <= i < glyphs@.len() ==> #[trigger] glyphs@[i] == text_glyph(
                health_label(health as int),
                i,
            ),
{
    let text = health_text(health);
    proof {
        // At most 20 digits fit in a 64-bit health value, so the readout
        // is short and every glyph offset stays tiny.
        assert(pow10(20) == 100000000000000000000) by {
            reveal_with_fuel(pow10, 21);
        };
        lemma_decimal_rep_len(health as int, 20);
        lemma_decimal_rep_digits(health as int);
    }
    let mut glyphs: Vec<Glyph> = Vec::new();
    let mut i: usize = 0;
    while i < text.len()
        invariant
            text@ == health_label(health as int),
            text@.len() <= 28,
            forall|j: int| 0 <= j < text@.len() ==> (#[trigger] text@[j]) as usize <= 255,
            i <= text@.len(),
            glyphs@.len() == i,
            forall|j: int| 0 <= j < i ==> #[trigger] glyphs@[j] == text_glyph(text@, j),
        decreases text@.len() - i,
    {
        let c = text[i];
        glyphs.push(Glyph { index: c as usize, x: (i as i64) * TILE_SIZE, y: 0 });
        i = i + 1;
    }
    glyphs
}

/// Pin the camera to the origin for the combat screen.
pub fn combat_camera(camera: &mut crate::player::Camera)
    ensures
        *final(camera) == (crate::player::Camera { x: 0, y: 0 }),
{
    camera.x = 0;
    camera.y = 0;
}

/// Drain a tick's queued fight events, in order, against the one enemy;
/// every event must target it. Returns how many events left the enemy at
/// zero health: each one requests a fade back to the overworld.
pub fn damage_calculation(enemy: &mut Enemy, events: &Vec<FightEvent>) -> (fade_requests: usize)
    requires
        old(enemy).stats.wf(),
        forall|i: int| 0 <= i < events@.len() ==> (#[trigger] events@[i]).target == old(enemy).id,
    ensures
        final(enemy).stats == stats_after_events(old(enemy).stats, events@, events@.len() as int),
        final(enemy).id == old(enemy).id,
        final(enemy).visible == old(enemy).visible,
        fade_requests == fade_requests_after_events(
            old(enemy).stats,
            events@,
            events@.len() as int,
        ),
        final(enemy).stats.wf(),
{
    let mut fade_requests: usize = 0;
    let mut i: usize = 0;
    while i < events.len()
        invariant
            i <= events@.len(),
            enemy.id == old(enemy).id,
            enemy.visible == old(enemy).visible,
            enemy.stats == stats_after_events(old(enemy).stats, events@, i as int),
            enemy.stats.wf(),
            fade_requests == fade_requests_after_events(old(enemy).stats, events@, i as int),
            fade_requests <= i,
        decreases events@.len() - i,
    {
        let dead = apply_fight_event(&mut enemy.stats, &events[i]);
        if dead {
            fade_requests = fade_requests + 1;
        }
        i = i + 1;
    }
    fade_requests
}

} // verus!
