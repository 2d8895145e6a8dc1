//! Pursuit steering: every living enemy accelerates toward the player and
//! has its speed clamped to the ruleset's base speed, turning smoothly
//! rather than reorienting instantly.

use vstd::prelude::*;

use crate::actors::{registry_wf, spec_is_live_enemy, Actor};
use crate::math::{clamp_len, spec_clamp_len, spec_steer_delta, steer_delta, Vec2I,
    COORD_LIMIT_MILLI};

verus! {

/// An enemy's velocity after one tick of pursuit: the steering force toward
/// `d` is added, then the magnitude is clamped to `max`. A zero distance
/// applies no force, so an enemy exactly on the player coasts.
pub open spec fn spec_pursue(vel: Vec2I, d: Vec2I, dt_ms: int, max: int) -> Vec2I {
    let delta = spec_steer_delta(d, dt_ms);
    spec_clamp_len(
        Vec2I { x: (vel.x + delta.x) as i64, y: (vel.y + delta.y) as i64 },
        max,
    )
}

/// One tick of steering for a single enemy velocity.
pub fn pursue_velocity(vel: Vec2I, d: Vec2I, dt_ms: u64, max_speed_milli: i64) -> (r: Vec2I)
    requires
        vel.spec_in_bounds(),
        -2 * COORD_LIMIT_MILLI <= d.x <= 2 * COORD_LIMIT_MILLI,
        -2 * COORD_LIMIT_MILLI <= d.y <= 2 * COORD_LIMIT_MILLI,
        dt_ms <= 3_600_000,
        0 <= max_speed_milli <= COORD_LIMIT_MILLI,
    ensures
        r == spec_pursue(vel, d, dt_ms as int, max_speed_milli as int),
        r.spec_in_bounds(),
        -max_speed_milli <= r.x <= max_speed_milli,
        -max_speed_milli <= r.y <= max_speed_milli,
{
    let delta: Vec2I = steer_delta(d, dt_ms);
    let combined: Vec2I = Vec2I { x: vel.x + delta.x, y: vel.y + delta.y };
    clamp_len(combined, max_speed_milli)
}

/// One tick of pursuit over the first `upto` slots: every living enemy among
/// them steers toward the player; every other slot is untouched. Enemies
/// spawned this very tick sit past `upto` and are not steered until the next
/// tick.
pub fn pursue_all(
    actors: &mut Vec<Actor>,
    upto: usize,
    player_pos: Vec2I,
    max_speed_milli: i64,
    dt_ms: u64,
)
    requires
        registry_wf(old(actors)@),
        upto <= old(actors)@.len(),
        player_pos.spec_in_bounds(),
        0 <= max_speed_milli <= COORD_LIMIT_MILLI,
        dt_ms <= 3_600_000,
    ensures
        final(actors)@.len() == old(actors)@.len(),
        forall|i: int|
            0 <= i < upto && spec_is_live_enemy(old(actors)@[i]) ==> final(actors)@[i]
                == (Actor {
                vel: spec_pursue(
                    old(actors)@[i].vel,
                    Vec2I {
                        x: (player_pos.x - old(actors)@[i].pos.x) as i64,
                        y: (player_pos.y - old(actors)@[i].pos.y) as i64,
                    },
                    dt_ms as int,
                    max_speed_milli as int,
                ),
                ..old(actors)@[i]
            }),
        forall|i: int|
            0 <= i < upto && !spec_is_live_enemy(old(actors)@[i]) ==> final(actors)@[i]
                == old(actors)@[i],
        forall|i: int|
            upto <= i < old(actors)@.len() ==> final(actors)@[i] == old(actors)@[i],
        forall|i: int|
            0 <= i < old(actors)@.len() ==> (#[trigger] final(actors)@[i]).pos
                == old(actors)@[i].pos && final(actors)@[i].alive == old(actors)@[i].alive
                && ((final(actors)@[i].kind is Player) == (old(actors)@[i].kind is Player))
                && (old(actors)@[i].kind is Player ==> final(actors)@[i] == old(actors)@[i]),
        registry_wf(final(actors)@),
{
    let ghost orig: Seq<Actor> = actors@;
    let mut i: usize = 0;
    while i < upto
        invariant
            registry_wf(orig),
            upto <= orig.len(),
            player_pos.spec_in_bounds(),
            0 <= max_speed_milli <= COORD_LIMIT_MILLI,
            dt_ms <= 3_600_000,
            0 <= i <= upto,
            actors@.len() == orig.len(),
            forall|k: int|
                0 <= k < i && spec_is_live_enemy(orig[k]) ==> actors@[k] == (Actor {
                    vel: spec_pursue(
                        orig[k].vel,
                        Vec2I {
                            x: (player_pos.x - orig[k].pos.x) as i64,
                            y: (player_pos.y - orig[k].pos.y) as i64,
                        },
                        dt_ms as int,
                        max_speed_milli as int,
                    ),
                    ..orig[k]
                }),
            forall|k: int|
                0 <= k < i && !spec_is_live_enemy(orig[k]) ==> actors@[k] == orig[k],
            forall|k: int| i <= k < orig.len() ==> actors@[k] == orig[k],
            registry_wf(actors@),
        decreases upto - i,
    {
        let a: Actor = actors[i];
        if a.is_live_enemy() {
            let d: Vec2I = player_pos.sub(a.pos);
            let vel: Vec2I = pursue_velocity(a.vel, d, dt_ms, max_speed_milli);
            actors.set(i, Actor { vel, ..a });
        }
        i = i + 1;
    }
}

} // verus!
