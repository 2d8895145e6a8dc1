//! The night player: the death predicate and the auto-fire behavior that
//! shoots at the closest enemy within detection range, throttled by the
//! derived fire period.

use vstd::prelude::*;

use crate::actors::{
    night_registry_wf, registry_wf, spec_is_live_enemy, spec_player_health,
    spec_player_last_shot, Actor, ActorKind,
};
use crate::math::{aim_velocity, dist2, spec_aim, spec_dist2, Vec2I, COORD_LIMIT_MILLI};

verus! {

/// Drifting farther than this from the arena origin kills the player.
pub const OUT_OF_BOUNDS_MILLI: i64 = 2_000_000;

/// Speed of a player shot, milli-units per second.
pub const SHOT_SPEED_MILLI: i64 = 1_000_000;

/// Collision radius of a player shot, milli-units.
pub const SHOT_RADIUS_MILLI: i64 = 3_000;

/// Movement damping applied to the player's velocity every tick, in
/// thousandths: the controller keeps 92 percent of its speed.
pub const PLAYER_DAMPING_MILLI: u64 = 920;

/// The player velocity after one tick of character control: the resolved
/// movement intent (a unit direction per axis) accelerates the velocity,
/// damping then takes its share, and the world speed cap clips the rest.
pub open spec fn spec_steer_player(
    vel: Vec2I,
    dir_x: int,
    dir_y: int,
    accel: int,
    dt_ms: int,
) -> Vec2I {
    let boost = crate::math::spec_div_scale(accel, dt_ms, 1000);
    Vec2I {
        x: crate::math::spec_clamp(
            crate::math::spec_div_scale(vel.x + dir_x * boost, PLAYER_DAMPING_MILLI as int, 1000),
            -COORD_LIMIT_MILLI as int,
            COORD_LIMIT_MILLI as int,
        ) as i64,
        y: crate::math::spec_clamp(
            crate::math::spec_div_scale(vel.y + dir_y * boost, PLAYER_DAMPING_MILLI as int, 1000),
            -COORD_LIMIT_MILLI as int,
            COORD_LIMIT_MILLI as int,
        ) as i64,
    }
}

/// One tick of character control for the player's velocity. The movement
/// intent arrives already resolved into a direction of `-1`, `0` or `1` per
/// axis; acceleration comes from the derived combat stats.
pub fn steer_player(vel: Vec2I, dir_x: i64, dir_y: i64, accel_milli: i64, dt_ms: u64) -> (r:
    Vec2I)
    requires
        vel.spec_in_bounds(),
        -1 <= dir_x <= 1,
        -1 <= dir_y <= 1,
        0 <= accel_milli <= COORD_LIMIT_MILLI,
        dt_ms <= 3_600_000,
    ensures
        r == spec_steer_player(vel, dir_x as int, dir_y as int, accel_milli as int, dt_ms as int),
        r.spec_in_bounds(),
{
    proof {
        assert(accel_milli as int * dt_ms <= 100_000_000int * 3_600_000int) by (nonlinear_arith)
            requires
                0 <= accel_milli <= 100_000_000,
                0 <= dt_ms <= 3_600_000,
        ;
    }
    let boost: i64 = crate::math::div_scale(accel_milli, dt_ms, 1000);
    let push_x: i64 = if dir_x > 0 {
        boost
    } else if dir_x < 0 {
        -boost
    } else {
        0
    };
    let push_y: i64 = if dir_y > 0 {
        boost
    } else if dir_y < 0 {
        -boost
    } else {
        0
    };
    proof {
        assert(dir_x as int * boost == (if dir_x > 0 {
            boost as int
        } else if dir_x < 0 {
            -(boost as int)
        } else {
            0int
        })) by (nonlinear_arith)
            requires
                -1 <= dir_x <= 1,
        ;
        assert(dir_y as int * boost == (if dir_y > 0 {
            boost as int
        } else if dir_y < 0 {
            -(boost as int)
        } else {
            0int
        })) by (nonlinear_arith)
            requires
                -1 <= dir_y <= 1,
        ;
    }
    let vx: i64 = vel.x + push_x;
    let vy: i64 = vel.y + push_y;
    proof {
        assert((if vx >= 0 { vx as int } else { -(vx as int) }) * PLAYER_DAMPING_MILLI
            <= 460_000_000_000int * 1000int) by (nonlinear_arith)
            requires
                -460_000_000_000 <= vx <= 460_000_000_000,
                0 < PLAYER_DAMPING_MILLI <= 1000,
        ;
        assert((if vy >= 0 { vy as int } else { -(vy as int) }) * PLAYER_DAMPING_MILLI
            <= 460_000_000_000int * 1000int) by (nonlinear_arith)
            requires
                -460_000_000_000 <= vy <= 460_000_000_000,
                0 < PLAYER_DAMPING_MILLI <= 1000,
        ;
    }
    let dx: i64 = crate::math::div_scale(vx, PLAYER_DAMPING_MILLI, 1000);
    let dy: i64 = crate::math::div_scale(vy, PLAYER_DAMPING_MILLI, 1000);
    Vec2I {
        x: crate::math::clamp_i64(dx, -COORD_LIMIT_MILLI, COORD_LIMIT_MILLI),
        y: crate::math::clamp_i64(dy, -COORD_LIMIT_MILLI, COORD_LIMIT_MILLI),
    }
}

/// The player-death predicate, checked once per tick independent of
/// collision events: the health pool is exhausted, or the player has left
/// the playable bounds.
pub open spec fn spec_player_dead(s: Seq<Actor>) -> bool {
    spec_player_health(s) <= 0 || s[0].pos.spec_len2() > OUT_OF_BOUNDS_MILLI
        * OUT_OF_BOUNDS_MILLI
}

/// Evaluate the death predicate against the registry.
pub fn player_dead(actors: &Vec<Actor>) -> (r: bool)
    requires
        night_registry_wf(actors@),
    ensures
        r == spec_player_dead(actors@),
{
    let p: Actor = actors[0];
    proof {
        assert(OUT_OF_BOUNDS_MILLI * OUT_OF_BOUNDS_MILLI == 4_000_000_000_000int)
            by (nonlinear_arith);
    }
    let oob: bool = p.pos.len2() > 4_000_000_000_000u64;
    let health_low: bool = match p.kind {
        ActorKind::Player { health_milli, .. } => health_milli <= 0,
        _ => false,
    };
    health_low || oob
}

/// `j` is the target the player aims at: the live enemy closest to `from`
/// among the first `upto` slots, the earliest slot among ties.
pub open spec fn spec_is_closest(s: Seq<Actor>, upto: int, from: Vec2I, j: int) -> bool {
    &&& 0 <= j < upto
    &&& spec_is_live_enemy(s[j])
    &&& forall|i: int|
        0 <= i < upto && spec_is_live_enemy(#[trigger] s[i]) ==> spec_dist2(s[j].pos, from)
            <= spec_dist2(s[i].pos, from)
    &&& forall|i: int|
        0 <= i < j && spec_is_live_enemy(#[trigger] s[i]) ==> spec_dist2(s[j].pos, from)
            < spec_dist2(s[i].pos, from)
}

/// Find the closest live enemy among the first `upto` slots, preferring the
/// earliest slot among equally close ones.
pub fn closest_live_enemy(actors: &Vec<Actor>, upto: usize, from: Vec2I) -> (r: Option<usize>)
    requires
        registry_wf(actors@),
        upto <= actors@.len(),
        from.spec_in_bounds(),
    ensures
        r is None ==> forall|i: int| 0 <= i < upto ==> !spec_is_live_enemy(#[trigger] actors@[i]),
        r matches Some(j) ==> spec_is_closest(actors@, upto as int, from, j as int),
{
    let mut best: usize = 0;
    let mut best_d2: u64 = 0;
    let mut found: bool = false;
    let mut i: usize = 0;
    while i < upto
        invariant
            registry_wf(actors@),
            upto <= actors@.len(),
            from.spec_in_bounds(),
            0 <= i <= upto,
            !found ==> forall|k: int| 0 <= k < i ==> !spec_is_live_enemy(#[trigger] actors@[k]),
            found ==> {
                &&& 0 <= best < i
                &&& spec_is_live_enemy(actors@[best as int])
                &&& best_d2 == spec_dist2(actors@[best as int].pos, from)
                &&& forall|k: int|
                    0 <= k < i && spec_is_live_enemy(#[trigger] actors@[k]) ==> best_d2
                        <= spec_dist2(actors@[k].pos, from)
                &&& forall|k: int|
                    0 <= k < best && spec_is_live_enemy(#[trigger] actors@[k]) ==> best_d2
                        < spec_dist2(actors@[k].pos, from)
            },
        decreases upto - i,
    {
        let a: Actor = actors[i];
        if a.is_live_enemy() {
            let d2: u64 = dist2(a.pos, from);
            if !found || d2 < best_d2 {
                best = i;
                best_d2 = d2;
                found = true;
            }
        }
        i = i + 1;
    }
    if found {
        Some(best)
    } else {
        None
    }
}

/// The player's cooldown has elapsed: a full fire period has passed since
/// the last shot.
pub open spec fn spec_cooldown_ready(s: Seq<Actor>, now: int, fire_period_ms: int) -> bool {
    spec_player_last_shot(s) + fire_period_ms <= now
}

/// The registry with the player's last-shot time advanced to `now`.
pub open spec fn spec_arm_player(s: Seq<Actor>, now: int) -> Seq<Actor> {
    match s[0].kind {
        ActorKind::Player { health_milli, .. } => s.update(
            0,
            Actor {
                kind: ActorKind::Player { health_milli, last_shot_ms: now as u64 },
                ..s[0]
            },
        ),
        _ => s,
    }
}

/// The shot spawned at the player, aimed at slot `j`.
pub open spec fn spec_shot_actor(s: Seq<Actor>, j: int) -> Actor {
    Actor {
        kind: ActorKind::Shot,
        pos: s[0].pos,
        vel: spec_aim(
            Vec2I { x: (s[j].pos.x - s[0].pos.x) as i64, y: (s[j].pos.y - s[0].pos.y) as i64 },
            SHOT_SPEED_MILLI as int,
        ),
        radius_milli: SHOT_RADIUS_MILLI,
        alive: true,
    }
}

/// One tick of auto-fire. Nothing happens while the cooldown runs or when no
/// live enemy exists among the first `upto` slots. Otherwise the player
/// takes aim (the last-shot time advances either way, as aiming consumes the
/// shot window) and, when the closest enemy is strictly within detection
/// range, a shot spawns at the player aimed at it. Returns the targeted slot
/// when a shot was fired.
pub fn player_shoot(
    actors: &mut Vec<Actor>,
    upto: usize,
    now_ms: u64,
    fire_period_ms: u64,
    range_milli: i64,
) -> (r: Option<usize>)
    requires
        night_registry_wf(old(actors)@),
        upto <= old(actors)@.len(),
        fire_period_ms <= 1_000_000,
        0 <= range_milli <= COORD_LIMIT_MILLI,
    ensures
        night_registry_wf(final(actors)@),
        old(actors)@.len() <= final(actors)@.len() <= old(actors)@.len() + 1,
        forall|k: int|
            0 <= k < old(actors)@.len() ==> (#[trigger] final(actors)@[k]).pos
                == old(actors)@[k].pos && final(actors)@[k].alive == old(actors)@[k].alive
                && final(actors)@[k].radius_milli == old(actors)@[k].radius_milli,
        spec_player_health(final(actors)@) == spec_player_health(old(actors)@),
        forall|k: int| 1 <= k < old(actors)@.len() ==> final(actors)@[k] == old(actors)@[k],
        !spec_cooldown_ready(old(actors)@, now_ms as int, fire_period_ms as int) ==> {
            &&& final(actors)@ == old(actors)@
            &&& r is None
        },
        spec_cooldown_ready(old(actors)@, now_ms as int, fire_period_ms as int) && (forall|
            i: int,
        |
            0 <= i < upto ==> !spec_is_live_enemy(#[trigger] old(actors)@[i])) ==> {
            &&& final(actors)@ == old(actors)@
            &&& r is None
        },
        spec_cooldown_ready(old(actors)@, now_ms as int, fire_period_ms as int) ==> {
            &&& (r matches Some(j) ==> {
                &&& spec_is_closest(old(actors)@, upto as int, old(actors)@[0].pos, j as int)
                &&& spec_dist2(old(actors)@[j as int].pos, old(actors)@[0].pos) < range_milli
                    * range_milli
                &&& final(actors)@ == spec_arm_player(old(actors)@, now_ms as int).push(
                    spec_shot_actor(old(actors)@, j as int),
                )
            })
            &&& (r is None && (exists|i: int|
                0 <= i < upto && spec_is_live_enemy(#[trigger] old(actors)@[i])) ==> {
                &&& final(actors)@ == spec_arm_player(old(actors)@, now_ms as int)
                &&& exists|j: int|
                    spec_is_closest(old(actors)@, upto as int, old(actors)@[0].pos, j)
                        && spec_dist2(old(actors)@[j].pos, old(actors)@[0].pos) >= range_milli
                        * range_milli
            })
        },
{
    let player: Actor = actors[0];
    let (health, last_shot): (i64, u64) = match player.kind {
        ActorKind::Player { health_milli, last_shot_ms } => (health_milli, last_shot_ms),
        _ => (0, 0),
    };
    if last_shot > u64::MAX - fire_period_ms || last_shot + fire_period_ms > now_ms {
        proof {
            assert(!spec_cooldown_ready(actors@, now_ms as int, fire_period_ms as int));
        }
        return None;
    }
    let target: Option<usize> = closest_live_enemy(actors, upto, player.pos);
    match target {
        None => None,
        Some(j) => {
            let armed: Actor = Actor {
                kind: ActorKind::Player { health_milli: health, last_shot_ms: now_ms },
                ..player
            };
            actors.set(0, armed);
            let enemy: Actor = actors[j];
            proof {
                assert((range_milli as int) * (range_milli as int)
                    <= 100_000_000int * 100_000_000int) by (nonlinear_arith)
                    requires
                        0 <= range_milli <= 100_000_000,
                ;
            }
            let range2: u64 = (range_milli as u64) * (range_milli as u64);
            let d2: u64 = dist2(enemy.pos, player.pos);
            if d2 < range2 {
                let d: Vec2I = enemy.pos.sub(player.pos);
                let vel: Vec2I = aim_velocity(d, SHOT_SPEED_MILLI);
                let shot: Actor = Actor {
                    kind: ActorKind::Shot,
                    pos: player.pos,
                    vel,
                    radius_milli: SHOT_RADIUS_MILLI,
                    alive: true,
                };
                actors.push(shot);
                Some(j)
            } else {
                None
            }
        },
    }
}

} // verus!
