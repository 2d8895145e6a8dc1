//! Enemy spawners: each one periodically materializes an enemy near its own
//! position, aimed at the player, and remembers when it last spawned.

use vstd::prelude::*;

use crate::actors::{actor_wf, registry_wf, Actor, ActorKind};
use crate::math::{aim_velocity, spec_aim, Vec2I, COORD_LIMIT_MILLI};
use crate::rng::random_point_near;

verus! {

/// Collision radius of a spawned enemy, milli-units.
pub const ENEMY_RADIUS_MILLI: i64 = 7_000;

/// Half-extent of the band in which wave spawners are placed, milli-units.
pub const ARENA_HALF_WIDTH_MILLI: i64 = 750_000;

/// Vertical half-extent of the spawner band, milli-units.
pub const ARENA_HALF_HEIGHT_MILLI: i64 = 400_000;

/// Jitter radius of every wave spawner, milli-units.
pub const SPAWNER_JITTER_MILLI: i64 = 10_000;

/// The shape of every spawner a wave activation appends: a live, collision
/// free spawner at rest somewhere in the spawner band, with a fresh
/// last-spawn time.
pub open spec fn activated_spawner_ok(a: Actor, rate: u64) -> bool {
    &&& a.kind == (ActorKind::Spawner {
        spawn_rate_milli: rate,
        last_spawn_ms: 0u64,
        jitter_radius_milli: SPAWNER_JITTER_MILLI,
    })
    &&& a.vel == (Vec2I { x: 0, y: 0 })
    &&& a.radius_milli == 0
    &&& a.alive
    &&& -ARENA_HALF_WIDTH_MILLI <= a.pos.x <= ARENA_HALF_WIDTH_MILLI
    &&& -ARENA_HALF_HEIGHT_MILLI <= a.pos.y <= ARENA_HALF_HEIGHT_MILLI
    &&& actor_wf(a)
}

/// Append one freshly activated spawner per scheduled rate, each at a
/// uniformly random point of the spawner band.
pub fn spawn_wave_spawners(actors: &mut Vec<Actor>, rates: &Vec<u64>)
    requires
        registry_wf(old(actors)@),
        forall|k: int| 0 <= k < rates@.len() ==> #[trigger] rates@[k] >= 1,
    ensures
        final(actors)@.len() == old(actors)@.len() + rates@.len(),
        forall|m: int| 0 <= m < old(actors)@.len() ==> final(actors)@[m] == old(actors)@[m],
        forall|m: int|
            old(actors)@.len() <= m < final(actors)@.len() ==> activated_spawner_ok(
                #[trigger] final(actors)@[m],
                rates@[m - old(actors)@.len()],
            ),
        registry_wf(final(actors)@),
{
    let ghost orig: Seq<Actor> = actors@;
    let n: usize = rates.len();
    let mut k: usize = 0;
    while k < n
        invariant
            registry_wf(orig),
            forall|m: int| 0 <= m < rates@.len() ==> #[trigger] rates@[m] >= 1,
            n == rates@.len(),
            0 <= k <= n,
            actors@.len() == orig.len() + k,
            forall|m: int| 0 <= m < orig.len() ==> actors@[m] == orig[m],
            forall|m: int|
                orig.len() <= m < actors@.len() ==> activated_spawner_ok(
                    #[trigger] actors@[m],
                    rates@[m - orig.len()],
                ),
            registry_wf(actors@),
        decreases n - k,
    {
        let rate: u64 = rates[k];
        let pos: Vec2I = random_point_near(
            Vec2I { x: 0, y: 0 },
            ARENA_HALF_WIDTH_MILLI,
            ARENA_HALF_HEIGHT_MILLI,
        );
        actors.push(
            Actor {
                kind: ActorKind::Spawner {
                    spawn_rate_milli: rate,
                    last_spawn_ms: 0,
                    jitter_radius_milli: SPAWNER_JITTER_MILLI,
                },
                pos,
                vel: Vec2I { x: 0, y: 0 },
                radius_milli: 0,
                alive: true,
            },
        );
        k = k + 1;
    }
}

/// A spawner with rate `r` (milli-spawns per second) emits one enemy every
/// `1 / r` seconds, truncated to whole milliseconds.
pub open spec fn spec_spawn_period_ms(rate_milli: int) -> int {
    1_000_000int / rate_milli
}

/// A live spawner is due once a full period has passed since its last spawn.
pub open spec fn spec_due_spawner(a: Actor, now: int) -> bool {
    &&& a.alive
    &&& match a.kind {
        ActorKind::Spawner { spawn_rate_milli, last_spawn_ms, .. } => {
            last_spawn_ms + spec_spawn_period_ms(spawn_rate_milli as int) <= now
        },
        _ => false,
    }
}

/// A spawner slot after one spawning step: a due spawner remembers the time,
/// every other slot is untouched.
pub open spec fn spec_spawner_after(a: Actor, now: int) -> Actor {
    if spec_due_spawner(a, now) {
        match a.kind {
            ActorKind::Spawner { spawn_rate_milli, jitter_radius_milli, .. } => Actor {
                kind: ActorKind::Spawner {
                    spawn_rate_milli,
                    last_spawn_ms: now as u64,
                    jitter_radius_milli,
                },
                ..a
            },
            _ => a,
        }
    } else {
        a
    }
}

/// How many of the first `i` slots are due spawners.
pub open spec fn spec_num_due_upto(s: Seq<Actor>, now: int, i: int) -> int
    decreases i,
{
    if i <= 0 {
        0
    } else {
        spec_num_due_upto(s, now, i - 1) + (if spec_due_spawner(s[i - 1], now) {
            1int
        } else {
            0int
        })
    }
}

/// The due count is never negative.
pub proof fn lemma_num_due_nonneg(s: Seq<Actor>, now: int, i: int)
    ensures
        spec_num_due_upto(s, now, i) >= 0,
    decreases i,
{
    if i > 0 {
        lemma_num_due_nonneg(s, now, i - 1);
    }
}

/// How many of the first `j` freshly activated spawner rates are already
/// due at `now`; a fresh spawner has never spawned, so only its period
/// matters.
pub open spec fn spec_fresh_due_upto(rates: Seq<u64>, now: int, j: int) -> int
    decreases j,
{
    if j <= 0 {
        0
    } else {
        spec_fresh_due_upto(rates, now, j - 1) + (if spec_spawn_period_ms(
            rates[j - 1] as int,
        ) <= now {
            1int
        } else {
            0int
        })
    }
}

/// Registries that agree on their first `i` slots agree on the due count.
pub proof fn lemma_num_due_congruence(a: Seq<Actor>, b: Seq<Actor>, now: int, i: int)
    requires
        forall|k: int| 0 <= k < i ==> a[k] == b[k],
    ensures
        spec_num_due_upto(a, now, i) == spec_num_due_upto(b, now, i),
    decreases i,
{
    if i > 0 {
        lemma_num_due_congruence(a, b, now, i - 1);
    }
}

/// Past a prefix, a registry of freshly activated spawners contributes its
/// fresh due count to the overall due count.
pub proof fn lemma_num_due_appended(
    mid: Seq<Actor>,
    prefix_len: int,
    rates: Seq<u64>,
    now: int,
    i: int,
)
    requires
        0 <= prefix_len <= i <= prefix_len + rates.len(),
        forall|k: int|
            prefix_len <= k < i ==> activated_spawner_ok(#[trigger] mid[k], rates[k - prefix_len]),
    ensures
        spec_num_due_upto(mid, now, i) == spec_num_due_upto(mid, now, prefix_len)
            + spec_fresh_due_upto(rates, now, i - prefix_len),
    decreases i - prefix_len,
{
    if i > prefix_len {
        lemma_num_due_appended(mid, prefix_len, rates, now, i - 1);
    }
}

/// The shape of every enemy a spawning step appends: a live enemy within the
/// coordinate bounds whose initial velocity aims from its own position at
/// the player with the ruleset's base speed.
pub open spec fn spawned_enemy_ok(a: Actor, player_pos: Vec2I, base_speed: int) -> bool {
    &&& a.kind is Enemy
    &&& a.alive
    &&& a.radius_milli == ENEMY_RADIUS_MILLI
    &&& actor_wf(a)
    &&& a.vel == spec_aim(
        Vec2I { x: (player_pos.x - a.pos.x) as i64, y: (player_pos.y - a.pos.y) as i64 },
        base_speed,
    )
}

/// One spawning step over the first `upto` slots: every due spawner among
/// them emits one enemy, jittered within its radius, aimed at the player,
/// and its last-spawn time advances to `now_ms`. Slots past `upto` (the
/// actors appended by this very step) are left for the next tick.
pub fn run_spawners(
    actors: &mut Vec<Actor>,
    upto: usize,
    now_ms: u64,
    base_speed_milli: i64,
    player_pos: Vec2I,
)
    requires
        registry_wf(old(actors)@),
        upto <= old(actors)@.len(),
        player_pos.spec_in_bounds(),
        0 <= base_speed_milli <= COORD_LIMIT_MILLI,
    ensures
        final(actors)@.len() == old(actors)@.len() + spec_num_due_upto(
            old(actors)@,
            now_ms as int,
            upto as int,
        ),
        forall|i: int|
            0 <= i < upto ==> final(actors)@[i] == spec_spawner_after(
                old(actors)@[i],
                now_ms as int,
            ),
        forall|i: int|
            upto <= i < old(actors)@.len() ==> final(actors)@[i] == old(actors)@[i],
        forall|i: int|
            old(actors)@.len() <= i < final(actors)@.len() ==> spawned_enemy_ok(
                #[trigger] final(actors)@[i],
                player_pos,
                base_speed_milli as int,
            ),
        forall|i: int|
            0 <= i < upto ==> (#[trigger] final(actors)@[i]).pos == old(actors)@[i].pos
                && final(actors)@[i].alive == old(actors)@[i].alive
                && ((final(actors)@[i].kind is Player) == (old(actors)@[i].kind is Player))
                && (old(actors)@[i].kind is Player ==> final(actors)@[i] == old(actors)@[i]),
        registry_wf(final(actors)@),
{
    let ghost orig: Seq<Actor> = actors@;
    let len0: usize = actors.len();
    let mut i: usize = 0;
    while i < upto
        invariant
            registry_wf(orig),
            upto <= len0 == orig.len(),
            player_pos.spec_in_bounds(),
            0 <= base_speed_milli <= COORD_LIMIT_MILLI,
            0 <= i <= upto,
            actors@.len() == orig.len() + spec_num_due_upto(orig, now_ms as int, i as int),
            forall|k: int|
                0 <= k < i ==> actors@[k] == spec_spawner_after(orig[k], now_ms as int),
            forall|k: int| i <= k < orig.len() ==> actors@[k] == orig[k],
            forall|k: int|
                orig.len() <= k < actors@.len() ==> spawned_enemy_ok(
                    #[trigger] actors@[k],
                    player_pos,
                    base_speed_milli as int,
                ),
            registry_wf(actors@),
        decreases upto - i,
    {
        proof {
            lemma_num_due_nonneg(orig, now_ms as int, i as int);
        }
        let a: Actor = actors[i];
        let mut due: bool = false;
        match a.kind {
            ActorKind::Spawner { spawn_rate_milli, last_spawn_ms, jitter_radius_milli } => {
                let period: u64 = 1_000_000 / spawn_rate_milli;
                if a.alive && now_ms >= period && last_spawn_ms <= now_ms - period {
                    due = true;
                    let pos: Vec2I = random_point_near(
                        a.pos,
                        jitter_radius_milli,
                        jitter_radius_milli,
                    );
                    let d: Vec2I = player_pos.sub(pos);
                    let vel: Vec2I = aim_velocity(d, base_speed_milli);
                    let enemy: Actor = Actor {
                        kind: ActorKind::Enemy,
                        pos,
                        vel,
                        radius_milli: ENEMY_RADIUS_MILLI,
                        alive: true,
                    };
                    actors.push(enemy);
                    let updated: Actor = Actor {
                        kind: ActorKind::Spawner {
                            spawn_rate_milli,
                            last_spawn_ms: now_ms,
                            jitter_radius_milli,
                        },
                        ..a
                    };
                    actors.set(i, updated);
                }
            },
            _ => {},
        }
        proof {
            assert(due == spec_due_spawner(orig[i as int], now_ms as int));
            assert(spec_num_due_upto(orig, now_ms as int, i as int + 1)
                == spec_num_due_upto(orig, now_ms as int, i as int) + (if due { 1int } else { 0int }));
        }
        i = i + 1;
    }
}

} // verus!
