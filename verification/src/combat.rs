//! The collision-to-outcome pipeline: each physics-reported collision pair
//! is classified once and resolved immediately. A shot hitting an enemy is a
//! kill: both despawn, a death effect is requested, and the night's rest
//! reward is credited. Direct enemy-player contact damages the player and
//! leaves the enemy alive. Stale references are benign no-ops.

use vstd::prelude::*;

use crate::actors::{actor_wf, registry_wf, Actor, ActorKind};
use crate::economy::{spec_sat_add_u32, STAT_LIMIT_MILLI};
use crate::math::Vec2I;

verus! {

/// Rest credited for each kill during a night.
pub const KILL_REWARD: u32 = 5;

/// Health lost by the player for each direct enemy contact, milli-units.
pub const CONTACT_DAMAGE_MILLI: i64 = 1_000;

/// How long a requested death effect plays, milliseconds.
pub const VFX_DURATION_MS: u64 = 500;

/// One collision-start pair reported by the physics collaborator, as
/// registry indices. Pairs carry no ordering guarantee.
#[derive(Clone, Copy, PartialEq, Eq, Structural, Debug)]
pub struct CollisionEvent {
    pub a: usize,
    pub b: usize,
}

/// A fire-and-forget request to play the death effect at a position.
#[derive(Clone, Copy, PartialEq, Eq, Structural, Debug)]
pub struct VfxRequest {
    pub pos: Vec2I,
    pub duration_ms: u64,
}

/// What one collision pair amounts to; mutually exclusive by construction.
pub enum CollisionClass {
    Kill { enemy: int, shot: int },
    Damage { enemy: int, player: int },
    Ignore,
}

/// Classify a pair against the registry: a pair with a live enemy on one
/// side kills when the other side is a shot and damages the player when the
/// other side is the player; anything else, including an index out of range
/// or a dead slot, is ignored.
pub open spec fn spec_classify(s: Seq<Actor>, ev: CollisionEvent) -> CollisionClass {
    if ev.a >= s.len() || ev.b >= s.len() {
        CollisionClass::Ignore
    } else if !s[ev.a as int].alive || !s[ev.b as int].alive {
        CollisionClass::Ignore
    } else if s[ev.a as int].kind is Enemy && s[ev.b as int].kind is Shot {
        CollisionClass::Kill { enemy: ev.a as int, shot: ev.b as int }
    } else if s[ev.a as int].kind is Shot && s[ev.b as int].kind is Enemy {
        CollisionClass::Kill { enemy: ev.b as int, shot: ev.a as int }
    } else if s[ev.a as int].kind is Enemy && s[ev.b as int].kind is Player {
        CollisionClass::Damage { enemy: ev.a as int, player: ev.b as int }
    } else if s[ev.a as int].kind is Player && s[ev.b as int].kind is Enemy {
        CollisionClass::Damage { enemy: ev.b as int, player: ev.a as int }
    } else {
        CollisionClass::Ignore
    }
}

/// A player actor after one contact: the damage comes off the health pool,
/// floored at the stat limit.
pub open spec fn spec_damage_player(a: Actor) -> Actor {
    match a.kind {
        ActorKind::Player { health_milli, last_shot_ms } => Actor {
            kind: ActorKind::Player {
                health_milli: (if health_milli - CONTACT_DAMAGE_MILLI < -STAT_LIMIT_MILLI {
                    -STAT_LIMIT_MILLI as int
                } else {
                    health_milli - CONTACT_DAMAGE_MILLI
                }) as i64,
                last_shot_ms,
            },
            ..a
        },
        _ => a,
    }
}

/// The running state of collision resolution: the registry, the night's
/// unbanked rest, and the death effects requested so far.
pub struct ResolveOutcome {
    pub reg: Seq<Actor>,
    pub unsafe_rest: int,
    pub vfx: Seq<VfxRequest>,
}

/// Resolve a single pair against the running state. Side effects apply
/// immediately: later pairs of the same tick see earlier despawns, so a pair
/// naming an already-removed actor is a no-op rather than an error.
pub open spec fn spec_resolve_one(o: ResolveOutcome, ev: CollisionEvent) -> ResolveOutcome {
    match spec_classify(o.reg, ev) {
        CollisionClass::Kill { enemy, shot } => ResolveOutcome {
            reg: o.reg.update(enemy, Actor { alive: false, ..o.reg[enemy] }).update(
                shot,
                Actor { alive: false, ..o.reg[shot] },
            ),
            unsafe_rest: spec_sat_add_u32(o.unsafe_rest, KILL_REWARD as int),
            vfx: o.vfx.push(
                VfxRequest { pos: o.reg[enemy].pos, duration_ms: VFX_DURATION_MS },
            ),
        },
        CollisionClass::Damage { enemy: _, player } => ResolveOutcome {
            reg: o.reg.update(player, spec_damage_player(o.reg[player])),
            ..o
        },
        CollisionClass::Ignore => o,
    }
}

/// Resolution of the first `i` pairs, in report order.
pub open spec fn spec_resolve_upto(
    s: Seq<Actor>,
    ur: int,
    evs: Seq<CollisionEvent>,
    i: int,
) -> ResolveOutcome
    decreases i,
{
    if i <= 0 {
        ResolveOutcome { reg: s, unsafe_rest: ur, vfx: Seq::empty() }
    } else {
        spec_resolve_one(spec_resolve_upto(s, ur, evs, i - 1), evs[i - 1])
    }
}

/// Resolution of a whole tick's pairs.
pub open spec fn spec_resolve(s: Seq<Actor>, ur: int, evs: Seq<CollisionEvent>) -> ResolveOutcome {
    spec_resolve_upto(s, ur, evs, evs.len() as int)
}

/// Resolution never moves an actor, never changes a radius, never revives a
/// slot, and only adds to the unbanked rest; the registry stays well-formed.
pub proof fn lemma_resolve_preserves(s: Seq<Actor>, ur: int, evs: Seq<CollisionEvent>, i: int)
    requires
        registry_wf(s),
        0 <= ur <= u32::MAX,
    ensures
        spec_resolve_upto(s, ur, evs, i).reg.len() == s.len(),
        forall|k: int|
            0 <= k < s.len() ==> (#[trigger] spec_resolve_upto(s, ur, evs, i).reg[k]).pos
                == s[k].pos && spec_resolve_upto(s, ur, evs, i).reg[k].vel == s[k].vel
                && spec_resolve_upto(s, ur, evs, i).reg[k].radius_milli == s[k].radius_milli,
        forall|k: int|
            0 <= k < s.len() && !s[k].alive ==> !(#[trigger] spec_resolve_upto(
                s,
                ur,
                evs,
                i,
            ).reg[k]).alive,
        registry_wf(spec_resolve_upto(s, ur, evs, i).reg),
        ur <= spec_resolve_upto(s, ur, evs, i).unsafe_rest <= u32::MAX,
        forall|k: int|
            0 <= k < s.len() ==> ((#[trigger] spec_resolve_upto(s, ur, evs, i).reg[k]).kind
                is Player) == (s[k].kind is Player),
        forall|k: int|
            0 <= k < s.len() && s[k].kind is Player ==> (#[trigger] spec_resolve_upto(
                s,
                ur,
                evs,
                i,
            ).reg[k]).alive == s[k].alive,
        forall|k: int|
            0 <= k < s.len() && !(s[k].kind is Player) ==> (#[trigger] spec_resolve_upto(
                s,
                ur,
                evs,
                i,
            ).reg[k]).kind == s[k].kind,
    decreases i,
{
    if i > 0 {
        lemma_resolve_preserves(s, ur, evs, i - 1);
        let o = spec_resolve_upto(s, ur, evs, i - 1);
        let o2 = spec_resolve_one(o, evs[i - 1]);
        match spec_classify(o.reg, evs[i - 1]) {
            CollisionClass::Kill { enemy, shot } => {
                assert(forall|k: int|
                    0 <= k < o.reg.len() ==> actor_wf(o.reg[k]) ==> actor_wf(
                        #[trigger] o2.reg[k],
                    ));
            },
            CollisionClass::Damage { enemy: _, player } => {
                assert(actor_wf(o2.reg[player]));
            },
            CollisionClass::Ignore => {},
        }
    }
}

/// Consume one tick's collision pairs, applying kills, rewards and player
/// damage immediately, and collect the death-effect requests.
pub fn resolve_collisions(
    actors: &mut Vec<Actor>,
    unsafe_rest: &mut u32,
    events: &Vec<CollisionEvent>,
) -> (vfx: Vec<VfxRequest>)
    requires
        registry_wf(old(actors)@),
    ensures
        final(actors)@ == spec_resolve(old(actors)@, *old(unsafe_rest) as int, events@).reg,
        *final(unsafe_rest) as int == spec_resolve(
            old(actors)@,
            *old(unsafe_rest) as int,
            events@,
        ).unsafe_rest,
        vfx@ == spec_resolve(old(actors)@, *old(unsafe_rest) as int, events@).vfx,
        final(actors)@.len() == old(actors)@.len(),
        *final(unsafe_rest) >= *old(unsafe_rest),
        registry_wf(final(actors)@),
{
    let ghost orig: Seq<Actor> = actors@;
    let ghost ur0: int = *unsafe_rest as int;
    let mut vfx: Vec<VfxRequest> = Vec::new();
    let n: usize = events.len();
    let mut i: usize = 0;
    while i < n
        invariant
            registry_wf(orig),
            0 <= ur0 <= u32::MAX,
            n == events@.len(),
            0 <= i <= n,
            actors@ == spec_resolve_upto(orig, ur0, events@, i as int).reg,
            *unsafe_rest as int == spec_resolve_upto(orig, ur0, events@, i as int).unsafe_rest,
            vfx@ == spec_resolve_upto(orig, ur0, events@, i as int).vfx,
        decreases n - i,
    {
        proof {
            lemma_resolve_preserves(orig, ur0, events@, i as int);
        }
        let ev: CollisionEvent = events[i];
        if ev.a < actors.len() && ev.b < actors.len() {
            let aa: Actor = actors[ev.a];
            let bb: Actor = actors[ev.b];
            if aa.alive && bb.alive {
                let mut enemy: usize = 0;
                let mut other: usize = 0;
                let mut has_enemy: bool = false;
                if matches!(aa.kind, ActorKind::Enemy) {
                    enemy = ev.a;
                    other = ev.b;
                    has_enemy = true;
                } else if matches!(bb.kind, ActorKind::Enemy) {
                    enemy = ev.b;
                    other = ev.a;
                    has_enemy = true;
                }
                if has_enemy {
                    let other_actor: Actor = actors[other];
                    if matches!(other_actor.kind, ActorKind::Shot) {
                        let enemy_actor: Actor = actors[enemy];
                        actors.set(enemy, Actor { alive: false, ..enemy_actor });
                        let shot_actor: Actor = actors[other];
                        actors.set(other, Actor { alive: false, ..shot_actor });
                        *unsafe_rest = crate::economy::sat_add_u32(*unsafe_rest, KILL_REWARD);
                        vfx.push(
                            VfxRequest { pos: enemy_actor.pos, duration_ms: VFX_DURATION_MS },
                        );
                    } else if matches!(other_actor.kind, ActorKind::Player { .. }) {
                        let damaged: Actor = damage_player(other_actor);
                        actors.set(other, damaged);
                    }
                }
            }
        }
        proof {
            let o = spec_resolve_upto(orig, ur0, events@, i as int);
            assert(spec_resolve_upto(orig, ur0, events@, i as int + 1) == spec_resolve_one(
                o,
                events@[i as int],
            ));
        }
        i = i + 1;
    }
    proof {
        lemma_resolve_preserves(orig, ur0, events@, n as int);
    }
    vfx
}

/// Apply one contact's damage to a player actor.
fn damage_player(a: Actor) -> (r: Actor)
    requires
        actor_wf(a),
    ensures
        r == spec_damage_player(a),
{
    match a.kind {
        ActorKind::Player { health_milli, last_shot_ms } => {
            let h: i64 = if health_milli - CONTACT_DAMAGE_MILLI < -STAT_LIMIT_MILLI {
                -STAT_LIMIT_MILLI
            } else {
                health_milli - CONTACT_DAMAGE_MILLI
            };
            Actor { kind: ActorKind::Player { health_milli: h, last_shot_ms }, ..a }
        },
        _ => a,
    }
}

/// A kill collision always removes the enemy, consumes the shot, requests
/// one death effect at the enemy's position, and credits the kill reward; a
/// direct player contact always costs the player one contact's damage and
/// leaves the enemy alive.
pub proof fn lemma_combat_outcomes(o: ResolveOutcome, ev: CollisionEvent)
    ensures
        spec_classify(o.reg, ev) matches CollisionClass::Kill { enemy, shot } ==> {
            let o2 = spec_resolve_one(o, ev);
            &&& !o2.reg[enemy].alive
            &&& !o2.reg[shot].alive
            &&& o2.unsafe_rest == spec_sat_add_u32(o.unsafe_rest, KILL_REWARD as int)
            &&& o2.vfx == o.vfx.push(
                VfxRequest { pos: o.reg[enemy].pos, duration_ms: VFX_DURATION_MS },
            )
        },
        spec_classify(o.reg, ev) matches CollisionClass::Damage { enemy, player } ==> {
            let o2 = spec_resolve_one(o, ev);
            &&& o2.reg[enemy].alive == o.reg[enemy].alive
            &&& o2.reg[enemy].alive
            &&& o2.reg[player] == spec_damage_player(o.reg[player])
            &&& o2.unsafe_rest == o.unsafe_rest
        },
{
    match spec_classify(o.reg, ev) {
        CollisionClass::Kill { enemy, shot } => {
            assert(enemy != shot);
        },
        CollisionClass::Damage { enemy, player } => {
            assert(enemy != player);
        },
        CollisionClass::Ignore => {},
    }
}

} // verus!
