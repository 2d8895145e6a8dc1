//! The night-phase actor registry: a closed set of actor kinds in an arena of
//! slots keyed by index. Slots are never reused within a night; despawning
//! marks a slot dead, and the whole registry is torn down when the night ends.

use vstd::prelude::*;

use crate::economy::STAT_LIMIT_MILLI;
use crate::math::Vec2I;
use crate::math::COORD_LIMIT_MILLI;

verus! {

/// What an actor is, with the fields particular to that kind.
#[derive(Clone, Copy, PartialEq, Eq, Structural, Debug)]
pub enum ActorKind {
    /// The sleeping player: a health pool and the time of the last shot.
    Player { health_milli: i64, last_shot_ms: u64 },
    /// A pursuing enemy.
    Enemy,
    /// A projectile fired by the player; consumed by the kill it causes.
    Shot,
    /// An enemy spawner: emits one enemy every `1 / rate` seconds, jittered
    /// within `jitter_radius_milli` of its own position.
    Spawner { spawn_rate_milli: u64, last_spawn_ms: u64, jitter_radius_milli: i64 },
}

/// One registry slot.
#[derive(Clone, Copy, PartialEq, Eq, Structural, Debug)]
pub struct Actor {
    pub kind: ActorKind,
    /// World position, milli-units.
    pub pos: Vec2I,
    /// Velocity, milli-units per second.
    pub vel: Vec2I,
    /// Collision radius, milli-units; zero means the actor never collides.
    pub radius_milli: i64,
    /// Cleared when the actor despawns; dead slots are inert.
    pub alive: bool,
}

pub open spec fn kind_wf(k: ActorKind) -> bool {
    match k {
        ActorKind::Player { health_milli, .. } => {
            -STAT_LIMIT_MILLI <= health_milli <= STAT_LIMIT_MILLI
        },
        ActorKind::Spawner { spawn_rate_milli, jitter_radius_milli, .. } => {
            spawn_rate_milli >= 1 && 0 <= jitter_radius_milli <= COORD_LIMIT_MILLI
        },
        _ => true,
    }
}

pub open spec fn actor_wf(a: Actor) -> bool {
    &&& a.pos.spec_in_bounds()
    &&& a.vel.spec_in_bounds()
    &&& 0 <= a.radius_milli <= COORD_LIMIT_MILLI
    &&& kind_wf(a.kind)
}

pub open spec fn registry_wf(s: Seq<Actor>) -> bool {
    forall|i: int| 0 <= i < s.len() ==> actor_wf(#[trigger] s[i])
}

/// During a night the player is always the first slot, and no other slot is
/// a player.
pub open spec fn night_registry_wf(s: Seq<Actor>) -> bool {
    &&& registry_wf(s)
    &&& s.len() >= 1
    &&& s[0].alive
    &&& s[0].kind is Player
    &&& forall|i: int| 1 <= i < s.len() ==> !((#[trigger] s[i]).kind is Player)
}

pub open spec fn spec_is_live_enemy(a: Actor) -> bool {
    a.alive && a.kind is Enemy
}

pub open spec fn spec_player_health(s: Seq<Actor>) -> int {
    match s[0].kind {
        ActorKind::Player { health_milli, .. } => health_milli as int,
        _ => 0,
    }
}

pub open spec fn spec_player_last_shot(s: Seq<Actor>) -> int {
    match s[0].kind {
        ActorKind::Player { last_shot_ms, .. } => last_shot_ms as int,
        _ => 0,
    }
}

impl Actor {
    pub fn is_live_enemy(&self) -> (r: bool)
        ensures
            r == spec_is_live_enemy(*self),
    {
        self.alive && matches!(self.kind, ActorKind::Enemy)
    }
}

} // verus!
