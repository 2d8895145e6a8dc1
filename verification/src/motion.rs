//! A minimal stand-in for the physics collaborator: forward integration of
//! velocities and circle-overlap collision detection between enemies and the
//! player or shots. The simulation core only issues velocities and consumes
//! the pairs this reports; a real physics engine can replace it wholesale.

use vstd::prelude::*;

use crate::actors::{registry_wf, Actor, ActorKind};
use crate::combat::CollisionEvent;
use crate::math::{clamp_i64, div_scale, spec_clamp, spec_dist2, spec_div_scale, Vec2I,
    COORD_LIMIT_MILLI};

verus! {

/// An actor after one tick of motion: each position component advances by
/// `velocity * dt / 1000`, clipped to the world bounds; dead slots rest.
pub open spec fn spec_move_actor(a: Actor, dt_ms: int) -> Actor {
    if a.alive {
        Actor {
            pos: Vec2I {
                x: spec_clamp(
                    a.pos.x + spec_div_scale(a.vel.x as int, dt_ms, 1000),
                    -COORD_LIMIT_MILLI as int,
                    COORD_LIMIT_MILLI as int,
                ) as i64,
                y: spec_clamp(
                    a.pos.y + spec_div_scale(a.vel.y as int, dt_ms, 1000),
                    -COORD_LIMIT_MILLI as int,
                    COORD_LIMIT_MILLI as int,
                ) as i64,
            },
            ..a
        }
    } else {
        a
    }
}

/// One tick of motion for every live actor.
pub fn integrate_motion(actors: &mut Vec<Actor>, dt_ms: u64)
    requires
        registry_wf(old(actors)@),
        dt_ms <= 3_600_000,
    ensures
        final(actors)@.len() == old(actors)@.len(),
        forall|i: int|
            0 <= i < old(actors)@.len() ==> final(actors)@[i] == spec_move_actor(
                #[trigger] old(actors)@[i],
                dt_ms as int,
            ),
        registry_wf(final(actors)@),
{
    let ghost orig: Seq<Actor> = actors@;
    let n: usize = actors.len();
    let mut i: usize = 0;
    while i < n
        invariant
            registry_wf(orig),
            dt_ms <= 3_600_000,
            n == orig.len(),
            0 <= i <= n,
            actors@.len() == n,
            forall|k: int|
                0 <= k < i ==> actors@[k] == spec_move_actor(#[trigger] orig[k], dt_ms as int),
            forall|k: int| i <= k < n ==> actors@[k] == orig[k],
            registry_wf(actors@),
        decreases n - i,
    {
        let a: Actor = actors[i];
        if a.alive {
            proof {
                assert((if a.vel.x >= 0 { a.vel.x as int } else { -(a.vel.x as int) }) * dt_ms
                    <= 100_000_000int * 3_600_000int) by (nonlinear_arith)
                    requires
                        -100_000_000 <= a.vel.x <= 100_000_000,
                        0 <= dt_ms <= 3_600_000,
                ;
                assert((if a.vel.y >= 0 { a.vel.y as int } else { -(a.vel.y as int) }) * dt_ms
                    <= 100_000_000int * 3_600_000int) by (nonlinear_arith)
                    requires
                        -100_000_000 <= a.vel.y <= 100_000_000,
                        0 <= dt_ms <= 3_600_000,
                ;
            }
            let dx: i64 = div_scale(a.vel.x, dt_ms, 1000);
            let dy: i64 = div_scale(a.vel.y, dt_ms, 1000);
            let pos: Vec2I = Vec2I {
                x: clamp_i64(a.pos.x + dx, -COORD_LIMIT_MILLI, COORD_LIMIT_MILLI),
                y: clamp_i64(a.pos.y + dy, -COORD_LIMIT_MILLI, COORD_LIMIT_MILLI),
            };
            actors.set(i, Actor { pos, ..a });
        }
        i = i + 1;
    }
}

/// Two slots collide when both are alive with positive radii, one side is
/// an enemy, the other is the player or a shot, and their circles overlap.
/// Enemies pass through each other, as do the player and shots.
pub open spec fn spec_colliding(s: Seq<Actor>, i: int, j: int) -> bool {
    &&& s[i].alive && s[j].alive
    &&& s[i].radius_milli > 0 && s[j].radius_milli > 0
    &&& ((s[i].kind is Enemy && (s[j].kind is Player || s[j].kind is Shot)) || (s[j].kind
        is Enemy && (s[i].kind is Player || s[i].kind is Shot)))
    &&& spec_dist2(s[i].pos, s[j].pos) <= (s[i].radius_milli + s[j].radius_milli) * (
    s[i].radius_milli + s[j].radius_milli)
}

/// Report every colliding pair, each exactly once, in ascending index
/// order.
pub fn detect_collisions(actors: &Vec<Actor>) -> (r: Vec<CollisionEvent>)
    requires
        registry_wf(actors@),
    ensures
        forall|k: int|
            0 <= k < r@.len() ==> {
                &&& (#[trigger] r@[k]).a < r@[k].b < actors@.len()
                &&& spec_colliding(actors@, r@[k].a as int, r@[k].b as int)
            },
        forall|i: int, j: int|
            0 <= i < j < actors@.len() && spec_colliding(actors@, i, j) ==> exists|k: int|
                0 <= k < r@.len() && (#[trigger] r@[k]) == (CollisionEvent {
                    a: i as usize,
                    b: j as usize,
                }),
        forall|k1: int, k2: int|
            0 <= k1 < k2 < r@.len() ==> ((#[trigger] r@[k1]).a < (#[trigger] r@[k2]).a || (
            r@[k1].a == r@[k2].a && r@[k1].b < r@[k2].b)),
{
    let n: usize = actors.len();
    let mut r: Vec<CollisionEvent> = Vec::new();
    let mut i: usize = 0;
    while i < n
        invariant
            registry_wf(actors@),
            n == actors@.len(),
            0 <= i <= n,
            forall|k: int|
                0 <= k < r@.len() ==> {
                    &&& (#[trigger] r@[k]).a < r@[k].b < n
                    &&& r@[k].a < i
                    &&& spec_colliding(actors@, r@[k].a as int, r@[k].b as int)
                },
            forall|p: int, q: int|
                0 <= p < q < n && p < i && spec_colliding(actors@, p, q) ==> exists|k: int|
                    0 <= k < r@.len() && (#[trigger] r@[k]) == (CollisionEvent {
                        a: p as usize,
                        b: q as usize,
                    }),
            forall|k1: int, k2: int|
                0 <= k1 < k2 < r@.len() ==> ((#[trigger] r@[k1]).a < (#[trigger] r@[k2]).a || (
                r@[k1].a == r@[k2].a && r@[k1].b < r@[k2].b)),
        decreases n - i,
    {
        let a: Actor = actors[i];
        let mut j: usize = i + 1;
        while j < n
            invariant
                registry_wf(actors@),
                n == actors@.len(),
                0 <= i < n,
                i < j <= n,
                a == actors@[i as int],
                forall|k: int|
                    0 <= k < r@.len() ==> {
                        &&& (#[trigger] r@[k]).a < r@[k].b < n
                        &&& (r@[k].a < i || (r@[k].a == i && r@[k].b < j))
                        &&& spec_colliding(actors@, r@[k].a as int, r@[k].b as int)
                    },
                forall|p: int, q: int|
                    0 <= p < q < n && (p < i || (p == i && q < j)) && spec_colliding(
                        actors@,
                        p,
                        q,
                    ) ==> exists|k: int|
                        0 <= k < r@.len() && (#[trigger] r@[k]) == (CollisionEvent {
                            a: p as usize,
                            b: q as usize,
                        }),
                forall|k1: int, k2: int|
                    0 <= k1 < k2 < r@.len() ==> ((#[trigger] r@[k1]).a < (#[trigger] r@[k2]).a
                        || (r@[k1].a == r@[k2].a && r@[k1].b < r@[k2].b)),
            decreases n - j,
        {
            let b: Actor = actors[j];
            if a.alive && b.alive && a.radius_milli > 0 && b.radius_milli > 0 {
                let kinds_ok: bool = (matches!(a.kind, ActorKind::Enemy) && (matches!(
                    b.kind,
                    ActorKind::Player { .. },
                ) || matches!(b.kind, ActorKind::Shot))) || (matches!(b.kind, ActorKind::Enemy)
                    && (matches!(a.kind, ActorKind::Player { .. }) || matches!(
                    a.kind,
                    ActorKind::Shot,
                )));
                if kinds_ok {
                    let d2: u64 = crate::math::dist2(a.pos, b.pos);
                    let rsum: i64 = a.radius_milli + b.radius_milli;
                    proof {
                        assert((rsum as int) * (rsum as int) <= 200_000_000int
                            * 200_000_000int) by (nonlinear_arith)
                            requires
                                0 <= rsum <= 200_000_000,
                        ;
                    }
                    let r2: u64 = (rsum as u64) * (rsum as u64);
                    if d2 <= r2 {
                        let ghost r_prev: Seq<CollisionEvent> = r@;
                        r.push(CollisionEvent { a: i, b: j });
                        proof {
                            assert(r@ == r_prev.push(CollisionEvent { a: i, b: j }));
                            assert forall|p: int, q: int|
                                0 <= p < q < n && (p < i as int || (p == i as int && q <= j as int))
                                    && spec_colliding(actors@, p, q) implies exists|k: int|
                                0 <= k < r@.len() && (#[trigger] r@[k]) == (CollisionEvent {
                                    a: p as usize,
                                    b: q as usize,
                                }) by {
                                if p == i as int && q == j as int {
                                    assert(r@[r@.len() - 1] == (CollisionEvent { a: i, b: j }));
                                } else {
                                    let k = choose|k: int|
                                        0 <= k < r_prev.len() && (#[trigger] r_prev[k])
                                            == (CollisionEvent { a: p as usize, b: q as usize });
                                    assert(r@[k] == r_prev[k]);
                                }
                            }
                        }
                    }
                }
            }
            j = j + 1;
        }
        i = i + 1;
    }
    r
}

} // verus!
