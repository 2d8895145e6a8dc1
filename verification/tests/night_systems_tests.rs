use bad_nights_sleep::actors::{Actor, ActorKind};
use bad_nights_sleep::player::steer_player;
use bad_nights_sleep::combat::CollisionEvent;
use bad_nights_sleep::math::Vec2I;
use bad_nights_sleep::motion::{detect_collisions, integrate_motion};
use bad_nights_sleep::pursuit::{pursue_all, pursue_velocity};
use bad_nights_sleep::spawner::{run_spawners, spawn_wave_spawners};
use bad_nights_sleep::timed::tick_timed;

fn player_actor() -> Actor {
    Actor {
        kind: ActorKind::Player { health_milli: 5_000, last_shot_ms: 0 },
        pos: Vec2I { x: 0, y: 0 },
        vel: Vec2I { x: 0, y: 0 },
        radius_milli: 12_500,
        alive: true,
    }
}

fn spawner_at(x: i64, y: i64, rate: u64, last: u64) -> Actor {
    Actor {
        kind: ActorKind::Spawner {
            spawn_rate_milli: rate,
            last_spawn_ms: last,
            jitter_radius_milli: 10_000,
        },
        pos: Vec2I { x, y },
        vel: Vec2I { x: 0, y: 0 },
        radius_milli: 0,
        alive: true,
    }
}

fn enemy_at(x: i64, y: i64) -> Actor {
    Actor {
        kind: ActorKind::Enemy,
        pos: Vec2I { x, y },
        vel: Vec2I { x: 0, y: 0 },
        radius_milli: 7_000,
        alive: true,
    }
}

#[test]
fn spawner_emits_on_schedule() {
    // rate 1000 milli-spawns per second: one enemy every 1000 ms
    let mut actors = vec![player_actor(), spawner_at(100_000, 0, 1_000, 0)];
    run_spawners(&mut actors, 2, 500, 250_000, Vec2I { x: 0, y: 0 });
    assert_eq!(actors.len(), 2);

    run_spawners(&mut actors, 2, 1_000, 250_000, Vec2I { x: 0, y: 0 });
    assert_eq!(actors.len(), 3);
    assert!(matches!(actors[2].kind, ActorKind::Enemy));
    match actors[1].kind {
        ActorKind::Spawner { last_spawn_ms, .. } => assert_eq!(last_spawn_ms, 1_000),
        _ => panic!("spawner slot lost"),
    }

    run_spawners(&mut actors, 2, 1_500, 250_000, Vec2I { x: 0, y: 0 });
    assert_eq!(actors.len(), 3);
    run_spawners(&mut actors, 2, 2_000, 250_000, Vec2I { x: 0, y: 0 });
    assert_eq!(actors.len(), 4);
}

#[test]
fn spawned_enemy_is_near_spawner_and_aims_at_player() {
    let mut actors = vec![player_actor(), spawner_at(100_000, 0, 1_000, 0)];
    run_spawners(&mut actors, 2, 1_000, 250_000, Vec2I { x: 0, y: 0 });
    let e = actors[2];
    assert!((e.pos.x - 100_000).abs() <= 10_000);
    assert!(e.pos.y.abs() <= 10_000);
    // the enemy flies toward the player, which sits to its left
    assert!(e.vel.x < 0);
    assert!(e.vel.x.abs() <= 250_000 && e.vel.y.abs() <= 250_000);
    assert_eq!(e.radius_milli, 7_000);
}

#[test]
fn wave_spawners_land_in_the_arena_band() {
    let mut actors = vec![player_actor()];
    let rates = vec![300, 500, 5_000];
    spawn_wave_spawners(&mut actors, &rates);
    assert_eq!(actors.len(), 4);
    for (k, a) in actors.iter().skip(1).enumerate() {
        match a.kind {
            ActorKind::Spawner { spawn_rate_milli, last_spawn_ms, jitter_radius_milli } => {
                assert_eq!(spawn_rate_milli, rates[k]);
                assert_eq!(last_spawn_ms, 0);
                assert_eq!(jitter_radius_milli, 10_000);
            },
            _ => panic!("expected a spawner"),
        }
        assert!(a.pos.x.abs() <= 750_000);
        assert!(a.pos.y.abs() <= 400_000);
        assert_eq!(a.radius_milli, 0);
    }
}

#[test]
fn pursuit_steers_toward_player_exactly() {
    // enemy 10 units to the right of the player, at rest, one second tick
    let v = pursue_velocity(
        Vec2I { x: 0, y: 0 },
        Vec2I { x: -10_000, y: 0 },
        1_000,
        300_000,
    );
    assert_eq!(v, Vec2I { x: -100_000, y: 0 });
}

#[test]
fn pursuit_clamps_to_base_speed() {
    let v = pursue_velocity(
        Vec2I { x: 250_000, y: 0 },
        Vec2I { x: 10_000, y: 0 },
        1_000,
        300_000,
    );
    // 250_000 + 100_000 exceeds the cap and is clamped back
    assert_eq!(v, Vec2I { x: 300_000, y: 0 });
}

#[test]
fn pursue_all_touches_only_live_enemies_in_range() {
    let mut actors = vec![player_actor(), enemy_at(-10_000, 0), enemy_at(10_000, 0)];
    pursue_all(&mut actors, 2, Vec2I { x: 0, y: 0 }, 300_000, 1_000);
    assert_eq!(actors[1].vel, Vec2I { x: 100_000, y: 0 });
    // the enemy past `upto` (spawned this tick) coasts
    assert_eq!(actors[2].vel, Vec2I { x: 0, y: 0 });
    assert_eq!(actors[0].vel, Vec2I { x: 0, y: 0 });
}

#[test]
fn integrate_motion_moves_by_velocity_and_delta() {
    let mut e = enemy_at(1_000, 2_000);
    e.vel = Vec2I { x: 1_000, y: -2_000 };
    let mut actors = vec![e];
    integrate_motion(&mut actors, 500);
    assert_eq!(actors[0].pos, Vec2I { x: 1_500, y: 1_000 });
}

#[test]
fn integrate_motion_skips_dead_actors_and_clips_to_world() {
    let mut dead = enemy_at(0, 0);
    dead.vel = Vec2I { x: 1_000, y: 0 };
    dead.alive = false;
    let mut runaway = enemy_at(99_999_999, 0);
    runaway.vel = Vec2I { x: 100_000_000, y: 0 };
    let mut actors = vec![dead, runaway];
    integrate_motion(&mut actors, 1_000);
    assert_eq!(actors[0].pos, Vec2I { x: 0, y: 0 });
    assert_eq!(actors[1].pos, Vec2I { x: 100_000_000, y: 0 });
}

#[test]
fn detect_collisions_finds_overlapping_enemy_player_pairs() {
    let mut actors = vec![player_actor(), enemy_at(15_000, 0), enemy_at(50_000, 0)];
    actors.push(spawner_at(0, 0, 1_000, 0));
    let events = detect_collisions(&actors);
    // player radius 12.5 + enemy radius 7 = 19.5 units; only the near enemy
    // overlaps; the spawner has no collider.
    assert_eq!(events, vec![CollisionEvent { a: 0, b: 1 }]);
}

#[test]
fn detect_collisions_pairs_shots_with_enemies_only() {
    let shot = Actor {
        kind: ActorKind::Shot,
        pos: Vec2I { x: 16_000, y: 0 },
        vel: Vec2I { x: 0, y: 0 },
        radius_milli: 3_000,
        alive: true,
    };
    let actors = vec![player_actor(), enemy_at(20_000, 0), shot];
    let events = detect_collisions(&actors);
    assert_eq!(events, vec![CollisionEvent { a: 1, b: 2 }]);
}

#[test]
fn detect_collisions_ignores_dead_actors() {
    let mut e = enemy_at(15_000, 0);
    e.alive = false;
    let actors = vec![player_actor(), e];
    assert!(detect_collisions(&actors).is_empty());
}

#[test]
fn timers_count_down_and_expire() {
    let mut timers: Vec<i64> = vec![500, 100, 1_000, 200];
    tick_timed(&mut timers, 200);
    assert_eq!(timers, vec![300, 800, 0]);
    tick_timed(&mut timers, 400);
    assert_eq!(timers, vec![400]);
}

#[test]
fn steer_player_accelerates_then_damps() {
    let v = steer_player(Vec2I { x: 0, y: 0 }, 1, 0, 300_000, 1_000);
    assert_eq!(v, Vec2I { x: 276_000, y: 0 });
}

#[test]
fn steer_player_damps_when_coasting() {
    let v = steer_player(Vec2I { x: 100_000, y: -50_000 }, 0, 0, 300_000, 16);
    assert_eq!(v, Vec2I { x: 92_000, y: -46_000 });
}

#[test]
fn very_fast_spawners_spawn_every_step() {
    // a rate above one thousand spawns per second truncates to a zero
    // millisecond period: an enemy every step
    let mut actors = vec![player_actor(), spawner_at(0, 0, 2_000_000, 0)];
    run_spawners(&mut actors, 2, 1, 250_000, Vec2I { x: 0, y: 0 });
    assert_eq!(actors.len(), 3);
    run_spawners(&mut actors, 2, 2, 250_000, Vec2I { x: 0, y: 0 });
    assert_eq!(actors.len(), 4);
}
