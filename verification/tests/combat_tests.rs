use bad_nights_sleep::actors::{Actor, ActorKind};
use bad_nights_sleep::combat::{resolve_collisions, CollisionEvent};
use bad_nights_sleep::math::Vec2I;
use bad_nights_sleep::player::{closest_live_enemy, player_dead, player_shoot};

fn player(health: i64, last_shot: u64) -> Actor {
    Actor {
        kind: ActorKind::Player { health_milli: health, last_shot_ms: last_shot },
        pos: Vec2I { x: 0, y: 0 },
        vel: Vec2I { x: 0, y: 0 },
        radius_milli: 12_500,
        alive: true,
    }
}

fn enemy_at(x: i64, y: i64) -> Actor {
    Actor {
        kind: ActorKind::Enemy,
        pos: Vec2I { x, y },
        vel: Vec2I { x: 0, y: 0 },
        radius_milli: 7_000,
        alive: true,
    }
}

fn shot_at(x: i64, y: i64) -> Actor {
    Actor {
        kind: ActorKind::Shot,
        pos: Vec2I { x, y },
        vel: Vec2I { x: 0, y: 0 },
        radius_milli: 3_000,
        alive: true,
    }
}

fn health_of(a: &Actor) -> i64 {
    match a.kind {
        ActorKind::Player { health_milli, .. } => health_milli,
        _ => panic!("not a player"),
    }
}

#[test]
fn kill_removes_enemy_and_shot_and_credits_reward() {
    let mut actors = vec![player(5_000, 0), enemy_at(10_000, 0), shot_at(9_000, 0)];
    let mut unsafe_rest: u32 = 3;
    let events = vec![CollisionEvent { a: 1, b: 2 }];
    let vfx = resolve_collisions(&mut actors, &mut unsafe_rest, &events);
    assert!(!actors[1].alive);
    assert!(!actors[2].alive);
    assert_eq!(unsafe_rest, 8);
    assert_eq!(vfx.len(), 1);
    assert_eq!(vfx[0].pos, Vec2I { x: 10_000, y: 0 });
    assert_eq!(vfx[0].duration_ms, 500);
    assert_eq!(health_of(&actors[0]), 5_000);
}

#[test]
fn kill_works_with_sides_swapped() {
    let mut actors = vec![player(5_000, 0), enemy_at(10_000, 0), shot_at(9_000, 0)];
    let mut unsafe_rest: u32 = 0;
    let events = vec![CollisionEvent { a: 2, b: 1 }];
    resolve_collisions(&mut actors, &mut unsafe_rest, &events);
    assert!(!actors[1].alive);
    assert!(!actors[2].alive);
    assert_eq!(unsafe_rest, 5);
}

#[test]
fn player_contact_damages_player_and_enemy_survives() {
    let mut actors = vec![player(5_000, 0), enemy_at(10_000, 0)];
    let mut unsafe_rest: u32 = 0;
    let events = vec![CollisionEvent { a: 0, b: 1 }];
    let vfx = resolve_collisions(&mut actors, &mut unsafe_rest, &events);
    assert_eq!(health_of(&actors[0]), 4_000);
    assert!(actors[1].alive);
    assert_eq!(unsafe_rest, 0);
    assert!(vfx.is_empty());
}

#[test]
fn repeated_contacts_stack_damage() {
    let mut actors = vec![player(2_000, 0), enemy_at(10_000, 0)];
    let mut unsafe_rest: u32 = 0;
    let events = vec![CollisionEvent { a: 0, b: 1 }, CollisionEvent { a: 1, b: 0 }];
    resolve_collisions(&mut actors, &mut unsafe_rest, &events);
    assert_eq!(health_of(&actors[0]), 0);
    assert!(actors[1].alive);
}

#[test]
fn duplicate_kill_event_is_a_noop() {
    let mut actors = vec![player(5_000, 0), enemy_at(10_000, 0), shot_at(9_000, 0)];
    let mut unsafe_rest: u32 = 0;
    let events = vec![CollisionEvent { a: 1, b: 2 }, CollisionEvent { a: 1, b: 2 }];
    let vfx = resolve_collisions(&mut actors, &mut unsafe_rest, &events);
    assert_eq!(unsafe_rest, 5);
    assert_eq!(vfx.len(), 1);
}

#[test]
fn stale_and_out_of_range_events_are_noops() {
    let mut dead_enemy = enemy_at(10_000, 0);
    dead_enemy.alive = false;
    let mut actors = vec![player(5_000, 0), dead_enemy];
    let before = actors.clone();
    let mut unsafe_rest: u32 = 0;
    let events = vec![
        CollisionEvent { a: 0, b: 1 },
        CollisionEvent { a: 0, b: 99 },
        CollisionEvent { a: 7, b: 9 },
    ];
    let vfx = resolve_collisions(&mut actors, &mut unsafe_rest, &events);
    assert_eq!(actors, before);
    assert_eq!(unsafe_rest, 0);
    assert!(vfx.is_empty());
}

#[test]
fn enemy_pairs_and_player_shot_pairs_are_ignored() {
    let mut actors = vec![player(5_000, 0), enemy_at(1, 0), enemy_at(2, 0), shot_at(3, 0)];
    let before = actors.clone();
    let mut unsafe_rest: u32 = 0;
    let events = vec![CollisionEvent { a: 1, b: 2 }, CollisionEvent { a: 0, b: 3 }];
    resolve_collisions(&mut actors, &mut unsafe_rest, &events);
    assert_eq!(actors, before);
    assert_eq!(unsafe_rest, 0);
}

#[test]
fn player_dead_on_exhausted_health() {
    let actors = vec![player(0, 0)];
    assert!(player_dead(&actors));
    let actors2 = vec![player(1, 0)];
    assert!(!player_dead(&actors2));
}

#[test]
fn player_dead_when_out_of_bounds() {
    let mut p = player(5_000, 0);
    p.pos = Vec2I { x: 2_000_001, y: 0 };
    assert!(player_dead(&vec![p]));
    let mut q = player(5_000, 0);
    q.pos = Vec2I { x: 2_000_000, y: 0 };
    assert!(!player_dead(&vec![q]));
}

#[test]
fn closest_enemy_prefers_nearest_then_earliest() {
    let actors = vec![
        player(5_000, 0),
        enemy_at(50_000, 0),
        enemy_at(10_000, 0),
        enemy_at(10_000, 0),
    ];
    let r = closest_live_enemy(&actors, 4, Vec2I { x: 0, y: 0 });
    assert_eq!(r, Some(2));
}

#[test]
fn closest_enemy_ignores_dead_and_reports_none() {
    let mut e = enemy_at(10, 0);
    e.alive = false;
    let actors = vec![player(5_000, 0), e];
    assert_eq!(closest_live_enemy(&actors, 2, Vec2I { x: 0, y: 0 }), None);
}

#[test]
fn player_shoot_spawns_shot_at_closest_in_range() {
    let mut actors = vec![player(5_000, 0), enemy_at(50_000, 0)];
    let r = player_shoot(&mut actors, 2, 2_000, 1_000, 100_000);
    assert_eq!(r, Some(1));
    assert_eq!(actors.len(), 3);
    let shot = actors[2];
    assert!(matches!(shot.kind, ActorKind::Shot));
    assert_eq!(shot.pos, Vec2I { x: 0, y: 0 });
    assert_eq!(shot.vel, Vec2I { x: 1_000_000, y: 0 });
    assert_eq!(shot.radius_milli, 3_000);
    match actors[0].kind {
        ActorKind::Player { last_shot_ms, .. } => assert_eq!(last_shot_ms, 2_000),
        _ => panic!("player slot lost"),
    }
}

#[test]
fn player_shoot_honors_cooldown() {
    let mut actors = vec![player(5_000, 1_500), enemy_at(50_000, 0)];
    let r = player_shoot(&mut actors, 2, 2_000, 1_000, 100_000);
    assert_eq!(r, None);
    assert_eq!(actors.len(), 2);
    match actors[0].kind {
        ActorKind::Player { last_shot_ms, .. } => assert_eq!(last_shot_ms, 1_500),
        _ => panic!("player slot lost"),
    }
}

#[test]
fn player_shoot_out_of_range_arms_but_does_not_fire() {
    let mut actors = vec![player(5_000, 0), enemy_at(150_000, 0)];
    let r = player_shoot(&mut actors, 2, 2_000, 1_000, 100_000);
    assert_eq!(r, None);
    assert_eq!(actors.len(), 2);
    match actors[0].kind {
        ActorKind::Player { last_shot_ms, .. } => assert_eq!(last_shot_ms, 2_000),
        _ => panic!("player slot lost"),
    }
}

#[test]
fn player_shoot_without_enemies_does_nothing() {
    let mut actors = vec![player(5_000, 0)];
    let r = player_shoot(&mut actors, 1, 2_000, 1_000, 100_000);
    assert_eq!(r, None);
    assert_eq!(actors.len(), 1);
    match actors[0].kind {
        ActorKind::Player { last_shot_ms, .. } => assert_eq!(last_shot_ms, 0),
        _ => panic!("player slot lost"),
    }
}

#[test]
fn resolving_no_events_changes_nothing() {
    let mut actors = vec![player(5_000, 0), enemy_at(10_000, 0)];
    let before = actors.clone();
    let mut unsafe_rest: u32 = 7;
    let vfx = resolve_collisions(&mut actors, &mut unsafe_rest, &Vec::new());
    assert_eq!(actors, before);
    assert_eq!(unsafe_rest, 7);
    assert!(vfx.is_empty());
}
