use bad_nights_sleep::actors::{Actor, ActorKind};
use bad_nights_sleep::combat::CollisionEvent;
use bad_nights_sleep::economy::{DayVerdict, Upgrade};
use bad_nights_sleep::math::Vec2I;
use bad_nights_sleep::motion::{detect_collisions, integrate_motion};
use bad_nights_sleep::session::{GameSession, Phase};

fn no_events() -> Vec<CollisionEvent> {
    Vec::new()
}

fn upgrade(cost: u32, d_comfort: i64, d_sleep: i64) -> Upgrade {
    Upgrade {
        name: "test",
        cost,
        d_comfort_milli: d_comfort,
        d_warmth_milli: 0,
        d_hydration_milli: 0,
        d_sleep_ms: d_sleep,
    }
}

fn player_health(s: &GameSession) -> i64 {
    match s.actors[0].kind {
        ActorKind::Player { health_milli, .. } => health_milli,
        _ => panic!("no player at slot zero"),
    }
}

#[test]
fn new_session_waits_in_the_day_phase() {
    let s = GameSession::new();
    assert_eq!(s.phase, Phase::Day);
    assert_eq!(s.economy.rest, 200);
    assert_eq!(s.economy.sleep_ms, 5_000);
    assert!(s.actors.is_empty());
    assert_eq!(s.waves.len(), 7);
}

#[test]
fn start_sleep_enters_night_with_a_fresh_player() {
    let mut s = GameSession::new();
    s.economy.unsafe_rest = 9;
    s.economy.died = true;
    s.start_sleep();
    assert_eq!(s.phase, Phase::Night);
    assert_eq!(s.economy.unsafe_rest, 0);
    assert!(!s.economy.died);
    assert_eq!(s.clock.elapsed_ms, 0);
    assert_eq!(s.watermark_ms, 0);
    assert_eq!(s.actors.len(), 1);
    assert_eq!(s.actors[0].pos, Vec2I { x: 0, y: 0 });
    assert_eq!(s.actors[0].radius_milli, 13_500);
    assert_eq!(player_health(&s), 5_000);
}

#[test]
fn night_expiry_is_edge_triggered_and_credits_once() {
    let mut s = GameSession::new();
    s.start_sleep();
    let vfx = s.tick(6_000, &no_events());
    assert!(vfx.is_empty());
    assert_eq!(s.phase, Phase::Day);
    assert_eq!(s.economy.unsafe_rest, 6);
    assert!(s.actors.is_empty());

    // a second tick past expiry must not re-fire nor double-credit
    let snapshot_unsafe = s.economy.unsafe_rest;
    let snapshot_clock = s.clock.elapsed_ms;
    s.tick(10_000, &no_events());
    assert_eq!(s.phase, Phase::Day);
    assert_eq!(s.economy.unsafe_rest, snapshot_unsafe);
    assert_eq!(s.clock.elapsed_ms, snapshot_clock);
}

#[test]
fn night_ticks_never_touch_the_banked_rest() {
    let mut s = GameSession::new();
    s.load_ruleset(250_000, 3_000);
    s.start_sleep();
    for _ in 0..30 {
        s.tick(250, &no_events());
        assert_eq!(s.economy.rest, 200);
    }
}

#[test]
fn full_day_cycle_with_a_comfort_upgrade() {
    // default economy: 200 rest, 5 s sleep; a 70-rest purchase, one night
    // slept through, and the day transition banks the night's six seconds.
    let mut s = GameSession::new();
    assert_eq!(s.apply_upgrade(&upgrade(70, 5_000, 0)), Ok(()));
    assert_eq!(s.economy.rest, 130);
    s.start_sleep();
    s.tick(6_000, &no_events());
    assert_eq!(s.phase, Phase::Day);
    assert_eq!(s.economy.unsafe_rest, 6);
    let v = s.advance_day();
    assert_eq!(v, DayVerdict::Continue);
    assert_eq!(s.economy.rest, 136);
    assert_eq!(s.economy.unsafe_rest, 0);
    assert_eq!(s.economy.day, 1);
}

#[test]
fn full_day_cycle_with_a_sleep_upgrade() {
    // the same run with the purchase raising the sleep duration: the night
    // now lasts past ten seconds before the clock expires.
    let mut s = GameSession::new();
    assert_eq!(s.apply_upgrade(&upgrade(70, 0, 5_000)), Ok(()));
    assert_eq!(s.economy.sleep_ms, 10_000);
    s.start_sleep();
    s.tick(6_000, &no_events());
    assert_eq!(s.phase, Phase::Night);
    s.tick(5_000, &no_events());
    assert_eq!(s.phase, Phase::Day);
    assert_eq!(s.economy.unsafe_rest, 11);
    assert_eq!(s.advance_day(), DayVerdict::Continue);
    assert_eq!(s.economy.rest, 141);
    assert_eq!(s.economy.day, 1);
}

#[test]
fn kills_during_a_night_credit_unsafe_rest() {
    let mut s = GameSession::new();
    s.start_sleep();
    s.actors.push(Actor {
        kind: ActorKind::Enemy,
        pos: Vec2I { x: 20_000, y: 0 },
        vel: Vec2I { x: 0, y: 0 },
        radius_milli: 7_000,
        alive: true,
    });
    s.actors.push(Actor {
        kind: ActorKind::Shot,
        pos: Vec2I { x: 19_000, y: 0 },
        vel: Vec2I { x: 0, y: 0 },
        radius_milli: 3_000,
        alive: true,
    });
    let events = vec![CollisionEvent { a: 1, b: 2 }];
    let vfx = s.tick(100, &events);
    assert_eq!(s.economy.unsafe_rest, 5);
    assert!(!s.actors[1].alive);
    assert!(!s.actors[2].alive);
    assert_eq!(vfx.len(), 1);
    assert_eq!(vfx[0].pos, Vec2I { x: 20_000, y: 0 });
    assert_eq!(s.economy.rest, 200);
}

#[test]
fn player_death_ends_the_night_with_the_died_flag() {
    let mut s = GameSession::new();
    s.start_sleep();
    // a player with one contact's worth of health left
    s.actors[0].kind = ActorKind::Player { health_milli: 1_000, last_shot_ms: 0 };
    s.actors.push(Actor {
        kind: ActorKind::Enemy,
        pos: Vec2I { x: 10_000, y: 0 },
        vel: Vec2I { x: 0, y: 0 },
        radius_milli: 7_000,
        alive: true,
    });
    let events = vec![CollisionEvent { a: 0, b: 1 }];
    s.tick(100, &events);
    assert_eq!(s.phase, Phase::Day);
    assert!(s.economy.died);
    assert!(s.actors.is_empty());
    // the death blocks the win even with a long sleep duration
    s.economy.sleep_ms = 59_000;
    assert_eq!(s.advance_day(), DayVerdict::Continue);
}

#[test]
fn game_over_after_the_day_limit() {
    let mut s = GameSession::new();
    s.economy.day = 6;
    assert_eq!(s.advance_day(), DayVerdict::GameOver);
    assert_eq!(s.phase, Phase::GameOver);
    // ticks in a terminal phase change nothing
    let before_rest = s.economy.rest;
    s.tick(1_000, &no_events());
    assert_eq!(s.phase, Phase::GameOver);
    assert_eq!(s.economy.rest, before_rest);
}

#[test]
fn game_won_at_the_sleep_threshold() {
    let mut s = GameSession::new();
    s.economy.sleep_ms = 59_000;
    assert_eq!(s.advance_day(), DayVerdict::GameWon);
    assert_eq!(s.phase, Phase::GameWon);
}

#[test]
fn new_game_resets_the_economy() {
    let mut s = GameSession::new();
    s.economy.day = 6;
    s.advance_day();
    assert_eq!(s.phase, Phase::GameOver);
    s.new_game();
    assert_eq!(s.phase, Phase::Day);
    assert_eq!(s.economy.rest, 200);
    assert_eq!(s.economy.day, 0);
    assert_eq!(s.economy.sleep_ms, 5_000);
}

#[test]
fn waves_activate_spawners_and_spawners_spawn_enemies() {
    let mut s = GameSession::new();
    s.load_ruleset(250_000, 3_000);
    s.economy.sleep_ms = 100_000;
    s.start_sleep();
    s.actors[0].kind = ActorKind::Player { health_milli: 1_000_000_000, last_shot_ms: 0 };

    // one big step to six seconds: the first two waves (2 + 3 spawners)
    // must both have fired
    s.tick(6_000, &no_events());
    let spawners = s
        .actors
        .iter()
        .filter(|a| matches!(a.kind, ActorKind::Spawner { .. }))
        .count();
    assert_eq!(spawners, 5);
    assert_eq!(s.watermark_ms, 5_000);

    // with rates of 0.3 and 0.5 spawns per second, further ticks produce
    // enemies
    for _ in 0..40 {
        s.tick(250, &no_events());
    }
    let enemies = s.actors.iter().filter(|a| matches!(a.kind, ActorKind::Enemy)).count();
    assert!(enemies > 0, "spawners never produced an enemy");
}

#[test]
fn a_played_night_with_motion_and_collisions() {
    let mut s = GameSession::new();
    s.load_ruleset(250_000, 3_000);
    s.economy.sleep_ms = 30_000;
    s.start_sleep();
    s.actors[0].kind = ActorKind::Player { health_milli: 1_000_000_000, last_shot_ms: 0 };

    let mut ticks = 0u32;
    while s.phase == Phase::Night && ticks < 2_000 {
        let events = detect_collisions(&s.actors);
        s.tick(100, &events);
        if s.phase == Phase::Night {
            integrate_motion(&mut s.actors, 100);
        }
        assert_eq!(s.economy.rest, 200);
        ticks += 1;
    }
    assert_eq!(s.phase, Phase::Day);
    assert!(!s.economy.died);
    // expiry credited the thirty elapsed seconds, and shots may have added
    // kill rewards on top
    assert!(s.economy.unsafe_rest >= 30);
}
