//! The game session: the Day / Night / GameOver / GameWon state machine and
//! the night-phase tick that drives the scheduler, the spawners, the pursuit
//! steering, the combat resolver and the clock, strictly in that order.

use vstd::prelude::*;

use crate::actors::{
    night_registry_wf, registry_wf, spec_is_live_enemy, spec_player_health, Actor, ActorKind,
};
use crate::clock::{spec_sat_add_u64, NightClock};
use crate::combat::{
    lemma_resolve_preserves, resolve_collisions, spec_resolve, CollisionEvent, VfxRequest,
};
use crate::economy::{
    sat_add_u32, spec_advance_day, spec_day_verdict, spec_sat_add_u32, CombatStats, DayVerdict,
    EconomyError, PlayerEconomy, Upgrade, STAT_LIMIT_MILLI,
};
use crate::math::{Vec2I, COORD_LIMIT_MILLI};
use crate::player::{player_dead, player_shoot, spec_player_dead};
use crate::pursuit::{pursue_all, spec_pursue};
use crate::spawner::{run_spawners, spawn_wave_spawners};
use crate::waves::{
    default_waves, fire_due, lemma_due_rates_positive, spec_due_rates, spec_watermark, table_wf,
    WaveEntry,
};

verus! {

/// The largest tick delta the simulation accepts: one hour.
pub const TICK_LIMIT_MS: u64 = 3_600_000;

/// The lifecycle of a run: the day planning phase, the timed night
/// encounter, and the two terminal outcomes, which only an explicit new
/// game leaves.
#[derive(Clone, Copy, PartialEq, Eq, Structural, Debug)]
pub enum Phase {
    Day,
    Night,
    GameOver,
    GameWon,
}

/// The externally loaded, read-only enemy tuning of a night.
#[derive(Clone, Copy, PartialEq, Eq, Structural, Debug)]
pub struct EnemyRuleset {
    /// Enemy base speed, milli-units per second.
    pub base_speed_milli: i64,
    /// Enemy health pool, milli-units.
    pub health_milli: i64,
}

impl EnemyRuleset {
    pub open spec fn wf(self) -> bool {
        &&& 0 <= self.base_speed_milli <= COORD_LIMIT_MILLI
        &&& -STAT_LIMIT_MILLI <= self.health_milli <= STAT_LIMIT_MILLI
    }
}

/// One run of the game. The economy outlives every phase; the actor
/// registry belongs to the night phase alone and is torn down in bulk when
/// the night ends.
pub struct GameSession {
    pub phase: Phase,
    pub economy: PlayerEconomy,
    pub clock: NightClock,
    pub watermark_ms: u64,
    pub waves: Vec<WaveEntry>,
    pub actors: Vec<Actor>,
    pub ruleset: Option<EnemyRuleset>,
    pub stats: CombatStats,
}

/// The deterministic core of one night tick: the advanced clock, the
/// resolved collisions, the expiry and death decisions, and the economy and
/// phase that follow. Spawn placement is random and therefore outside this
/// function; everything here is pinned exactly.
pub struct NightStep {
    pub now: int,
    pub expired: bool,
    pub dead: bool,
    pub economy: PlayerEconomy,
    pub phase: Phase,
    pub watermark: int,
    pub vfx: Seq<VfxRequest>,
}

/// Whole elapsed seconds credited on expiry, capped at the counter's range.
pub open spec fn spec_expiry_credit(now: int) -> int {
    if now / 1000 > u32::MAX {
        u32::MAX as int
    } else {
        now / 1000
    }
}

pub open spec fn spec_night_step(
    s: GameSession,
    delta: int,
    events: Seq<CollisionEvent>,
) -> NightStep {
    let now = spec_sat_add_u64(s.clock.elapsed_ms as int, delta);
    let res = spec_resolve(s.actors@, s.economy.unsafe_rest as int, events);
    let expired = now > s.economy.sleep_ms;
    let dead = spec_player_dead(res.reg);
    NightStep {
        now,
        expired,
        dead,
        economy: PlayerEconomy {
            unsafe_rest: (if expired {
                spec_sat_add_u32(res.unsafe_rest, spec_expiry_credit(now))
            } else {
                res.unsafe_rest
            }) as u32,
            died: s.economy.died || (!expired && dead),
            ..s.economy
        },
        phase: if expired || dead {
            Phase::Day
        } else {
            Phase::Night
        },
        watermark: spec_watermark(s.waves@, s.watermark_ms as int, now),
        vfx: res.vfx,
    }
}

impl GameSession {
    pub open spec fn wf(self) -> bool {
        &&& self.economy.wf()
        &&& table_wf(self.waves@)
        &&& self.stats.wf()
        &&& (self.ruleset matches Some(r) ==> r.wf())
        &&& (self.phase is Night ==> night_registry_wf(self.actors@))
        &&& (!(self.phase is Night) ==> self.actors@.len() == 0)
    }

    /// A fresh session: the starting economy, the default timetable, no
    /// ruleset loaded yet, waiting in the day phase.
    pub fn new() -> (s: GameSession)
        ensures
            s.wf(),
            s.phase is Day,
            s.economy == crate::economy::spec_starting_economy(),
            s.ruleset is None,
            s.actors@.len() == 0,
            s.waves@ == crate::waves::spec_default_waves(),
    {
        let economy: PlayerEconomy = PlayerEconomy::starting();
        let stats: CombatStats = economy.derive_combat_stats();
        GameSession {
            phase: Phase::Day,
            economy,
            clock: NightClock::new(),
            watermark_ms: 0,
            waves: default_waves(),
            actors: Vec::new(),
            ruleset: None,
            stats,
        }
    }

    /// Hand the session the loaded enemy ruleset, clipped into the ranges
    /// the simulation works in. Until this is called, nights run without
    /// spawning or pursuit.
    pub fn load_ruleset(&mut self, base_speed_milli: i64, health_milli: i64)
        requires
            old(self).wf(),
        ensures
            final(self).wf(),
            *final(self) == (GameSession {
                ruleset: Some(
                    EnemyRuleset {
                        base_speed_milli: crate::math::spec_clamp(
                            base_speed_milli as int,
                            0,
                            COORD_LIMIT_MILLI as int,
                        ) as i64,
                        health_milli: crate::math::spec_clamp(
                            health_milli as int,
                            -STAT_LIMIT_MILLI as int,
                            STAT_LIMIT_MILLI as int,
                        ) as i64,
                    },
                ),
                ..*old(self)
            }),
    {
        let base_speed: i64 = crate::math::clamp_i64(base_speed_milli, 0, COORD_LIMIT_MILLI);
        let health: i64 = crate::math::clamp_i64(health_milli, -STAT_LIMIT_MILLI, STAT_LIMIT_MILLI);
        self.ruleset = Some(EnemyRuleset { base_speed_milli: base_speed, health_milli: health });
    }

    /// Purchase an upgrade from the day menu; delegates to the economy and
    /// touches nothing else.
    pub fn apply_upgrade(&mut self, u: &Upgrade) -> (r: Result<(), EconomyError>)
        requires
            old(self).wf(),
            old(self).phase is Day,
            u.wf(),
        ensures
            final(self).wf(),
            final(self).phase == old(self).phase,
            final(self).actors@ == old(self).actors@,
            final(self).waves@ == old(self).waves@,
            final(self).ruleset == old(self).ruleset,
            old(self).economy.rest < u.cost ==> r == Result::<(), EconomyError>::Err(
                EconomyError::InsufficientFunds,
            ) && final(self).economy == old(self).economy,
            old(self).economy.rest >= u.cost ==> r == Result::<(), EconomyError>::Ok(())
                && final(self).economy == crate::economy::spec_apply_upgrade(
                old(self).economy,
                *u,
            ),
    {
        self.economy.apply_upgrade(u)
    }

    /// The explicit start-sleep trigger: enter the night phase, re-derive
    /// the combat stats from the economy, reset the clock and the wave
    /// watermark, zero the unbanked rest and the death flag, and spawn the
    /// player at the arena origin.
    pub fn start_sleep(&mut self)
        requires
            old(self).wf(),
            old(self).phase is Day,
        ensures
            final(self).wf(),
            final(self).phase is Night,
            final(self).economy == (PlayerEconomy {
                unsafe_rest: 0u32,
                died: false,
                ..old(self).economy
            }),
            final(self).clock.elapsed_ms == 0,
            final(self).watermark_ms == 0,
            final(self).waves@ == old(self).waves@,
            final(self).ruleset == old(self).ruleset,
            final(self).stats == crate::economy::spec_combat_stats(old(self).economy),
            final(self).actors@.len() == 1,
            final(self).actors@[0] == (Actor {
                kind: ActorKind::Player {
                    health_milli: crate::economy::spec_combat_stats(old(self).economy).health_milli,
                    last_shot_ms: 0u64,
                },
                pos: Vec2I { x: 0, y: 0 },
                vel: Vec2I { x: 0, y: 0 },
                radius_milli: crate::economy::spec_combat_stats(old(self).economy).radius_milli,
                alive: true,
            }),
    {
        self.economy.unsafe_rest = 0;
        self.economy.died = false;
        self.stats = self.economy.derive_combat_stats();
        self.clock = NightClock::new();
        self.watermark_ms = 0;
        let mut actors: Vec<Actor> = Vec::new();
        actors.push(
            Actor {
                kind: ActorKind::Player {
                    health_milli: self.stats.health_milli,
                    last_shot_ms: 0,
                },
                pos: Vec2I { x: 0, y: 0 },
                vel: Vec2I { x: 0, y: 0 },
                radius_milli: self.stats.radius_milli,
                alive: true,
            },
        );
        self.actors = actors;
        self.phase = Phase::Night;
    }

    /// One night tick, in the fixed order: clock, collision resolution,
    /// wave scheduling, spawning, pursuit, auto-fire, then the end check.
    /// The expiry of the clock is edge-triggered: it fires on the tick that
    /// crosses the sleep duration, credits the night's elapsed seconds
    /// once, and hands the phase to Day, after which this function can no
    /// longer be called; the death predicate does the same with the death
    /// flag instead of the credit, and expiry wins when both hold. Either
    /// exit tears the actor registry down. The banked rest balance is never
    /// touched by a night tick.
    pub fn night_tick(&mut self, delta_ms: u64, events: &Vec<CollisionEvent>) -> (vfx: Vec<
        VfxRequest,
    >)
        requires
            old(self).wf(),
            old(self).phase is Night,
            delta_ms <= TICK_LIMIT_MS,
        ensures
            final(self).wf(),
            final(self).economy.rest == old(self).economy.rest,
            final(self).economy.unsafe_rest >= old(self).economy.unsafe_rest,
            final(self).waves@ == old(self).waves@,
            final(self).ruleset == old(self).ruleset,
            final(self).stats == old(self).stats,
            ({
                let step = spec_night_step(*old(self), delta_ms as int, events@);
                &&& final(self).clock.elapsed_ms == step.now
                &&& final(self).watermark_ms == step.watermark
                &&& final(self).economy == step.economy
                &&& final(self).phase == step.phase
                &&& vfx@ == step.vfx
                &&& (step.expired || step.dead) ==> final(self).actors@.len() == 0
                &&& !(step.expired || step.dead) ==> {
                    let due_rates = spec_due_rates(
                        old(self).waves@,
                        old(self).watermark_ms as int,
                        step.now,
                    );
                    let spawned = crate::spawner::spec_num_due_upto(
                        spec_resolve(
                            old(self).actors@,
                            old(self).economy.unsafe_rest as int,
                            events@,
                        ).reg,
                        step.now,
                        old(self).actors@.len() as int,
                    ) + crate::spawner::spec_fresh_due_upto(
                        due_rates,
                        step.now,
                        due_rates.len() as int,
                    );
                    &&& old(self).ruleset is None ==> old(self).actors@.len() + due_rates.len()
                        <= final(self).actors@.len() <= old(self).actors@.len()
                        + due_rates.len() + 1
                    &&& old(self).ruleset is Some ==> old(self).actors@.len() + due_rates.len()
                        + spawned <= final(self).actors@.len() <= old(self).actors@.len()
                        + due_rates.len() + spawned + 1
                    &&& forall|k: int|
                        0 <= k < old(self).actors@.len() ==> (#[trigger] final(self).actors@[k]).pos
                            == old(self).actors@[k].pos
                            && final(self).actors@[k].alive == spec_resolve(
                            old(self).actors@,
                            old(self).economy.unsafe_rest as int,
                            events@,
                        ).reg[k].alive
                    &&& old(self).ruleset is None ==> forall|k: int|
                        0 <= k < old(self).actors@.len() ==> (#[trigger] final(self).actors@[k]).vel
                            == old(self).actors@[k].vel
                    &&& old(self).ruleset matches Some(r) ==> forall|k: int|
                        0 <= k < old(self).actors@.len() && spec_is_live_enemy(
                            spec_resolve(
                                old(self).actors@,
                                old(self).economy.unsafe_rest as int,
                                events@,
                            ).reg[k],
                        ) ==> (#[trigger] final(self).actors@[k]).vel == spec_pursue(
                            old(self).actors@[k].vel,
                            Vec2I {
                                x: (old(self).actors@[0].pos.x - old(self).actors@[k].pos.x)
                                    as i64,
                                y: (old(self).actors@[0].pos.y - old(self).actors@[k].pos.y)
                                    as i64,
                            },
                            delta_ms as int,
                            r.base_speed_milli as int,
                        )
                }
            }),
    {
        let ghost step = spec_night_step(*old(self), delta_ms as int, events@);

        self.clock.tick(delta_ms);
        let now: u64 = self.clock.elapsed_ms;

        let vfx: Vec<VfxRequest> = resolve_collisions(
            &mut self.actors,
            &mut self.economy.unsafe_rest,
            events,
        );
        proof {
            lemma_resolve_preserves(
                old(self).actors@,
                old(self).economy.unsafe_rest as int,
                events@,
                events@.len() as int,
            );
            assert(night_registry_wf(self.actors@));
        }
        let ghost reg1: Seq<Actor> = self.actors@;
        let entry_len: usize = self.actors.len();

        let rates: Vec<u64> = fire_due(&self.waves, &mut self.watermark_ms, now);
        proof {
            lemma_due_rates_positive(
                self.waves@,
                old(self).watermark_ms as int,
                now as int,
                self.waves@.len() as int,
            );
        }
        spawn_wave_spawners(&mut self.actors, &rates);
        proof {
            assert(night_registry_wf(self.actors@));
            assert(self.actors@[0] == reg1[0]);
        }

        let player_pos: Vec2I = self.actors[0].pos;
        let with_spawners_len: usize = self.actors.len();

        let base_speed: Option<i64> = match self.ruleset {
            Some(r) => Some(r.base_speed_milli),
            None => None,
        };
        if let Some(speed) = base_speed {
            let ghost reg2: Seq<Actor> = self.actors@;
            run_spawners(&mut self.actors, with_spawners_len, now, speed, player_pos);
            proof {
                crate::spawner::lemma_num_due_nonneg(reg2, now as int, with_spawners_len as int);
                crate::spawner::lemma_num_due_appended(
                    reg2,
                    entry_len as int,
                    rates@,
                    now as int,
                    with_spawners_len as int,
                );
                crate::spawner::lemma_num_due_congruence(reg2, reg1, now as int, entry_len as int);
                assert(self.actors@[0] == reg1[0]);
                assert(night_registry_wf(self.actors@));
            }
            pursue_all(&mut self.actors, entry_len, player_pos, speed, delta_ms);
            proof {
                assert(self.actors@[0] == reg1[0]);
                assert(night_registry_wf(self.actors@));
            }
        }

        player_shoot(
            &mut self.actors,
            entry_len,
            now,
            self.stats.fire_period_ms,
            self.stats.range_milli,
        );
        proof {
            assert(spec_player_health(self.actors@) == spec_player_health(reg1));
            assert(self.actors@[0].pos == reg1[0].pos);
            assert(spec_player_dead(self.actors@) == spec_player_dead(reg1));
            assert(spec_player_dead(reg1) == step.dead);
        }

        let expired: bool = self.clock.has_expired(self.economy.sleep_ms);
        if expired {
            let secs64: u64 = self.clock.elapsed_whole_secs();
            let secs: u32 = if secs64 > u32::MAX as u64 {
                u32::MAX
            } else {
                secs64 as u32
            };
            self.economy.unsafe_rest = sat_add_u32(self.economy.unsafe_rest, secs);
            self.phase = Phase::Day;
            self.actors = Vec::new();
        } else if player_dead(&self.actors) {
            self.economy.died = true;
            self.phase = Phase::Day;
            self.actors = Vec::new();
        }
        vfx
    }

    /// One tick of the whole session: the night simulation runs only during
    /// the night phase; in every other phase a tick changes nothing, so a
    /// transition that already fired can never fire again.
    pub fn tick(&mut self, delta_ms: u64, events: &Vec<CollisionEvent>) -> (vfx: Vec<VfxRequest>)
        requires
            old(self).wf(),
            delta_ms <= TICK_LIMIT_MS,
        ensures
            final(self).wf(),
            final(self).economy.rest == old(self).economy.rest,
            !(old(self).phase is Night) ==> *final(self) == *old(self) && vfx@ == Seq::<
                VfxRequest,
            >::empty(),
            old(self).phase is Night ==> {
                let step = spec_night_step(*old(self), delta_ms as int, events@);
                &&& final(self).clock.elapsed_ms == step.now
                &&& final(self).economy == step.economy
                &&& final(self).phase == step.phase
                &&& final(self).watermark_ms == step.watermark
                &&& vfx@ == step.vfx
            },
    {
        match self.phase {
            Phase::Night => self.night_tick(delta_ms, events),
            _ => Vec::new(),
        }
    }

    /// The day transition, fired once when a night hands the phase back to
    /// Day: bank the night's rest, advance the day index, and commit the
    /// verdict -- a won run moves to GameWon, a lost one to GameOver, and
    /// otherwise the next day begins.
    pub fn advance_day(&mut self) -> (v: DayVerdict)
        requires
            old(self).wf(),
            old(self).phase is Day,
            old(self).economy.day < u32::MAX,
        ensures
            final(self).wf(),
            final(self).economy == spec_advance_day(old(self).economy),
            v == spec_day_verdict(old(self).economy),
            final(self).phase == (match spec_day_verdict(old(self).economy) {
                DayVerdict::Continue => Phase::Day,
                DayVerdict::GameWon => Phase::GameWon,
                DayVerdict::GameOver => Phase::GameOver,
            }),
            final(self).waves@ == old(self).waves@,
            final(self).ruleset == old(self).ruleset,
            final(self).actors@.len() == 0,
    {
        let v: DayVerdict = self.economy.advance_day();
        self.phase = match v {
            DayVerdict::Continue => Phase::Day,
            DayVerdict::GameWon => Phase::GameWon,
            DayVerdict::GameOver => Phase::GameOver,
        };
        v
    }

    /// The explicit new-game trigger from either terminal screen: reset the
    /// economy to its starting values and return to the day phase.
    pub fn new_game(&mut self)
        requires
            old(self).wf(),
            old(self).phase is GameOver || old(self).phase is GameWon,
        ensures
            final(self).wf(),
            final(self).phase is Day,
            final(self).economy == crate::economy::spec_starting_economy(),
            final(self).waves@ == old(self).waves@,
            final(self).ruleset == old(self).ruleset,
            final(self).actors@.len() == 0,
    {
        self.economy = PlayerEconomy::starting();
        self.phase = Phase::Day;
        self.clock = NightClock::new();
        self.watermark_ms = 0;
    }
}

/// Clock expiry is edge-triggered. The tick that crosses the sleep
/// duration credits the elapsed whole seconds exactly once and hands the
/// phase to Day; a tick before the crossing leaves the unbanked rest at
/// whatever collision resolution produced; and in any phase but Night a
/// tick changes nothing at all (see `GameSession::tick`), so the credit
/// can never be applied a second time.
pub proof fn lemma_expiry_edge_triggered(s: GameSession, delta: int, events: Seq<CollisionEvent>)
    requires
        registry_wf(s.actors@),
    ensures
        spec_night_step(s, delta, events).expired ==> spec_night_step(s, delta, events).phase
            is Day,
        spec_night_step(s, delta, events).expired ==> spec_night_step(
            s,
            delta,
            events,
        ).economy.unsafe_rest == spec_sat_add_u32(
            spec_resolve(s.actors@, s.economy.unsafe_rest as int, events).unsafe_rest,
            spec_expiry_credit(spec_night_step(s, delta, events).now),
        ),
        !spec_night_step(s, delta, events).expired ==> spec_night_step(
            s,
            delta,
            events,
        ).economy.unsafe_rest == spec_resolve(
            s.actors@,
            s.economy.unsafe_rest as int,
            events,
        ).unsafe_rest,
{
    lemma_resolve_preserves(
        s.actors@,
        s.economy.unsafe_rest as int,
        events,
        events.len() as int,
    );
}

/// During a night the banked rest balance never changes, and it is a
/// 32-bit unsigned counter at every moment, so across any sequence of
/// ticks it is monotonically non-negative; only an affordable purchase
/// ever decreases it, and the day transition only increases it.
pub proof fn lemma_rest_nonnegative_across_ticks(
    s: GameSession,
    delta: int,
    events: Seq<CollisionEvent>,
    u: Upgrade,
)
    ensures
        spec_night_step(s, delta, events).economy.rest == s.economy.rest,
        spec_night_step(s, delta, events).economy.rest >= 0,
        spec_advance_day(s.economy).rest >= s.economy.rest,
        s.economy.rest >= u.cost ==> crate::economy::spec_apply_upgrade(s.economy, u).rest
            == s.economy.rest - u.cost >= 0,
{
}

} // verus!
