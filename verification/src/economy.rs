//! The persistent player economy: the rest currency, the upgrade catalog,
//! the day transition with its win/loss verdict, and the derivation of the
//! night combat stats from the tuning stats.

use vstd::prelude::*;

use crate::math::{clamp_i64, div_scale, spec_clamp, spec_div_scale, COORD_LIMIT_MILLI};

verus! {

/// Tuning stats are clamped to this magnitude (a billion units), so clamped
/// updates always preserve well-formedness.
pub const STAT_LIMIT_MILLI: i64 = 1_000_000_000_000;

/// An upgrade may move a stat by at most this much in one purchase.
pub const UPGRADE_DELTA_LIMIT_MILLI: i64 = 1_000_000_000;

/// Sleeping at least this long wins the run at the next day transition.
pub const WIN_SLEEP_MS: u64 = 59_000;

/// The run is lost once the day index passes this limit without a win.
pub const DAY_LIMIT: u32 = 6;

/// The persistent economy; it survives across nights and days until an
/// explicit new-game reset.
#[derive(Clone, Copy, PartialEq, Eq, Structural, Debug)]
pub struct PlayerEconomy {
    /// Comfort tuning stat, milli-units; also the player's night health pool.
    pub comfort_milli: i64,
    /// Warmth tuning stat, milli-units; drives fire rate and range.
    pub warmth_milli: i64,
    /// Hydration tuning stat, milli-units; drives movement acceleration.
    pub hydration_milli: i64,
    /// Target night length in milliseconds; raised by upgrades.
    pub sleep_ms: u64,
    /// Spendable rest currency; never driven negative.
    pub rest: u32,
    /// Rest earned during the current night, banked at the day transition.
    pub unsafe_rest: u32,
    /// Day index; increments at each day transition.
    pub day: u32,
    /// Set when the player dies or leaves the arena during a night.
    pub died: bool,
}

/// Recoverable economy errors; only an unaffordable purchase is user-visible.
#[derive(Clone, Copy, PartialEq, Eq, Structural, Debug)]
pub enum EconomyError {
    InsufficientFunds,
}

/// The outcome of a day transition.
#[derive(Clone, Copy, PartialEq, Eq, Structural, Debug)]
pub enum DayVerdict {
    Continue,
    GameWon,
    GameOver,
}

/// A static catalog entry: purchasing applies the stat deltas and deducts the
/// cost atomically.
#[derive(Clone, Copy, PartialEq, Eq, Debug)]
pub struct Upgrade {
    pub name: &'static str,
    pub cost: u32,
    pub d_comfort_milli: i64,
    pub d_warmth_milli: i64,
    pub d_hydration_milli: i64,
    pub d_sleep_ms: i64,
}

impl Upgrade {
    pub open spec fn wf(self) -> bool {
        &&& -UPGRADE_DELTA_LIMIT_MILLI <= self.d_comfort_milli <= UPGRADE_DELTA_LIMIT_MILLI
        &&& -UPGRADE_DELTA_LIMIT_MILLI <= self.d_warmth_milli <= UPGRADE_DELTA_LIMIT_MILLI
        &&& -UPGRADE_DELTA_LIMIT_MILLI <= self.d_hydration_milli <= UPGRADE_DELTA_LIMIT_MILLI
        &&& -UPGRADE_DELTA_LIMIT_MILLI <= self.d_sleep_ms <= UPGRADE_DELTA_LIMIT_MILLI
    }
}

/// A stat update: the sum, clamped into the stat range.
pub open spec fn spec_stat_add(a: int, d: int) -> int {
    spec_clamp(a + d, -STAT_LIMIT_MILLI as int, STAT_LIMIT_MILLI as int)
}

/// Saturating 32-bit addition, used when banking rest.
pub open spec fn spec_sat_add_u32(a: int, b: int) -> int {
    if a + b > u32::MAX {
        u32::MAX as int
    } else {
        a + b
    }
}

/// The economy after a successful purchase: every stat delta applied and the
/// cost deducted, in one step.
pub open spec fn spec_apply_upgrade(e: PlayerEconomy, u: Upgrade) -> PlayerEconomy {
    PlayerEconomy {
        comfort_milli: spec_stat_add(e.comfort_milli as int, u.d_comfort_milli as int) as i64,
        warmth_milli: spec_stat_add(e.warmth_milli as int, u.d_warmth_milli as int) as i64,
        hydration_milli: spec_stat_add(e.hydration_milli as int, u.d_hydration_milli as int) as i64,
        sleep_ms: spec_clamp(e.sleep_ms + u.d_sleep_ms, 0, STAT_LIMIT_MILLI as int) as u64,
        rest: (e.rest - u.cost) as u32,
        ..e
    }
}

/// The economy after a day transition: the night's rest is banked, the
/// unbanked pool resets, and the day index advances.
pub open spec fn spec_advance_day(e: PlayerEconomy) -> PlayerEconomy {
    PlayerEconomy {
        rest: spec_sat_add_u32(e.rest as int, e.unsafe_rest as int) as u32,
        unsafe_rest: 0,
        day: (e.day + 1) as u32,
        ..e
    }
}

/// The verdict evaluated inside the day transition: a long enough sleep
/// without a death wins regardless of the day index; otherwise passing the
/// day limit loses.
pub open spec fn spec_day_verdict(e: PlayerEconomy) -> DayVerdict {
    if e.sleep_ms >= WIN_SLEEP_MS && !e.died {
        DayVerdict::GameWon
    } else if e.day + 1 > DAY_LIMIT {
        DayVerdict::GameOver
    } else {
        DayVerdict::Continue
    }
}

impl PlayerEconomy {
    pub open spec fn wf(self) -> bool {
        &&& -STAT_LIMIT_MILLI <= self.comfort_milli <= STAT_LIMIT_MILLI
        &&& -STAT_LIMIT_MILLI <= self.warmth_milli <= STAT_LIMIT_MILLI
        &&& -STAT_LIMIT_MILLI <= self.hydration_milli <= STAT_LIMIT_MILLI
        &&& self.sleep_ms <= STAT_LIMIT_MILLI
    }

    /// The starting economy of a fresh run.
    pub fn starting() -> (r: PlayerEconomy)
        ensures
            r == spec_starting_economy(),
            r.wf(),
    {
        PlayerEconomy {
            comfort_milli: 5_000,
            warmth_milli: 0,
            hydration_milli: 0,
            sleep_ms: 5_000,
            rest: 200,
            unsafe_rest: 0,
            day: 0,
            died: false,
        }
    }

    /// Purchase an upgrade. Fails, leaving the economy untouched, when the
    /// rest balance cannot afford the cost; otherwise applies the effect and
    /// deducts the cost together, never partially.
    pub fn apply_upgrade(&mut self, u: &Upgrade) -> (r: Result<(), EconomyError>)
        requires
            old(self).wf(),
            u.wf(),
        ensures
            final(self).wf(),
            old(self).rest < u.cost ==> r == Result::<(), EconomyError>::Err(
                EconomyError::InsufficientFunds,
            ) && *final(self) == *old(self),
            old(self).rest >= u.cost ==> r == Result::<(), EconomyError>::Ok(())
                && *final(self) == spec_apply_upgrade(*old(self), *u),
    {
        if self.rest < u.cost {
            return Err(EconomyError::InsufficientFunds);
        }
        self.comfort_milli = stat_add(self.comfort_milli, u.d_comfort_milli);
        self.warmth_milli = stat_add(self.warmth_milli, u.d_warmth_milli);
        self.hydration_milli = stat_add(self.hydration_milli, u.d_hydration_milli);
        self.sleep_ms = clamp_i64(self.sleep_ms as i64 + u.d_sleep_ms, 0, STAT_LIMIT_MILLI)
            as u64;
        self.rest = self.rest - u.cost;
        Ok(())
    }

    /// The day transition: bank the night's rest, reset the unbanked pool,
    /// advance the day index, and evaluate the win/loss verdict.
    pub fn advance_day(&mut self) -> (v: DayVerdict)
        requires
            old(self).wf(),
            old(self).day < u32::MAX,
        ensures
            final(self).wf(),
            *final(self) == spec_advance_day(*old(self)),
            v == spec_day_verdict(*old(self)),
            final(self).rest >= old(self).rest,
    {
        self.rest = sat_add_u32(self.rest, self.unsafe_rest);
        self.unsafe_rest = 0;
        self.day = self.day + 1;
        if self.sleep_ms >= WIN_SLEEP_MS && !self.died {
            DayVerdict::GameWon
        } else if self.day > DAY_LIMIT {
            DayVerdict::GameOver
        } else {
            DayVerdict::Continue
        }
    }
}

fn stat_add(a: i64, d: i64) -> (r: i64)
    requires
        -STAT_LIMIT_MILLI <= a <= STAT_LIMIT_MILLI,
        -UPGRADE_DELTA_LIMIT_MILLI <= d <= UPGRADE_DELTA_LIMIT_MILLI,
    ensures
        r == spec_stat_add(a as int, d as int),
        -STAT_LIMIT_MILLI <= r <= STAT_LIMIT_MILLI,
{
    clamp_i64(a + d, -STAT_LIMIT_MILLI, STAT_LIMIT_MILLI)
}

/// Saturating addition on the 32-bit rest counters.
pub fn sat_add_u32(a: u32, b: u32) -> (r: u32)
    ensures
        r == spec_sat_add_u32(a as int, b as int),
        r >= a,
{
    if a as u64 + b as u64 > u32::MAX as u64 {
        u32::MAX
    } else {
        a + b
    }
}

/// The combat stats derived from the economy at the start of each night.
#[derive(Clone, Copy, PartialEq, Eq, Structural, Debug)]
pub struct CombatStats {
    /// Player collision radius, milli-units.
    pub radius_milli: i64,
    /// Player movement acceleration, milli-units per second squared.
    pub accel_milli: i64,
    /// Minimum delay between two shots, milliseconds.
    pub fire_period_ms: u64,
    /// Auto-fire detection range, milli-units.
    pub range_milli: i64,
    /// Starting night health pool, milli-units.
    pub health_milli: i64,
}

impl CombatStats {
    pub open spec fn wf(self) -> bool {
        &&& 0 <= self.radius_milli <= COORD_LIMIT_MILLI
        &&& 0 <= self.accel_milli <= COORD_LIMIT_MILLI
        &&& self.fire_period_ms <= 1_000_000
        &&& 0 <= self.range_milli <= COORD_LIMIT_MILLI
        &&& -STAT_LIMIT_MILLI <= self.health_milli <= STAT_LIMIT_MILLI
    }
}

/// Radius grows with comfort from a base of 12.5 units.
pub open spec fn spec_radius(comfort_milli: int) -> int {
    spec_clamp(12_500 + spec_div_scale(comfort_milli, 1, 5), 0, COORD_LIMIT_MILLI as int)
}

/// Acceleration grows with hydration from a base of 300 units per second
/// squared, floored at zero.
pub open spec fn spec_accel(hydration_milli: int) -> int {
    spec_clamp(300_000 + 20 * hydration_milli, 0, COORD_LIMIT_MILLI as int)
}

/// One shot every `1 / (warmth + 1)` seconds; a warmth at or below minus one
/// is treated as the fastest period of one millisecond.
pub open spec fn spec_fire_period_ms(warmth_milli: int) -> int {
    1_000_000int / (if warmth_milli + 1_000 >= 1 { warmth_milli + 1_000 } else { 1int })
}

/// Detection range grows with warmth from a base of 100 units.
pub open spec fn spec_range(warmth_milli: int) -> int {
    spec_clamp(100_000 + spec_div_scale(warmth_milli, 1, 10), 0, COORD_LIMIT_MILLI as int)
}

/// The starting economy of a fresh run: a little comfort, a short target
/// sleep, and a modest rest balance.
pub open spec fn spec_starting_economy() -> PlayerEconomy {
    PlayerEconomy {
        comfort_milli: 5_000,
        warmth_milli: 0,
        hydration_milli: 0,
        sleep_ms: 5_000,
        rest: 200,
        unsafe_rest: 0,
        day: 0,
        died: false,
    }
}

/// The combat stats as a pure function of the economy's tuning stats.
pub open spec fn spec_combat_stats(e: PlayerEconomy) -> CombatStats {
    CombatStats {
        radius_milli: spec_radius(e.comfort_milli as int) as i64,
        accel_milli: spec_accel(e.hydration_milli as int) as i64,
        fire_period_ms: spec_fire_period_ms(e.warmth_milli as int) as u64,
        range_milli: spec_range(e.warmth_milli as int) as i64,
        health_milli: e.comfort_milli,
    }
}

impl PlayerEconomy {
    /// Derive the night combat stats; a pure function of the tuning stats,
    /// recomputed at the start of every night.
    pub fn derive_combat_stats(&self) -> (s: CombatStats)
        requires
            self.wf(),
        ensures
            s.wf(),
            s == spec_combat_stats(*self),
            s.radius_milli == spec_radius(self.comfort_milli as int),
            s.accel_milli == spec_accel(self.hydration_milli as int),
            s.fire_period_ms == spec_fire_period_ms(self.warmth_milli as int),
            s.range_milli == spec_range(self.warmth_milli as int),
            s.health_milli == self.comfort_milli,
    {
        let comfort_part: i64 = div_scale(self.comfort_milli, 1, 5);
        let radius_milli: i64 = clamp_i64(12_500 + comfort_part, 0, COORD_LIMIT_MILLI);
        let accel_milli: i64 = clamp_i64(300_000 + 20 * self.hydration_milli, 0, COORD_LIMIT_MILLI);
        let fire_den: i64 = if self.warmth_milli + 1_000 >= 1 {
            self.warmth_milli + 1_000
        } else {
            1
        };
        let fire_period_ms: u64 = (1_000_000i64 / fire_den) as u64;
        let warmth_part: i64 = div_scale(self.warmth_milli, 1, 10);
        let range_milli: i64 = clamp_i64(100_000 + warmth_part, 0, COORD_LIMIT_MILLI);
        CombatStats {
            radius_milli,
            accel_milli,
            fire_period_ms,
            range_milli,
            health_milli: self.comfort_milli,
        }
    }
}

/// The four-entry upgrade catalog of the day menu.
pub fn upgrade_catalog() -> (r: Vec<Upgrade>)
    ensures
        r@.len() == 4,
        r@[0] == (Upgrade {
            name: "Melatonin",
            cost: 50,
            d_comfort_milli: 0,
            d_warmth_milli: 0,
            d_hydration_milli: 0,
            d_sleep_ms: 5_000,
        }),
        r@[1] == (Upgrade {
            name: "Extra blanket",
            cost: 150,
            d_comfort_milli: 0,
            d_warmth_milli: 1_000,
            d_hydration_milli: 0,
            d_sleep_ms: 0,
        }),
        r@[2] == (Upgrade {
            name: "Milk and cookies",
            cost: 40,
            d_comfort_milli: 5_000,
            d_warmth_milli: 0,
            d_hydration_milli: 5_000,
            d_sleep_ms: 0,
        }),
        r@[3] == (Upgrade {
            name: "Booze",
            cost: 40,
            d_comfort_milli: -2_000i64,
            d_warmth_milli: 0,
            d_hydration_milli: -5_000i64,
            d_sleep_ms: 10_000,
        }),
        forall|i: int| 0 <= i < r@.len() ==> (#[trigger] r@[i]).wf(),
{
    let mut v: Vec<Upgrade> = Vec::new();
    v.push(Upgrade {
        name: "Melatonin",
        cost: 50,
        d_comfort_milli: 0,
        d_warmth_milli: 0,
        d_hydration_milli: 0,
        d_sleep_ms: 5_000,
    });
    v.push(Upgrade {
        name: "Extra blanket",
        cost: 150,
        d_comfort_milli: 0,
        d_warmth_milli: 1_000,
        d_hydration_milli: 0,
        d_sleep_ms: 0,
    });
    v.push(Upgrade {
        name: "Milk and cookies",
        cost: 40,
        d_comfort_milli: 5_000,
        d_warmth_milli: 0,
        d_hydration_milli: 5_000,
        d_sleep_ms: 0,
    });
    v.push(Upgrade {
        name: "Booze",
        cost: 40,
        d_comfort_milli: -2_000,
        d_warmth_milli: 0,
        d_hydration_milli: -5_000,
        d_sleep_ms: 10_000,
    });
    v
}

} // verus!
