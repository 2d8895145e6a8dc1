//! Countdown timers for transient entities (the death-effect playbacks):
//! each tick shortens every timer by the delta, and a timer that falls
//! below zero expires and is dropped.

use vstd::prelude::*;

verus! {

/// The timers that survive one tick: each is shortened by `dt`, those that
/// fall below zero are removed, order kept.
pub open spec fn spec_tick_timed_upto(s: Seq<i64>, dt: int, i: int) -> Seq<i64>
    decreases i,
{
    if i <= 0 {
        Seq::empty()
    } else {
        spec_tick_timed_upto(s, dt, i - 1) + (if s[i - 1] - dt >= 0 {
            seq![(s[i - 1] - dt) as i64]
        } else {
            Seq::empty()
        })
    }
}

/// One tick over a whole timer list.
pub open spec fn spec_tick_timed(s: Seq<i64>, dt: int) -> Seq<i64> {
    spec_tick_timed_upto(s, dt, s.len() as int)
}

/// Advance every timer by one tick, dropping the expired ones.
pub fn tick_timed(timers: &mut Vec<i64>, dt_ms: u64)
    requires
        forall|i: int| 0 <= i < old(timers)@.len() ==> 0 <= #[trigger] old(timers)@[i] <= 1_000_000_000,
        dt_ms <= 3_600_000,
    ensures
        final(timers)@ == spec_tick_timed(old(timers)@, dt_ms as int),
        forall|i: int| 0 <= i < final(timers)@.len() ==> 0 <= #[trigger] final(timers)@[i] <= 1_000_000_000,
{
    let ghost orig: Seq<i64> = timers@;
    let n: usize = timers.len();
    let mut out: Vec<i64> = Vec::new();
    let mut i: usize = 0;
    while i < n
        invariant
            forall|k: int| 0 <= k < orig.len() ==> 0 <= #[trigger] orig[k] <= 1_000_000_000,
            dt_ms <= 3_600_000,
            n == orig.len(),
            timers@ == orig,
            0 <= i <= n,
            out@ == spec_tick_timed_upto(orig, dt_ms as int, i as int),
            forall|k: int| 0 <= k < out@.len() ==> 0 <= #[trigger] out@[k] <= 1_000_000_000,
        decreases n - i,
    {
        let t: i64 = timers[i];
        if t >= dt_ms as i64 {
            out.push(t - dt_ms as i64);
        }
        proof {
            assert(out@ =~= spec_tick_timed_upto(orig, dt_ms as int, i as int + 1));
        }
        i = i + 1;
    }
    *timers = out;
}

} // verus!
