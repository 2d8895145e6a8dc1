//! The wave scheduler: a fixed table of activation times, each entry firing
//! exactly once per night when the clock passes it, guarded by a watermark.
//! Entries skipped over by one coarse tick still fire, in table order.

use vstd::prelude::*;

verus! {

/// One row of the night timetable: at `activation_ms`, `count` spawners with
/// the given spawn rate are activated.
#[derive(Clone, Copy, PartialEq, Eq, Structural, Debug)]
pub struct WaveEntry {
    /// Clock time at which the entry activates, milliseconds.
    pub activation_ms: u64,
    /// Spawn rate handed to each activated spawner, milli-spawns per second.
    pub spawn_rate_milli: u64,
    /// How many spawners the entry activates.
    pub count: u32,
}

/// A well-formed timetable: strictly ascending activation times and positive
/// spawn rates.
pub open spec fn table_wf(t: Seq<WaveEntry>) -> bool {
    &&& forall|i: int, j: int|
        0 <= i < j < t.len() ==> #[trigger] t[i].activation_ms < #[trigger] t[j].activation_ms
    &&& forall|i: int| 0 <= i < t.len() ==> (#[trigger] t[i]).spawn_rate_milli >= 1
}

/// An entry is due when the clock has reached it and the watermark has not
/// yet passed it.
pub open spec fn entry_due(e: WaveEntry, wm: int, now: int) -> bool {
    wm < e.activation_ms <= now
}

/// The spawn rates produced by the first `i` entries of the table: each due
/// entry contributes `count` copies of its rate, in table order.
pub open spec fn spec_due_rates_upto(t: Seq<WaveEntry>, wm: int, now: int, i: int) -> Seq<u64>
    decreases i,
{
    if i <= 0 {
        Seq::empty()
    } else {
        spec_due_rates_upto(t, wm, now, i - 1) + (if entry_due(t[i - 1], wm, now) {
            Seq::new(t[i - 1].count as nat, |k: int| t[i - 1].spawn_rate_milli)
        } else {
            Seq::empty()
        })
    }
}

/// All spawn rates due in one step from watermark `wm` to clock `now`.
pub open spec fn spec_due_rates(t: Seq<WaveEntry>, wm: int, now: int) -> Seq<u64> {
    spec_due_rates_upto(t, wm, now, t.len() as int)
}

/// The watermark after the first `i` entries fired: the activation time of
/// the last due entry, or the old watermark when none fired.
pub open spec fn spec_watermark_upto(t: Seq<WaveEntry>, wm: int, now: int, i: int) -> int
    decreases i,
{
    if i <= 0 {
        wm
    } else if entry_due(t[i - 1], wm, now) {
        t[i - 1].activation_ms as int
    } else {
        spec_watermark_upto(t, wm, now, i - 1)
    }
}

/// The watermark after a full scheduling step.
pub open spec fn spec_watermark(t: Seq<WaveEntry>, wm: int, now: int) -> int {
    spec_watermark_upto(t, wm, now, t.len() as int)
}

/// Every rate a well-formed table emits is positive.
pub proof fn lemma_due_rates_positive(t: Seq<WaveEntry>, wm: int, now: int, i: int)
    requires
        table_wf(t),
        i <= t.len(),
    ensures
        forall|k: int|
            0 <= k < spec_due_rates_upto(t, wm, now, i).len() ==> #[trigger] spec_due_rates_upto(
                t,
                wm,
                now,
                i,
            )[k] >= 1,
    decreases i,
{
    if i > 0 {
        lemma_due_rates_positive(t, wm, now, i - 1);
        let prev = spec_due_rates_upto(t, wm, now, i - 1);
        let cur = spec_due_rates_upto(t, wm, now, i);
        if 0 <= i - 1 < t.len() {
            assert(t[i - 1].spawn_rate_milli >= 1);
        }
        assert forall|k: int| 0 <= k < cur.len() implies #[trigger] cur[k] >= 1 by {
            if k < prev.len() {
                assert(cur[k] == prev[k]);
            } else {
                assert(cur[k] == t[i - 1].spawn_rate_milli);
            }
        }
    }
}

/// The watermark a scheduling step leaves behind reaches the activation
/// time of every entry that step fired.
pub proof fn lemma_watermark_covers_fired(t: Seq<WaveEntry>, wm: int, now: int, j: int)
    requires
        table_wf(t),
        j <= t.len(),
    ensures
        forall|i: int|
            0 <= i < j && entry_due(#[trigger] t[i], wm, now) ==> spec_watermark_upto(
                t,
                wm,
                now,
                j,
            ) >= t[i].activation_ms,
    decreases j,
{
    if j > 0 {
        lemma_watermark_covers_fired(t, wm, now, j - 1);
    }
}

/// An entry activates at most once per night: the tick that fires it
/// advances the watermark past its activation time, and every later
/// scheduling step finds it blocked, however far the clock jumps.
pub proof fn lemma_entry_never_refires(t: Seq<WaveEntry>, wm: int, n1: int, n2: int, i: int)
    requires
        table_wf(t),
        0 <= i < t.len(),
        entry_due(t[i], wm, n1),
    ensures
        !entry_due(t[i], spec_watermark(t, wm, n1), n2),
{
    lemma_watermark_covers_fired(t, wm, n1, t.len() as int);
}

/// One scheduling step: fire every entry the clock has passed that the
/// watermark has not, in table order, and advance the watermark so that no
/// entry ever fires twice. Returns one spawn rate per spawner to activate.
pub fn fire_due(table: &Vec<WaveEntry>, watermark_ms: &mut u64, now_ms: u64) -> (rates: Vec<u64>)
    ensures
        rates@ == spec_due_rates(table@, *old(watermark_ms) as int, now_ms as int),
        *final(watermark_ms) == spec_watermark(table@, *old(watermark_ms) as int, now_ms as int),
        *final(watermark_ms) >= *old(watermark_ms),
{
    let ghost wm0: int = *watermark_ms as int;
    let wm_in: u64 = *watermark_ms;
    let mut rates: Vec<u64> = Vec::new();
    let n: usize = table.len();
    let mut i: usize = 0;
    while i < n
        invariant
            n == table@.len(),
            0 <= i <= n,
            wm_in == wm0,
            rates@ == spec_due_rates_upto(table@, wm0, now_ms as int, i as int),
            *watermark_ms == spec_watermark_upto(table@, wm0, now_ms as int, i as int),
            *watermark_ms >= wm0,
        decreases n - i,
    {
        let e: WaveEntry = table[i];
        if wm_in < e.activation_ms && e.activation_ms <= now_ms {
            let mut k: u32 = 0;
            while k < e.count
                invariant
                    0 <= k <= e.count,
                    rates@ == spec_due_rates_upto(table@, wm0, now_ms as int, i as int) + Seq::new(
                        k as nat,
                        |j: int| e.spawn_rate_milli,
                    ),
                decreases e.count - k,
            {
                rates.push(e.spawn_rate_milli);
                proof {
                    assert(rates@ =~= spec_due_rates_upto(table@, wm0, now_ms as int, i as int)
                        + Seq::new((k + 1) as nat, |j: int| e.spawn_rate_milli));
                }
                k = k + 1;
            }
            *watermark_ms = e.activation_ms;
        }
        proof {
            assert(rates@ =~= spec_due_rates_upto(table@, wm0, now_ms as int, i as int + 1));
        }
        i = i + 1;
    }
    rates
}

/// The default night timetable: seven waves of rising intensity.
pub open spec fn spec_default_waves() -> Seq<WaveEntry> {
    seq![
        WaveEntry { activation_ms: 1_000, spawn_rate_milli: 300, count: 2 },
        WaveEntry { activation_ms: 5_000, spawn_rate_milli: 500, count: 3 },
        WaveEntry { activation_ms: 20_000, spawn_rate_milli: 600, count: 3 },
        WaveEntry { activation_ms: 30_000, spawn_rate_milli: 1_500, count: 6 },
        WaveEntry { activation_ms: 40_000, spawn_rate_milli: 5_000, count: 2 },
        WaveEntry { activation_ms: 45_000, spawn_rate_milli: 5_000, count: 7 },
        WaveEntry { activation_ms: 50_000, spawn_rate_milli: 5_000, count: 15 },
    ]
}

/// Build the default timetable.
pub fn default_waves() -> (r: Vec<WaveEntry>)
    ensures
        r@ == spec_default_waves(),
        table_wf(r@),
{
    let mut v: Vec<WaveEntry> = Vec::new();
    v.push(WaveEntry { activation_ms: 1_000, spawn_rate_milli: 300, count: 2 });
    v.push(WaveEntry { activation_ms: 5_000, spawn_rate_milli: 500, count: 3 });
    v.push(WaveEntry { activation_ms: 20_000, spawn_rate_milli: 600, count: 3 });
    v.push(WaveEntry { activation_ms: 30_000, spawn_rate_milli: 1_500, count: 6 });
    v.push(WaveEntry { activation_ms: 40_000, spawn_rate_milli: 5_000, count: 2 });
    v.push(WaveEntry { activation_ms: 45_000, spawn_rate_milli: 5_000, count: 7 });
    v.push(WaveEntry { activation_ms: 50_000, spawn_rate_milli: 5_000, count: 15 });
    proof {
        assert(v@ =~= spec_default_waves());
    }
    v
}

} // verus!
