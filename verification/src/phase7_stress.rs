//! Stress-run logic of the six-stream fraud-detection pipeline: the load
//! levels, latency read-outs, percentiles, and the deterministic part of
//! each generated cycle.

use vstd::prelude::*;

use crate::binary64::{fixed_units, fixed_units_exec, two_pow};
use crate::decimal::{decimal, parse_integer, parse_u64, push_decimal};
use crate::generator::{format_sequence_id, sequence_label, symbol_name, symbol_text, SYMBOL_COUNT};
use crate::text::{chars_of, fixed_text, push_fixed, push_str_chars, string_from_chars};

verus! {

/// One load level of the stress run.
pub struct StressLevel {
    pub trades_per_cycle: usize,
    pub sleep_ms: u64,
    pub target_tps: u64,
}

/// Text of a latency given in microseconds: whole microseconds below 1 ms,
/// milliseconds with one decimal below 1 s, seconds with one decimal above.
pub open spec fn latency_text(us: nat) -> Seq<char> {
    if us < 1_000 {
        decimal(us) + "us"@
    } else if us < 1_000_000 {
        fixed_text(fixed_units(us, 1_000, 1), 1) + "ms"@
    } else {
        fixed_text(fixed_units(us, 1_000_000, 1), 1) + "s"@
    }
}

/// Formats a latency in microseconds (`"750us"`, `"1.5ms"`, `"2.0s"`).
pub fn format_latency(us: u64) -> (s: String)
    ensures
        s@ == latency_text(us as nat),
{
    let mut out: Vec<char> = Vec::new();
    if us < 1_000 {
        push_decimal(&mut out, us);
        push_str_chars(&mut out, "us");
    } else if us < 1_000_000 {
        proof {
            crate::binary64::lemma_two_pow_values();
        }
        let t = fixed_units_exec(us, 1_000, 1);
        push_fixed(&mut out, t, 1);
        push_str_chars(&mut out, "ms");
    } else {
        let t = fixed_units_exec(us, 1_000_000, 1);
        push_fixed(&mut out, t, 1);
        push_str_chars(&mut out, "s");
    }
    assert(out@ =~= latency_text(us as nat));
    string_from_chars(&out)
}


pub open spec fn level_spec(i: nat) -> (usize, u64, u64) {
    if i == 0 {
        (10, 100, 100)
    } else if i == 1 {
        (25, 100, 250)
    } else if i == 2 {
        (50, 50, 1_000)
    } else if i == 3 {
        (100, 50, 2_000)
    } else if i == 4 {
        (200, 20, 10_000)
    } else if i == 5 {
        (500, 10, 50_000)
    } else {
        (1000, 5, 200_000)
    }
}

/// Number of load levels.
pub const LEVEL_COUNT: usize = 7;

/// The load levels, from 100 to 200,000 target trades per second.
pub fn levels() -> (r: Vec<StressLevel>)
    ensures
        r@.len() == LEVEL_COUNT,
        forall|i: int|
            0 <= i < LEVEL_COUNT ==> {
                let (per_cycle, sleep, target) = #[trigger] level_spec(i as nat);
                r@[i].trades_per_cycle == per_cycle && r@[i].sleep_ms == sleep && r@[i].target_tps
                    == target
            },
{
    let mut r: Vec<StressLevel> = Vec::new();
    r.push(StressLevel { trades_per_cycle: 10, sleep_ms: 100, target_tps: 100 });
    r.push(StressLevel { trades_per_cycle: 25, sleep_ms: 100, target_tps: 250 });
    r.push(StressLevel { trades_per_cycle: 50, sleep_ms: 50, target_tps: 1_000 });
    r.push(StressLevel { trades_per_cycle: 100, sleep_ms: 50, target_tps: 2_000 });
    r.push(StressLevel { trades_per_cycle: 200, sleep_ms: 20, target_tps: 10_000 });
    r.push(StressLevel { trades_per_cycle: 500, sleep_ms: 10, target_tps: 50_000 });
    r.push(StressLevel { trades_per_cycle: 1000, sleep_ms: 5, target_tps: 200_000 });
    assert forall|i: int| 0 <= i < LEVEL_COUNT implies {
        let (per_cycle, sleep, target) = #[trigger] level_spec(i as nat);
        r@[i].trades_per_cycle == per_cycle && r@[i].sleep_ms == sleep && r@[i].target_tps == target
    } by {
        assert(i == 0 || i == 1 || i == 2 || i == 3 || i == 4 || i == 5 || i == 6);
    };
    r
}

/// Number of detection streams.
pub const STREAM_COUNT: usize = 6;

pub open spec fn stream_text(i: nat) -> Seq<char> {
    if i == 0 {
        "vol_baseline"@
    } else if i == 1 {
        "ohlc_vol"@
    } else if i == 2 {
        "rapid_fire"@
    } else if i == 3 {
        "wash_score"@
    } else if i == 4 {
        "suspicious_match"@
    } else {
        "asof_match"@
    }
}

/// Name of detection stream `i`, in the order the pipeline creates them.
pub fn stream_name(i: usize) -> (s: &'static str)
    requires
        i < STREAM_COUNT,
    ensures
        s@ == stream_text(i as nat),
{
    if i == 0 {
        "vol_baseline"
    } else if i == 1 {
        "ohlc_vol"
    } else if i == 2 {
        "rapid_fire"
    } else if i == 3 {
        "wash_score"
    } else if i == 4 {
        "suspicious_match"
    } else {
        "asof_match"
    }
}

/// `CREATE SINK {name}_sink FROM {name}`.
pub open spec fn sink_statement_text(name: Seq<char>) -> Seq<char> {
    "CREATE SINK "@ + name + "_sink FROM "@ + name
}

/// Statement that gives stream `name` its sink.
pub fn sink_statement(name: &str) -> (s: String)
    ensures
        s@ == sink_statement_text(name@),
{
    let mut out: Vec<char> = Vec::new();
    push_str_chars(&mut out, "CREATE SINK ");
    push_str_chars(&mut out, name);
    push_str_chars(&mut out, "_sink FROM ");
    push_str_chars(&mut out, name);
    assert(out@ =~= sink_statement_text(name@));
    string_from_chars(&out)
}

/// Spacing of trades within a cycle, in milliseconds of event time.
pub const STEP_MS: i64 = 50;

/// Event time of trade `i` in a cycle starting at `base`.
pub open spec fn cycle_stamp(base: int, i: int) -> int {
    base + STEP_MS * i
}

/// Event-time span of a cycle of `count` trades.
pub open spec fn cycle_span(count: int) -> int {
    STEP_MS * count
}

/// Event-time span of a stress cycle (constant 50 ms step):
/// `count as i64 * 50`.
pub fn stress_cycle_span_ms(count: usize) -> (span: i64)
    requires
        i64::MIN <= cycle_span(count as i64 as int) <= i64::MAX,
    ensures
        span == cycle_span(count as i64 as int),
{
    (count as i64) * STEP_MS
}

// ---------------------------------------------------------------------------
// Cycle planning

/// Number of regular trading accounts.
pub const ACCOUNT_COUNT: usize = 5;

pub open spec fn account_text(i: nat) -> Seq<char> {
    if i == 0 {
        "ACCT-001"@
    } else if i == 1 {
        "ACCT-002"@
    } else if i == 2 {
        "ACCT-003"@
    } else if i == 3 {
        "ACCT-004"@
    } else {
        "ACCT-005"@
    }
}

/// Account `i` is `ACCT-00` followed by the decimal of `i + 1`, so the five
/// accounts have five different names.
pub proof fn law_account_names(i: nat, j: nat)
    requires
        i < ACCOUNT_COUNT,
        j < ACCOUNT_COUNT,
    ensures
        account_text(i) == "ACCT-00"@ + decimal(i + 1),
        i != j ==> account_text(i) != account_text(j),
{
    reveal_strlit("ACCT-00");
    reveal_strlit("ACCT-001");
    reveal_strlit("ACCT-002");
    reveal_strlit("ACCT-003");
    reveal_strlit("ACCT-004");
    reveal_strlit("ACCT-005");
    assert(decimal(i + 1) == seq![crate::decimal::digit_char(i + 1)]);
    assert(decimal(j + 1) == seq![crate::decimal::digit_char(j + 1)]);
    assert(account_text(i) =~= "ACCT-00"@ + decimal(i + 1));
    assert(account_text(j) =~= "ACCT-00"@ + decimal(j + 1));
    if i != j {
        assert(account_text(i)[7] != account_text(j)[7]);
    }
}

/// Account `i`: ACCT-001 .. ACCT-005.
pub fn account_name(i: usize) -> (s: &'static str)
    requires
        i < ACCOUNT_COUNT,
    ensures
        s@ == account_text(i as nat),
        s@ == "ACCT-00"@ + decimal((i + 1) as nat),
{
    proof {
        law_account_names(i as nat, i as nat);
    }
    if i == 0 {
        "ACCT-001"
    } else if i == 1 {
        "ACCT-002"
    } else if i == 2 {
        "ACCT-003"
    } else if i == 3 {
        "ACCT-004"
    } else {
        "ACCT-005"
    }
}

/// Random choices made for one trade of a cycle.
pub struct CycleDraw {
    /// Index of the trading account (below `ACCOUNT_COUNT`).
    pub account_index: usize,
    pub is_buy: bool,
    pub volume: i64,
    /// Whether the trade comes with a matching order.
    pub with_order: bool,
}

/// One trade of a cycle, without its price; `order_id` is set for the
/// trades that come with a matching order of the same account, symbol,
/// side and quantity.
pub struct PlannedTrade {
    pub account_id: &'static str,
    pub symbol: &'static str,
    pub side: &'static str,
    pub volume: i64,
    pub order_ref: String,
    pub ts: i64,
    pub order_id: Option<String>,
}

pub open spec fn side_text(is_buy: bool) -> Seq<char> {
    if is_buy { "buy"@ } else { "sell"@ }
}

/// Number of draws among the first `i` that come with an order.
pub open spec fn orders_before(d: Seq<CycleDraw>, i: int) -> nat
    decreases i,
{
    if i <= 0 {
        0
    } else {
        orders_before(d, i - 1) + if d[i - 1].with_order { 1nat } else { 0nat }
    }
}

pub proof fn lemma_orders_before_le(d: Seq<CycleDraw>, i: int)
    requires
        0 <= i,
    ensures
        orders_before(d, i) <= i,
    decreases i,
{
    if i > 0 {
        lemma_orders_before_le(d, i - 1);
    }
}

proof fn lemma_orders_before_mono(d: Seq<CycleDraw>, i: int, j: int)
    requires
        0 <= i <= j,
    ensures
        orders_before(d, i) <= orders_before(d, j),
    decreases j - i,
{
    if i < j {
        lemma_orders_before_mono(d, i, j - 1);
    }
}

/// Sequence counters of a stress generator.
pub struct StressSequencer {
    pub trade_seq: u64,
    pub order_seq: u64,
}

impl StressSequencer {
    pub fn new() -> (r: Self)
        ensures
            r.trade_seq == 0,
            r.order_seq == 0,
    {
        StressSequencer { trade_seq: 0, order_seq: 0 }
    }

    /// Lays out one cycle: trade `i` is stamped `base_ts + 50 * i`, trades
    /// cycle through the symbols, every trade gets the next trade reference
    /// `T-nnnnnn`, and every trade drawn with an order gets the next order
    /// identifier `ORD-nnnnnn`.
    pub fn plan_cycle(&mut self, base_ts: i64, draws: &Vec<CycleDraw>) -> (r: Vec<PlannedTrade>)
        requires
            forall|i: int| 0 <= i < draws@.len() ==> #[trigger] draws@[i].account_index < ACCOUNT_COUNT,
            old(self).trade_seq + draws@.len() <= u64::MAX,
            old(self).order_seq + orders_before(draws@, draws@.len() as int) <= u64::MAX,
            draws@.len() == 0 || (50 * (draws@.len() - 1) <= i64::MAX && base_ts + 50 * (draws@.len() - 1) <= i64::MAX),
        ensures
            r@.len() == draws@.len(),
            final(self).trade_seq == old(self).trade_seq + draws@.len(),
            final(self).order_seq == old(self).order_seq + orders_before(draws@, draws@.len() as int),
            forall|i: int|
                0 <= i < r@.len() ==> {
                    let t = #[trigger] r@[i];
                    let d = draws@[i];
                    &&& t.ts == cycle_stamp(base_ts as int, i)
                    &&& t.symbol@ == symbol_text((i % SYMBOL_COUNT as int) as nat)
                    &&& t.account_id@ == account_text(d.account_index as nat)
                    &&& t.side@ == side_text(d.is_buy)
                    &&& t.volume == d.volume
                    &&& t.order_ref@ == sequence_label("T-"@, (old(self).trade_seq + i + 1) as nat)
                    &&& (d.with_order <==> t.order_id is Some)
                    &&& (t.order_id matches Some(o) ==> o@ == sequence_label(
                        "ORD-"@,
                        (old(self).order_seq + orders_before(draws@, i) + 1) as nat,
                    ))
                },
    {
        let n = draws.len();
        let mut out: Vec<PlannedTrade> = Vec::new();
        let mut i: usize = 0;
        while i < n
            invariant
                i <= n,
                n == draws@.len(),
                out@.len() == i,
                forall|k: int| 0 <= k < draws@.len() ==> #[trigger] draws@[k].account_index < ACCOUNT_COUNT,
                old(self).trade_seq + n <= u64::MAX,
                old(self).order_seq + orders_before(draws@, n as int) <= u64::MAX,
                n == 0 || (50 * (n - 1) <= i64::MAX && base_ts + 50 * (n - 1) <= i64::MAX),
                self.trade_seq == old(self).trade_seq + i,
                self.order_seq == old(self).order_seq + orders_before(draws@, i as int),
                forall|k: int|
                    0 <= k < i ==> {
                        let t = #[trigger] out@[k];
                        let d = draws@[k];
                        &&& t.ts == cycle_stamp(base_ts as int, k)
                        &&& t.symbol@ == symbol_text((k % SYMBOL_COUNT as int) as nat)
                        &&& t.account_id@ == account_text(d.account_index as nat)
                        &&& t.side@ == side_text(d.is_buy)
                        &&& t.volume == d.volume
                        &&& t.order_ref@ == sequence_label("T-"@, (old(self).trade_seq + k + 1) as nat)
                        &&& (d.with_order <==> t.order_id is Some)
                        &&& (t.order_id matches Some(o) ==> o@ == sequence_label(
                            "ORD-"@,
                            (old(self).order_seq + orders_before(draws@, k) + 1) as nat,
                        ))
                    },
            decreases n - i,
        {
            proof {
                lemma_orders_before_le(draws@, i as int);
                lemma_orders_before_mono(draws@, i + 1, n as int);
            }
            let d = &draws[i];
            let ts = base_ts + (i as i64) * STEP_MS;
            let symbol = symbol_name(i % SYMBOL_COUNT);
            let account_id = account_name(d.account_index);
            let side = if d.is_buy { "buy" } else { "sell" };
            self.trade_seq = self.trade_seq + 1;
            let order_ref = format_sequence_id("T-", self.trade_seq);
            let order_id = if d.with_order {
                self.order_seq = self.order_seq + 1;
                Some(format_sequence_id("ORD-", self.order_seq))
            } else {
                None
            };
            out.push(PlannedTrade { account_id, symbol, side, volume: d.volume, order_ref, ts, order_id });
            i = i + 1;
        }
        out
    }
}

/// Consecutive cycles do not overlap in event time: a cycle of `count`
/// trades starting at `base` stamps its trades, in increasing order, inside
/// `[base, base + span)`, and every trade of the next cycle, which starts at
/// `base + span`, comes after all of them.
pub proof fn law_cycles_do_not_overlap(base: int, count: int, next_count: int, i: int, j: int)
    requires
        0 <= i < count,
        0 <= j < next_count,
    ensures
        base <= cycle_stamp(base, i) < base + cycle_span(count),
        forall|k: int| i < k < count ==> cycle_stamp(base, i) < #[trigger] cycle_stamp(base, k),
        cycle_stamp(base, i) < cycle_stamp(base + cycle_span(count), j),
{
}

/// Two cycles in a row read as one: when the second cycle starts where the
/// first one's span ends, its trade `j` is stamped as trade `c1 + j` of a
/// single cycle of `c1 + c2` trades from the first base, so the stamps of
/// both cycles together run `base, base + 50, ..., base + 50 (c1 + c2 - 1)`
/// (and `plan_cycle` numbers the second cycle's trades on from the first's).
pub proof fn law_consecutive_cycles(base: int, c1: int, c2: int, j: int)
    requires
        0 <= c1,
        0 <= j < c2,
    ensures
        cycle_stamp(base + cycle_span(c1), j) == cycle_stamp(base, c1 + j),
        cycle_stamp(base, c1 + j) < cycle_stamp(base, c1 + c2),
{
}

/// Event-time bookkeeping after pushing one cycle of a level: the watermark
/// set on both sources, and where the next cycle starts.
#[derive(Clone, Copy, PartialEq, Eq, Debug)]
pub struct CycleSchedule {
    pub watermark: i64,
    pub next_ts: i64,
}

/// A cycle starting at `event_ts` and spanning `span` ms sets the watermark
/// 10 s past its end, and the next cycle starts at its end.
pub fn cycle_schedule(event_ts: i64, span: i64) -> (r: CycleSchedule)
    requires
        0 <= span,
        event_ts + span + 10_000 <= i64::MAX,
    ensures
        r.watermark == event_ts + span + 10_000,
        r.next_ts == event_ts + span,
{
    CycleSchedule { watermark: event_ts + span + 10_000, next_ts: event_ts + span }
}

/// Start of cycle `k` of a level whose cycles of `count` trades follow one
/// another from `e0` (each next start is `cycle_schedule`'s `next_ts`).
pub open spec fn level_cycle_start(e0: int, count: int, k: nat) -> int
    decreases k,
{
    if k == 0 { e0 } else { level_cycle_start(e0, count, (k - 1) as nat) + cycle_span(count) }
}

/// Over a level, cycle `k` stamps its trade `i` at `e0 + 50 (k count + i)`,
/// so all stamps of the level strictly increase (cycle by cycle, then trade
/// by trade) and every stamp of cycle `k` lies below the watermark set after
/// it, `start + span + 10_000`.
pub proof fn law_level_cycles(e0: int, count: int, k: nat, i: int, k2: nat, i2: int)
    requires
        0 <= i < count,
        0 <= i2 < count,
        k < k2 || (k == k2 && i < i2),
    ensures
        level_cycle_start(e0, count, k) == e0 + STEP_MS * count * k,
        cycle_stamp(level_cycle_start(e0, count, k), i) == e0 + STEP_MS * (count * k + i),
        cycle_stamp(level_cycle_start(e0, count, k), i) < cycle_stamp(level_cycle_start(e0, count, k2), i2),
        cycle_stamp(level_cycle_start(e0, count, k), i) < level_cycle_start(e0, count, k) + cycle_span(count) + 10_000,
    decreases k2,
{
    lemma_level_cycle_start(e0, count, k);
    lemma_level_cycle_start(e0, count, k2);
    assert(STEP_MS * (count * k + i) < STEP_MS * (count * k2 + i2)) by (nonlinear_arith)
        requires
            0 <= i < count,
            0 <= i2 < count,
            k < k2 || (k == k2 && i < i2),
            STEP_MS == 50,
    ;
    assert(STEP_MS * count * k + STEP_MS * i == STEP_MS * (count * k + i)) by (nonlinear_arith);
    assert(STEP_MS * count * k2 + STEP_MS * i2 == STEP_MS * (count * k2 + i2)) by (nonlinear_arith);
}

proof fn lemma_level_cycle_start(e0: int, count: int, k: nat)
    ensures
        level_cycle_start(e0, count, k) == e0 + STEP_MS * count * k,
    decreases k,
{
    if k > 0 {
        let km = (k - 1) as nat;
        lemma_level_cycle_start(e0, count, km);
        assert(level_cycle_start(e0, count, k) == level_cycle_start(e0, count, km) + cycle_span(count));
        let x = STEP_MS as int;
        assert(x * count * km + x * count == x * count * k) by (nonlinear_arith)
            requires
                km + 1 == k,
        ;
    } else {
        assert(STEP_MS * count * k == 0) by (nonlinear_arith)
            requires
                k == 0,
        ;
    }
}

// ---------------------------------------------------------------------------
// Level summaries

/// `s` sorted ascending.
pub open spec fn ascending(s: Seq<u64>) -> Seq<u64> {
    s.sort_by(|a: u64, b: u64| a <= b)
}

/// Index of the 99th percentile among `n` sorted samples.
pub open spec fn p99_index(n: nat) -> nat {
    if n * 99 / 100 < n - 1 { n * 99 / 100 } else { (n - 1) as nat }
}

/// Sorts with `<[u64]>::sort`. Trusted: the vector ends up holding its old
/// elements in ascending order (for integers the sorted order is unique).
#[verifier::external_body]
fn sort_u64(v: &mut Vec<u64>)
    ensures
        final(v)@ == ascending(old(v)@),
{
    v.sort();
}

/// Median and 99th percentile of the push latencies of a level (both 0
/// when there are none).
pub fn push_percentiles(latencies: Vec<u64>) -> (r: (u64, u64))
    requires
        latencies@.len() * 99 <= usize::MAX,
    ensures
        latencies@.len() == 0 ==> r == (0u64, 0u64),
        latencies@.len() > 0 ==> r.0 == ascending(latencies@)[(latencies@.len() / 2) as int] && r.1
            == ascending(latencies@)[p99_index(latencies@.len() as nat) as int],
{
    let mut v = latencies;
    let ghost orig = v@;
    sort_u64(&mut v);
    proof {
        orig.lemma_sort_by_ensures(|a: u64, b: u64| a <= b);
        vstd::seq_lib::to_multiset_len(orig);
        vstd::seq_lib::to_multiset_len(v@);
    }
    let n = v.len();
    if n == 0 {
        return (0, 0);
    }
    let p50 = v[n / 2];
    let idx = n * 99 / 100;
    let j = if idx < n - 1 { idx } else { n - 1 };
    (p50, v[j])
}

/// The median never exceeds the 99th percentile.
pub proof fn law_median_below_p99(s: Seq<u64>)
    requires
        s.len() > 0,
    ensures
        ascending(s)[(s.len() / 2) as int] <= ascending(s)[p99_index(s.len() as nat) as int],
{
    s.lemma_sort_by_ensures(|a: u64, b: u64| a <= b);
    vstd::seq_lib::to_multiset_len(s);
    vstd::seq_lib::to_multiset_len(ascending(s));
    let n = s.len();
    assert(n / 2 <= p99_index(n as nat)) by (nonlinear_arith)
        requires
            n >= 1,
            p99_index(n as nat) == if n * 99 / 100 < n - 1 { n * 99 / 100 } else { (n - 1) as nat },
    ;
    let t = ascending(s);
    let i = n / 2;
    let j = p99_index(n as nat) as int;
    if i < j {
        assert((|a: u64, b: u64| a <= b)(t[i as int], t[j]));
    }
}

/// Index of the level with the highest throughput; the last one among
/// equals (`max_by_key`), `None` for no levels.
pub fn peak_index(actual_tps: &Vec<u64>) -> (r: Option<usize>)
    ensures
        actual_tps@.len() == 0 <==> r is None,
        r matches Some(p) ==> p < actual_tps@.len() && (forall|j: int|
            0 <= j < actual_tps@.len() ==> #[trigger] actual_tps@[j] <= actual_tps@[p as int]) && (
        forall|j: int| p < j < actual_tps@.len() ==> #[trigger] actual_tps@[j] < actual_tps@[p as int]),
{
    let n = actual_tps.len();
    if n == 0 {
        return None;
    }
    let mut best: usize = 0;
    let mut i: usize = 1;
    while i < n
        invariant
            1 <= i <= n,
            n == actual_tps@.len(),
            best < i,
            forall|j: int| 0 <= j < i ==> #[trigger] actual_tps@[j] <= actual_tps@[best as int],
            forall|j: int| best < j < i ==> #[trigger] actual_tps@[j] < actual_tps@[best as int],
        decreases n - i,
    {
        if actual_tps[i] >= actual_tps[best] {
            best = i;
        }
        i = i + 1;
    }
    Some(best)
}

/// A level saturates when its actual throughput stays under 90% of its
/// target: `10 * actual < 9 * target`.
pub fn saturated(actual_tps: u64, target_tps: u64) -> (r: bool)
    ensures
        r == (10 * actual_tps < 9 * target_tps),
{
    (actual_tps as u128) * 10 < (target_tps as u128) * 9
}

/// The session stream emits per batch (not merging sessions) when its
/// outputs exceed 90% of the trades: `outputs / trades > 0.9`, with no
/// trades counting as merged.
pub fn session_per_batch(outputs: u64, trades: u64) -> (r: bool)
    ensures
        r == (trades > 0 && 10 * outputs > 9 * trades),
{
    trades > 0 && (outputs as u128) * 10 > (trades as u128) * 9
}

/// Peak throughput of the published crate's run, the stress run's baseline.
pub const BASELINE_TPS: u64 = 2275;

/// How a peak throughput compares with the baseline.
#[derive(Clone, Copy, PartialEq, Eq, Debug)]
pub enum BaselineComparison {
    Improvement,
    Regression,
    Identical,
}

/// Above the baseline is an improvement, below a regression.
pub fn baseline_comparison(peak_tps: u64) -> (r: BaselineComparison)
    ensures
        peak_tps > BASELINE_TPS ==> r == BaselineComparison::Improvement,
        peak_tps < BASELINE_TPS ==> r == BaselineComparison::Regression,
        peak_tps == BASELINE_TPS ==> r == BaselineComparison::Identical,
{
    if peak_tps > BASELINE_TPS {
        BaselineComparison::Improvement
    } else if peak_tps < BASELINE_TPS {
        BaselineComparison::Regression
    } else {
        BaselineComparison::Identical
    }
}

/// Adds one level's per-stream output counts to the running totals.
pub fn add_stream_counts(totals: &mut Vec<u64>, counts: &Vec<u64>)
    requires
        old(totals)@.len() == STREAM_COUNT,
        counts@.len() == STREAM_COUNT,
        forall|i: int| 0 <= i < STREAM_COUNT ==> old(totals)@[i] + counts@[i] <= u64::MAX,
    ensures
        final(totals)@.len() == STREAM_COUNT,
        forall|i: int| 0 <= i < STREAM_COUNT ==> #[trigger] final(totals)@[i] == old(totals)@[i] + counts@[i],
{
    let mut i: usize = 0;
    while i < STREAM_COUNT
        invariant
            i <= STREAM_COUNT,
            totals@.len() == STREAM_COUNT,
            counts@.len() == STREAM_COUNT,
            forall|k: int| 0 <= k < STREAM_COUNT ==> old(totals)@[k] + counts@[k] <= u64::MAX,
            forall|k: int| 0 <= k < i ==> #[trigger] totals@[k] == old(totals)@[k] + counts@[k],
            forall|k: int| i <= k < STREAM_COUNT ==> #[trigger] totals@[k] == old(totals)@[k],
        decreases STREAM_COUNT - i,
    {
        let v = totals[i] + counts[i];
        totals.set(i, v);
        i = i + 1;
    }
}

/// Seconds per level when `STRESS_DURATION` is unset or unreadable.
pub const DEFAULT_LEVEL_SECS: u64 = 10;

/// Seconds each level runs: the value of `STRESS_DURATION` when it reads
/// as a `u64`, else 10.
pub fn level_duration_secs(setting: Option<&str>) -> (secs: u64)
    ensures
        secs == (match setting {
            None => DEFAULT_LEVEL_SECS as int,
            Some(s) => match parse_integer(s@, 0, u64::MAX as int) {
                Some(v) => v,
                None => DEFAULT_LEVEL_SECS as int,
            },
        }),
{
    match setting {
        None => DEFAULT_LEVEL_SECS,
        Some(s) => {
            let v = chars_of(s);
            match parse_u64(&v) {
                Some(x) => x,
                None => DEFAULT_LEVEL_SECS,
            }
        },
    }
}

} // verus!
