use laminardb_test::phase7_stress::{
    account_name, add_stream_counts, format_latency, level_duration_secs, levels, peak_index,
    push_percentiles, sink_statement, baseline_comparison, BaselineComparison, cycle_schedule, saturated,
    session_per_batch, stream_name, stress_cycle_span_ms, CycleDraw,
    StressSequencer, LEVEL_COUNT, STREAM_COUNT,
};

#[test]
fn levels_table() {
    let l = levels();
    assert_eq!(l.len(), LEVEL_COUNT);
    let got: Vec<(usize, u64, u64)> = l.iter().map(|s| (s.trades_per_cycle, s.sleep_ms, s.target_tps)).collect();
    assert_eq!(
        got,
        vec![(10, 100, 100), (25, 100, 250), (50, 50, 1_000), (100, 50, 2_000), (200, 20, 10_000), (500, 10, 50_000), (1000, 5, 200_000)]
    );
}

#[test]
fn stream_names_in_creation_order() {
    let names: Vec<&str> = (0..STREAM_COUNT).map(stream_name).collect();
    assert_eq!(names, vec!["vol_baseline", "ohlc_vol", "rapid_fire", "wash_score", "suspicious_match", "asof_match"]);
}

#[test]
fn sink_statement_names_stream_twice() {
    assert_eq!(sink_statement("ohlc_vol"), "CREATE SINK ohlc_vol_sink FROM ohlc_vol");
    assert_eq!(sink_statement("vol_baseline"), format!("CREATE SINK {}_sink FROM {}", "vol_baseline", "vol_baseline"));
}

#[test]
fn cycle_span_is_fifty_ms_per_trade() {
    assert_eq!(stress_cycle_span_ms(0), 0);
    assert_eq!(stress_cycle_span_ms(10), 500);
    assert_eq!(stress_cycle_span_ms(1000), 50_000);
}

#[test]
fn format_latency_units() {
    assert_eq!(format_latency(0), "0us");
    assert_eq!(format_latency(999), "999us");
    assert_eq!(format_latency(1_000), "1.0ms");
    assert_eq!(format_latency(1_250), "1.2ms");
    assert_eq!(format_latency(1_050), "1.1ms");
    assert_eq!(format_latency(999_999), "1000.0ms");
    assert_eq!(format_latency(1_000_000), "1.0s");
    assert_eq!(format_latency(2_345_678), "2.3s");
}

#[test]
fn millisecond_tenths_stay_within_half_a_tenth() {
    for us in 1_000..1_000_000u64 {
        let s = format_latency(us);
        let tenths: u64 = s.trim_end_matches("ms").replace('.', "").parse().unwrap();
        let diff = (100 * tenths) as i64 - us as i64;
        assert!(diff.abs() <= 50, "{} -> {}", us, s);
    }
}

fn draws(n: usize) -> Vec<CycleDraw> {
    (0..n)
        .map(|i| CycleDraw { account_index: (i * 3) % 5, is_buy: i % 2 == 0, volume: 10 + i as i64, with_order: i % 3 == 1 })
        .collect()
}

#[test]
fn cycle_plan_stamps_and_numbers() {
    let mut seq = StressSequencer::new();
    let d = draws(7);
    let plan = seq.plan_cycle(1_000, &d);
    assert_eq!(plan.len(), 7);
    let symbols = ["AAPL", "GOOGL", "MSFT", "AMZN", "TSLA"];
    let mut order_no = 0;
    for (i, t) in plan.iter().enumerate() {
        assert_eq!(t.ts, 1_000 + 50 * i as i64);
        assert_eq!(t.symbol, symbols[i % 5]);
        assert_eq!(t.account_id, account_name(d[i].account_index));
        assert_eq!(t.side, if d[i].is_buy { "buy" } else { "sell" });
        assert_eq!(t.volume, d[i].volume);
        assert_eq!(t.order_ref, format!("T-{:06}", i + 1));
        if d[i].with_order {
            order_no += 1;
            assert_eq!(t.order_id.as_deref(), Some(format!("ORD-{:06}", order_no).as_str()));
        } else {
            assert!(t.order_id.is_none());
        }
    }
    assert_eq!(seq.trade_seq, 7);
    assert_eq!(seq.order_seq, order_no);
    let next = seq.plan_cycle(1_000 + stress_cycle_span_ms(7), &draws(2));
    assert_eq!(next[0].order_ref, "T-000008");
    assert!(next[0].ts >= plan[6].ts + 50);
}

#[test]
fn consecutive_cycles_do_not_overlap() {
    let mut seq = StressSequencer::new();
    let mut base = 5_000i64;
    let mut last = i64::MIN;
    for n in [3usize, 10, 1, 25] {
        let plan = seq.plan_cycle(base, &draws(n));
        for t in &plan {
            assert!(t.ts > last);
            assert!(t.ts >= base && t.ts < base + stress_cycle_span_ms(n));
            last = t.ts;
        }
        base += stress_cycle_span_ms(n);
    }
}

#[test]
fn two_cycles_read_as_one() {
    let mut seq = StressSequencer::new();
    let mut all = seq.plan_cycle(1_000, &draws(4));
    all.extend(seq.plan_cycle(1_000 + stress_cycle_span_ms(4), &draws(3)));
    for (k, t) in all.iter().enumerate() {
        assert_eq!(t.ts, 1_000 + 50 * k as i64);
        assert_eq!(t.order_ref, format!("T-{:06}", k + 1));
    }
}

#[test]
fn baseline_comparison_sides() {
    assert_eq!(baseline_comparison(2276), BaselineComparison::Improvement);
    assert_eq!(baseline_comparison(2274), BaselineComparison::Regression);
    assert_eq!(baseline_comparison(2275), BaselineComparison::Identical);
    assert_eq!(baseline_comparison(0), BaselineComparison::Regression);
}

fn reference_percentiles(mut v: Vec<u64>) -> (u64, u64) {
    v.sort();
    let n = v.len();
    let p50 = if n > 0 { v[n / 2] } else { 0 };
    let p99 = if n > 0 { v[(n * 99 / 100).min(n - 1)] } else { 0 };
    (p50, p99)
}

#[test]
fn percentiles_match_sorted_ranks() {
    assert_eq!(push_percentiles(vec![]), (0, 0));
    assert_eq!(push_percentiles(vec![7]), (7, 7));
    assert_eq!(push_percentiles(vec![5, 1, 3]), (3, 5));
    let mut x: u64 = 99;
    for len in 0..300usize {
        let v: Vec<u64> = (0..len)
            .map(|_| {
                x = x.wrapping_mul(6364136223846793005).wrapping_add(1442695040888963407);
                x >> 40
            })
            .collect();
        let got = push_percentiles(v.clone());
        assert_eq!(got, reference_percentiles(v));
        assert!(got.0 <= got.1);
    }
}

#[test]
fn peak_is_last_maximum() {
    assert_eq!(peak_index(&vec![]), None);
    let v = vec![3u64, 9, 2, 9, 1];
    assert_eq!(peak_index(&v), Some(3));
    let reference = v.iter().enumerate().max_by_key(|(_, t)| **t).map(|(i, _)| i);
    assert_eq!(peak_index(&v), reference);
    assert_eq!(peak_index(&vec![4, 4, 4]), Some(2));
}

#[test]
fn stream_totals_add_up() {
    let mut totals = vec![0u64; 6];
    add_stream_counts(&mut totals, &vec![1, 2, 3, 4, 5, 6]);
    add_stream_counts(&mut totals, &vec![10, 0, 0, 0, 0, 1]);
    assert_eq!(totals, vec![11, 2, 3, 4, 5, 7]);
}

#[test]
fn level_duration_setting() {
    assert_eq!(level_duration_secs(None), 10);
    assert_eq!(level_duration_secs(Some("3")), 3);
    assert_eq!(level_duration_secs(Some("+30")), 30);
    assert_eq!(level_duration_secs(Some("-1")), 10);
    assert_eq!(level_duration_secs(Some("ten")), 10);
    assert_eq!(level_duration_secs(Some("")), 10);
}

#[test]
fn saturation_and_session_thresholds() {
    assert!(saturated(899, 1_000));
    assert!(!saturated(900, 1_000));
    assert!(!saturated(90, 100));
    assert!(saturated(0, 1));
    assert!(!saturated(0, 0));
    assert!(session_per_batch(91, 100));
    assert!(!session_per_batch(90, 100));
    assert!(!session_per_batch(5, 0));
}

#[test]
fn level_cycles_follow_one_another() {
    let mut seq = StressSequencer::new();
    let e0 = 1_700_000_000_000i64;
    let c = 4usize;
    let span = stress_cycle_span_ms(c);
    let mut ts = e0;
    let mut last = i64::MIN;
    for k in 0..5i64 {
        let plan = seq.plan_cycle(ts, &draws(c));
        for (i, t) in plan.iter().enumerate() {
            assert_eq!(t.ts, e0 + 50 * (k * c as i64 + i as i64));
            assert!(t.ts > last);
            last = t.ts;
        }
        let s = cycle_schedule(ts, span);
        assert_eq!(s.watermark, e0 + (k + 1) * span + 10_000);
        assert!(last < s.watermark);
        ts = s.next_ts;
    }
}
