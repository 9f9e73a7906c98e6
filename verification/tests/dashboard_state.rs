use laminardb_test::history::{push_back_bounded, push_front_all_bounded, push_front_bounded};
use laminardb_test::tui::{
    cdc_insert_due, flow_arrow, format_latency, latency_color, pipeline_status, vpulse, NavKey,
    PhaseMetrics, PhaseStatus, PipelineCounters, TabNav, Tone, MAX_RECENT_BARS, SPARKLINE_HISTORY,
};
use std::collections::VecDeque;

fn reference_latency(us: u64) -> String {
    if us == 0 {
        "--".to_string()
    } else if us < 1_000 {
        format!("{}us", us)
    } else if us < 1_000_000 {
        format!("{:.1}ms", us as f64 / 1_000.0)
    } else {
        format!("{:.2}s", us as f64 / 1_000_000.0)
    }
}

#[test]
fn dashboard_latency_matches_float_formatting() {
    for us in 0..1_200_000u64 {
        assert_eq!(format_latency(us), reference_latency(us), "us = {}", us);
    }
    let mut x: u64 = 0xDEAD_BEEF_1234_5678;
    for _ in 0..1_000_000 {
        x ^= x << 13;
        x ^= x >> 7;
        x ^= x << 17;
        let us = x >> (x % 64);
        assert_eq!(format_latency(us), reference_latency(us), "us = {}", us);
    }
    assert_eq!(format_latency(u64::MAX), reference_latency(u64::MAX));
}

#[test]
fn seconds_readout_within_half_a_hundredth() {
    let mut x: u64 = 0x1234_5678_9ABC_DEF1;
    for _ in 0..100_000 {
        x ^= x << 13;
        x ^= x >> 7;
        x ^= x << 17;
        let us = 1_000_000 + x % ((1u64 << 53) - 1_000_000);
        let s = format_latency(us);
        let t: u128 = s.trim_end_matches('s').replace('.', "").parse().unwrap();
        let diff = (1_000_000 * t) as i128 - 100 * us as i128;
        assert!(diff.abs() <= 500_100, "us = {}", us);
    }
}

#[test]
fn latency_colour_bands() {
    assert_eq!(latency_color(999), Tone::Green);
    assert_eq!(latency_color(1_000), Tone::Yellow);
    assert_eq!(latency_color(9_999), Tone::Yellow);
    assert_eq!(latency_color(10_000), Tone::Orange);
    assert_eq!(latency_color(100_000), Tone::Red);
}

#[test]
fn status_badges() {
    assert_eq!(PhaseStatus::Setting.label(), "SETUP");
    assert_eq!(PhaseStatus::Running.label(), "RUNNING");
    assert_eq!(PhaseStatus::Pass.label(), "PASS");
    assert_eq!(PhaseStatus::Fail("setup failed").label(), "FAIL");
    assert_eq!(PhaseStatus::Setting.color(), Tone::Yellow);
    assert_eq!(PhaseStatus::Running.color(), Tone::Cyan);
    assert_eq!(PhaseStatus::Pass.color(), Tone::Green);
    assert_eq!(PhaseStatus::Fail("x").color(), Tone::Red);
}

fn reference_arrow(cycle: u64, width: usize, active: bool) -> String {
    if !active {
        return "─".repeat(width) + "╳";
    }
    let pos = (cycle as usize / 2) % width;
    let mut s = String::new();
    for i in 0..width {
        s.push(if i == pos { '◆' } else { '─' });
    }
    s.push('▶');
    s
}

#[test]
fn flow_arrows() {
    for cycle in 0..20u64 {
        for width in 1..6usize {
            let (s, tone) = flow_arrow(cycle, width, true);
            assert_eq!(s, reference_arrow(cycle, width, true));
            assert_eq!(tone, Tone::Cyan);
        }
        let (s, tone) = flow_arrow(cycle, 4, false);
        assert_eq!(s, reference_arrow(cycle, 4, false));
        assert_eq!(tone, Tone::Red);
    }
    assert_eq!(flow_arrow(0, 4, true).0, "◆───▶");
    assert_eq!(flow_arrow(0, 0, false).0, "╳");
}

#[test]
fn pulses_and_badges() {
    assert_eq!(vpulse(0, false), Tone::Red);
    assert_eq!(vpulse(0, true), Tone::Cyan);
    assert_eq!(vpulse(1, true), Tone::Cyan);
    assert_eq!(vpulse(2, true), Tone::Blue);
    assert_eq!(vpulse(3, true), Tone::Blue);
    assert_eq!(vpulse(4, true), Tone::Cyan);
    assert_eq!(pipeline_status(0), (" FAIL", Tone::Red));
    assert_eq!(pipeline_status(3), (" PASS", Tone::Green));
    assert!(cdc_insert_due(0) && !cdc_insert_due(1) && !cdc_insert_due(2) && cdc_insert_due(3));
}

#[test]
fn counters_accumulate_per_key() {
    let mut c = PipelineCounters::new();
    assert_eq!(c.get("trades_in"), 0);
    c.record("trades_in", 5);
    c.record("ohlc_out", 2);
    c.record("trades_in", 5);
    assert_eq!(c.get("trades_in"), 10);
    assert_eq!(c.get("ohlc_out"), 2);
    assert_eq!(c.get("missing"), 0);
}

#[test]
fn metrics_track_latency_window() {
    let mut m = PhaseMetrics::new("Phase 1", "desc");
    assert!(m.status == PhaseStatus::Setting);
    m.record_push(5);
    m.record_push(5);
    assert_eq!((m.trades_pushed, m.trades_this_sec), (10, 10));
    for lat in [300u64, 100, 200] {
        assert!(m.latency_sum_fits(lat));
        m.record_latency(lat);
    }
    assert_eq!((m.avg_latency_us, m.min_latency_us, m.max_latency_us), (200, 100, 300));
    for lat in 1..=100u64 {
        m.record_latency(lat);
    }
    assert_eq!(m.latency_us.len(), SPARKLINE_HISTORY);
    assert_eq!(*m.latency_us.front().unwrap(), 41);
    assert_eq!((m.min_latency_us, m.max_latency_us), (41, 100));
    assert_eq!(m.avg_latency_us, (41..=100u64).sum::<u64>() / 60);
    m.record_bar_count(4);
    m.mark_pass_if_received();
    assert!(m.status == PhaseStatus::Pass);
    assert_eq!(m.roll_second(), (10, 4));
    assert_eq!((m.trades_this_sec, m.bars_this_sec), (0, 0));
    assert_eq!(m.trades_sparkline.back(), Some(&10));
    assert_eq!(m.trades_pushed, 10);
    m.record_pipeline_count("trades_in", 3);
    assert_eq!(m.pipeline_counters.get("trades_in"), 3);
    let mut big = PhaseMetrics::new("p", "d");
    big.record_latency(u64::MAX);
    assert!(!big.latency_sum_fits(1));
}

#[test]
fn navigation_wraps() {
    let mut nav = TabNav::new();
    nav.handle_key(NavKey::Next, 0);
    assert_eq!(nav.selected_tab, 0);
    nav.handle_key(NavKey::Next, 3);
    nav.handle_key(NavKey::Next, 3);
    assert_eq!(nav.selected_tab, 2);
    nav.handle_key(NavKey::Next, 3);
    assert_eq!(nav.selected_tab, 0);
    nav.handle_key(NavKey::Prev, 3);
    assert_eq!(nav.selected_tab, 2);
    nav.handle_key(NavKey::Next, 3);
    assert_eq!(nav.selected_tab, 0);
    nav.handle_key(NavKey::Other, 3);
    assert!(!nav.should_quit);
    nav.handle_key(NavKey::Quit, 3);
    assert!(nav.should_quit);
}

#[test]
fn tab_after_key_runs_is_net_moves_mod_tabs() {
    let keys = [NavKey::Prev, NavKey::Prev, NavKey::Next, NavKey::Other, NavKey::Prev, NavKey::Prev, NavKey::Prev, NavKey::Prev, NavKey::Next];
    let mut nav = TabNav::new();
    let mut net: i64 = 0;
    for k in keys {
        nav.handle_key(k, 6);
        net += match k {
            NavKey::Next => 1,
            NavKey::Prev => -1,
            _ => 0,
        };
        assert_eq!(nav.selected_tab as i64, net.rem_euclid(6));
    }
    assert_eq!(nav.selected_tab, 2);
}

#[test]
fn bounded_histories_keep_newest() {
    let mut q: VecDeque<u32> = VecDeque::new();
    for i in 0..70u32 {
        push_back_bounded(&mut q, i, SPARKLINE_HISTORY);
    }
    assert_eq!(q.len(), 60);
    assert_eq!(q.front(), Some(&10));
    assert_eq!(q.back(), Some(&69));
    let mut r: VecDeque<u32> = VecDeque::new();
    for i in 0..55u32 {
        push_front_bounded(&mut r, i, MAX_RECENT_BARS);
    }
    assert_eq!(r.len(), 50);
    assert_eq!(r.front(), Some(&54));
    assert_eq!(r.back(), Some(&5));
}

#[test]
fn recent_rows_newest_first_within_capacity() {
    let mut q: VecDeque<u32> = VecDeque::new();
    push_front_all_bounded(&mut q, vec![1, 2, 3], 5);
    assert_eq!(q, VecDeque::from(vec![3, 2, 1]));
    push_front_all_bounded(&mut q, vec![4, 5, 6], 5);
    assert_eq!(q, VecDeque::from(vec![6, 5, 4, 3, 2]));
    push_front_all_bounded(&mut q, vec![], 5);
    assert_eq!(q.len(), 5);
}

#[test]
fn status_over_a_run() {
    let mut m = PhaseMetrics::new("p", "d");
    assert_eq!(m.status.label(), "SETUP");
    m.finish_setup(true);
    assert_eq!(m.status.label(), "RUNNING");
    m.mark_pass_if_received();
    assert_eq!(m.status.label(), "RUNNING");
    m.record_bar_count(2);
    m.mark_pass_if_received();
    assert_eq!(m.status.label(), "PASS");
    m.mark_pass_if_received();
    assert_eq!(m.status, PhaseStatus::Pass);
    let mut f = PhaseMetrics::new("q", "d");
    f.finish_setup(false);
    assert_eq!(f.status, PhaseStatus::Fail("setup failed"));
    assert_eq!(f.status.label(), "FAIL");
}
