use laminardb_test::pipeline_view::{pipeline_view, ViewSpan};
use laminardb_test::tui::{PipelineCounters, Tone};

fn text(line: &[ViewSpan]) -> String {
    line.iter().map(|s| s.text.as_str()).collect()
}

fn counters(pairs: &[(&str, u64)]) -> PipelineCounters {
    let mut c = PipelineCounters::new();
    for (k, n) in pairs {
        c.record(k, *n);
    }
    c
}

#[test]
fn rust_api_panel_shows_counts_and_badge() {
    let c = counters(&[("trades_in", 25), ("ohlc_out", 7)]);
    let lines = pipeline_view(0, &c, 0);
    assert_eq!(lines.len(), 10);
    assert_eq!(text(&lines[0]), "  Source: trades [25]    push_batch() + watermark(ts + 5000)");
    assert_eq!(lines[0][2].text, " [25]");
    assert_eq!(lines[0][2].tone, Tone::Yellow);
    assert_eq!(text(&lines[7]), "    ▼  results ◆───▶ subscriber buffer ─◆──▶ poll()");
    assert!(lines[8].is_empty());
    assert_eq!(text(&lines[9]), "  Output: ohlc_bars [7] PASS");
    assert_eq!((lines[9][3].tone, lines[9][3].bold), (Tone::Green, true));
    // Pulses alternate cyan and blue every two frames while output flows.
    assert_eq!(lines[1][0].tone, Tone::Cyan);
    assert_eq!(pipeline_view(0, &c, 2)[1][0].tone, Tone::Blue);
}

#[test]
fn idle_stage_is_red_and_fails() {
    let c = counters(&[("trades_in", 5)]);
    let lines = pipeline_view(0, &c, 3);
    assert_eq!(text(&lines[9]), "  Output: ohlc_bars [0] FAIL");
    assert_eq!(lines[9][3].tone, Tone::Red);
    assert_eq!(lines[1][0].tone, Tone::Red);
    assert_eq!(text(&lines[7]), "    ▼  results ────╳ subscriber buffer ────╳ poll()");
}

#[test]
fn cascade_branch_follows_its_counter() {
    let idle = pipeline_view(1, &counters(&[("trades_in", 5), ("ohlc_5s_out", 2)]), 0);
    assert_eq!(text(&idle[6]), "    └───╳ ctx.sql(ohlc_10s): FROM ohlc_5s ◀── empty MemTable!");
    assert_eq!(text(&idle[7]), "          └──▶ ohlc_10s [0] FAIL");
    let live = pipeline_view(1, &counters(&[("trades_in", 5), ("ohlc_5s_out", 2), ("ohlc_10s_out", 3)]), 0);
    assert_eq!(text(&live[5]), "    │ ✓ Fed back as MemTable");
    assert_eq!(text(&live[7]), "          └──▶ ohlc_10s [3] PASS");
    assert_eq!(live[7][1].tone, Tone::Green);
    assert_eq!(text(&live[8]), "          Cascading MVs: ohlc_5s output loops back as input for ohlc_10s");
}

#[test]
fn joins_panel_counts_every_source() {
    let c = counters(&[("trades_in", 10), ("quotes_in", 10), ("orders_in", 2), ("join_out", 4)]);
    let lines = pipeline_view(3, &c, 0);
    assert_eq!(text(&lines[0]), "  Sources: trades[10]  quotes[10]  orders[2]");
    assert_eq!(lines[0][3].tone, Tone::Plain);
    assert_eq!(text(&lines[5]), "    │     └──▶ asof_enriched [0] FAIL");
    assert_eq!(text(&lines[9]), "          └──▶ trade_order_match [4]  subscriber ◆──▶ poll() PASS");
}

#[test]
fn every_tab_has_its_panel() {
    let c = counters(&[("hop_out", 1)]);
    let sizes: Vec<usize> = (0..7).map(|t| pipeline_view(t, &c, 5).len()).collect();
    assert_eq!(sizes, vec![10, 9, 10, 10, 9, 9, 1]);
    let bonus = pipeline_view(5, &c, 5);
    assert_eq!(text(&bonus[2]), "    ├──◆▶ HOP(2s slide, 10s size): hop_volume [1] PASS");
    assert_eq!(text(&bonus[4]), "    ├───╳ SESSION(3s gap): session_burst [0] FAIL");
    assert_eq!(text(&pipeline_view(9, &c, 0)[0]), " No pipeline data");
}
