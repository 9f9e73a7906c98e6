//! The pipeline panel of the dashboard: for each phase tab, the lines of the
//! flow diagram with the live counter of every stage, the moving arrows, the
//! pulsing connectors and the PASS/FAIL badges, as plain styled text.

use vstd::prelude::*;

use crate::decimal::{decimal, push_decimal};
use crate::text::{push_str_chars, string_from_chars};
use crate::tui::{arrow_text, flow_arrow, pipeline_status, pulse_tone, vpulse, PipelineCounters, Tone};

verus! {

/// A run of text in one colour, bold or not.
pub struct ViewSpan {
    pub text: String,
    pub tone: Tone,
    pub bold: bool,
}

/// Mathematical value of a span.
pub struct SpanSpec {
    pub text: Seq<char>,
    pub tone: Tone,
    pub bold: bool,
}

impl View for ViewSpan {
    type V = SpanSpec;

    open spec fn view(&self) -> SpanSpec {
        SpanSpec { text: self.text@, tone: self.tone, bold: self.bold }
    }
}

pub open spec fn line_view(l: Seq<ViewSpan>) -> Seq<SpanSpec> {
    l.map_values(|s: ViewSpan| s@)
}

pub open spec fn view_of_lines(ls: Seq<Vec<ViewSpan>>) -> Seq<Seq<SpanSpec>> {
    ls.map_values(|l: Vec<ViewSpan>| line_view(l@))
}

// ---------------------------------------------------------------------------
// Span vocabulary

pub open spec fn plain(text: Seq<char>, tone: Tone) -> SpanSpec {
    SpanSpec { text, tone, bold: false }
}

pub open spec fn strong(text: Seq<char>, tone: Tone) -> SpanSpec {
    SpanSpec { text, tone, bold: true }
}

/// ` [n]` (with a leading space when `spaced`) or `[n]`.
pub open spec fn count_text(n: nat, spaced: bool) -> Seq<char> {
    (if spaced { " ["@ } else { "["@ }) + decimal(n) + "]"@
}

pub open spec fn count_span(n: nat, spaced: bool, tone: Tone) -> SpanSpec {
    plain(count_text(n, spaced), tone)
}

pub open spec fn arrow_span(cycle: u64, width: usize, active: bool) -> SpanSpec {
    plain(arrow_text(cycle, width, active), if active { Tone::Cyan } else { Tone::Red })
}

/// Green bold ` PASS` once the stage produced output, red bold ` FAIL` before.
pub open spec fn badge_span(n: nat) -> SpanSpec {
    if n > 0 { strong(" PASS"@, Tone::Green) } else { strong(" FAIL"@, Tone::Red) }
}

pub open spec fn pulse_span(text: Seq<char>, cycle: u64, active: bool) -> SpanSpec {
    plain(text, pulse_tone(cycle as nat, active))
}

/// Count under `k`, 0 for a stage with nothing recorded.
pub open spec fn counter(m: Map<Seq<char>, u64>, k: Seq<char>) -> nat {
    if m.contains_key(k) { m[k] as nat } else { 0 }
}

pub open spec fn dim(text: Seq<char>) -> SpanSpec {
    plain(text, Tone::DarkGray)
}

pub open spec fn ok_tone(active: bool) -> Tone {
    if active { Tone::Green } else { Tone::Red }
}

// ---------------------------------------------------------------------------
// The panel, tab by tab

/// Phase 1: one source, one windowed query.
pub open spec fn rust_api_view(m: Map<Seq<char>, u64>, cy: u64) -> Seq<Seq<SpanSpec>> {
    let t_in = counter(m, "trades_in"@);
    let ohlc = counter(m, "ohlc_out"@);
    let active = ohlc > 0;
    seq![
        seq![dim("  Source: "@), strong("trades"@, Tone::Yellow), count_span(t_in, true, Tone::Yellow), dim("    push_batch() + watermark(ts + 5000)"@)],
        seq![pulse_span("    \u{2502}"@, cy, active)],
        seq![pulse_span("    \u{25bc}"@, cy, active)],
        seq![dim("  MemTable: "@), strong("trades"@, Tone::Magenta), dim(" (registered in DataFusion ctx each 100ms tick)"@)],
        seq![pulse_span("    \u{2502}"@, cy, active), strong("  ctx.sql()"@, Tone::White)],
        seq![pulse_span("    \u{25bc}"@, cy, active), plain("  SELECT first_value(price), MAX, MIN, last_value(price)"@, Tone::White)],
        seq![pulse_span("    \u{2502}"@, cy, active), plain("  GROUP BY symbol, TUMBLE(ts, INTERVAL '5' SECOND)"@, Tone::White)],
        seq![pulse_span("    \u{25bc}"@, cy, active), dim("  results "@), arrow_span(cy, 4, active), dim(" subscriber buffer "@), arrow_span((cy + 2) as u64, 4, active), dim(" poll()"@)],
        seq![],
        seq![dim("  Output: "@), strong("ohlc_bars"@, Tone::Green), count_span(ohlc, true, Tone::Green), badge_span(ohlc)],
    ]
}

/// Phase 2: two windowed queries, the second reading the first's output.
pub open spec fn streaming_sql_view(m: Map<Seq<char>, u64>, cy: u64) -> Seq<Seq<SpanSpec>> {
    let t_in = counter(m, "trades_in"@);
    let l1 = counter(m, "ohlc_5s_out"@);
    let l2 = counter(m, "ohlc_10s_out"@);
    let l1_act = l1 > 0;
    let l2_act = l2 > 0;
    seq![
        seq![dim("  Source: "@), strong("trades"@, Tone::Yellow), count_span(t_in, true, Tone::Yellow), dim("  push_batch() + watermark(ts + 5000)"@)],
        seq![pulse_span("    \u{2502}"@, cy, l1_act)],
        seq![pulse_span("    \u{25bc}"@, cy, l1_act), dim("  MemTable: "@), strong("trades"@, Tone::Magenta), dim(" (registered each 100ms tick)"@)],
        seq![pulse_span("    \u{251c}"@, cy, l1_act), arrow_span(cy, 3, l1_act), strong(" ctx.sql(ohlc_5s): "@, Tone::White), plain("TUMBLE(5s) + first_value/last_value/SUM"@, Tone::White)],
        seq![dim("    \u{2502}     \u{2514}\u{2500}\u{2500}\u{25b6} "@), strong("ohlc_5s"@, Tone::Green), count_span(l1, true, Tone::Green), dim("  subscriber "@), arrow_span(cy, 3, l1_act), dim(" poll()"@), badge_span(l1)],
        if l2_act { seq![dim("    \u{2502}"@), plain(" \u{2713} Fed back as MemTable"@, Tone::Green)] } else { seq![dim("    \u{2502}"@)] },
        seq![pulse_span("    \u{2514}"@, cy, l2_act), arrow_span(cy, 3, l2_act), strong(" ctx.sql(ohlc_10s): "@, Tone::White), plain("FROM ohlc_5s "@, ok_tone(l2_act)), if l2_act { plain("\u{25c0}\u{2500}\u{2500} ohlc_5s results"@, Tone::Green) } else { plain("\u{25c0}\u{2500}\u{2500} empty MemTable!"@, Tone::Red) }],
        seq![dim("          \u{2514}\u{2500}\u{2500}\u{25b6} "@), strong("ohlc_10s"@, ok_tone(l2_act)), count_span(l2, true, ok_tone(l2_act)), badge_span(l2)],
        seq![dim(if l2_act { "          Cascading MVs: ohlc_5s output loops back as input for ohlc_10s"@ } else { "          ohlc_5s output goes to subscribers, never loops back as MemTable"@ })],
    ]
}

/// Phase 3: producer, Kafka source, aggregation, local subscriber and Kafka sink.
pub open spec fn kafka_view(m: Map<Seq<char>, u64>, cy: u64) -> Seq<Seq<SpanSpec>> {
    let produced = counter(m, "produced"@);
    let summary = counter(m, "summary_out"@);
    let src_ok = produced > 0;
    let out_ok = summary > 0;
    seq![
        seq![dim("  Producer: "@), strong("rdkafka FutureProducer"@, Tone::Yellow), count_span(produced, true, Tone::Yellow)],
        seq![pulse_span("    \u{2502}"@, cy, src_ok), dim("  produce() \u{2192} JSON \u{2192} topic: market-trades"@)],
        seq![pulse_span("    \u{25bc}"@, cy, src_ok)],
        seq![dim("  FROM KAFKA: "@), strong("brokers=localhost:19092"@, Tone::Magenta), dim(", topic=market-trades, format=json"@)],
        seq![pulse_span("    \u{2502}"@, cy, out_ok), dim("  Kafka Source Connector \u{2192} Arrow RecordBatch \u{2192} ctx.sql()"@)],
        seq![pulse_span("    \u{25bc}"@, cy, out_ok), plain("  SELECT COUNT(*), SUM(price * volume) GROUP BY TUMBLE(5s)"@, Tone::White)],
        seq![pulse_span("    \u{251c}"@, cy, out_ok), arrow_span(cy, 3, out_ok), dim(" subscriber: "@), strong("trade_summary"@, Tone::Green), count_span(summary, true, Tone::Green), dim(" \u{2192} poll()"@), badge_span(summary)],
        seq![dim("    \u{2502}"@)],
        seq![pulse_span("    \u{2514}"@, cy, out_ok), arrow_span((cy + 1) as u64, 3, out_ok), dim(" INTO KAFKA: "@), strong("topic=trade-summaries"@, Tone::Cyan), dim(", format=json"@)],
        seq![],
    ]
}

/// Phase 4: three sources, an ASOF join and a stream-stream join.
pub open spec fn joins_view(m: Map<Seq<char>, u64>, cy: u64) -> Seq<Seq<SpanSpec>> {
    let t_in = counter(m, "trades_in"@);
    let q_in = counter(m, "quotes_in"@);
    let o_in = counter(m, "orders_in"@);
    let asof = counter(m, "asof_out"@);
    let join = counter(m, "join_out"@);
    let asof_act = asof > 0;
    let join_act = join > 0;
    seq![
        seq![dim("  Sources: "@), plain("trades"@, Tone::Yellow), count_span(t_in, false, Tone::Yellow), plain("  "@, Tone::Plain), plain("quotes"@, Tone::Magenta), count_span(q_in, false, Tone::Magenta), plain("  "@, Tone::Plain), plain("orders"@, Tone::Blue), count_span(o_in, false, Tone::Blue)],
        seq![pulse_span("    \u{2502} "@, cy, join_act), dim("push_batch() x3   watermark(ts + 5000 / +60000)"@)],
        seq![pulse_span("    \u{25bc} "@, cy, join_act), dim("MemTables: "@), strong("trades, quotes, orders"@, Tone::Magenta), dim(" (all registered before queries)"@)],
        seq![pulse_span("    \u{251c}"@, cy, asof_act), arrow_span(cy, 3, asof_act), strong(" ctx.sql: "@, Tone::White), strong("ASOF JOIN"@, ok_tone(asof_act)), dim(" (trades x quotes)"@)],
        seq![dim("    \u{2502}     "@), if asof_act { dim("MATCH_CONDITION(t.ts >= q.ts AND t.ts - q.ts <= INTERVAL '5' SECOND)"@) } else { plain("MATCH_CONDITION() \u{2014} DataFusion can't parse ASOF syntax"@, Tone::Red) }],
        seq![dim("    \u{2502}     \u{2514}\u{2500}\u{2500}\u{25b6} "@), strong("asof_enriched"@, ok_tone(asof_act)), count_span(asof, true, ok_tone(asof_act)), badge_span(asof)],
        seq![dim("    \u{2502}"@)],
        seq![plain("    \u{2514}"@, if join_act { Tone::Cyan } else { Tone::Red }), arrow_span(cy, 3, join_act), strong(" ctx.sql: "@, Tone::White), strong("INNER JOIN"@, Tone::Green), dim(" (trades x orders)"@)],
        seq![dim("          ON symbol AND o.ts BETWEEN t.ts-60000, t.ts+60000"@)],
        seq![dim("          \u{2514}\u{2500}\u{2500}\u{25b6} "@), strong("trade_order_match"@, Tone::Green), count_span(join, true, Tone::Green), dim("  subscriber "@), arrow_span(cy, 3, join_act), dim(" poll()"@), badge_span(join)],
    ]
}

/// Phase 5: Postgres changes through CDC into an aggregation.
pub open spec fn cdc_view(m: Map<Seq<char>, u64>, cy: u64) -> Seq<Seq<SpanSpec>> {
    let inserted = counter(m, "inserted"@);
    let totals = counter(m, "totals_out"@);
    let src_ok = inserted > 0;
    let out_ok = totals > 0;
    seq![
        seq![dim("  Postgres: "@), strong("orders table"@, Tone::Yellow), count_span(inserted, true, Tone::Yellow), dim("  INSERT/UPDATE via tokio-postgres"@)],
        seq![pulse_span("    \u{2502}"@, cy, src_ok), dim("  WAL \u{2192} pgoutput \u{2192} logical replication"@)],
        seq![pulse_span("    \u{25bc}"@, cy, src_ok)],
        seq![dim("  FROM POSTGRES_CDC: "@), strong("slot=laminar_orders"@, Tone::Magenta), dim(", pub=laminar_pub"@)],
        seq![pulse_span("    \u{2502}"@, cy, out_ok), dim("  CDC Connector \u{2192} envelope(_op, _after) \u{2192} ctx.sql()"@)],
        seq![pulse_span("    \u{25bc}"@, cy, out_ok), plain("  SELECT COUNT(*), SUM(amount) GROUP BY customer_id"@, Tone::White)],
        seq![pulse_span("    \u{2502}"@, cy, out_ok), arrow_span(cy, 3, out_ok), dim(" subscriber: "@), strong("customer_totals"@, Tone::Green), count_span(totals, true, Tone::Green), dim(" \u{2192} poll()"@), badge_span(totals)],
        seq![],
        seq![dim("  wal_level=logical, max_replication_slots=4, snapshot.mode=never"@)],
    ]
}

/// One output branch of the bonus tab.
pub open spec fn branch_line(glyph: Seq<char>, n: nat, cy: u64, shift: nat, label: Seq<char>, name: Seq<char>) -> Seq<SpanSpec> {
    seq![pulse_span(glyph, cy, n > 0), arrow_span((cy + shift) as u64, 3, n > 0), strong(label, Tone::White), strong(name, ok_tone(n > 0)), count_span(n, true, Tone::Green), badge_span(n)]
}

/// Phase 6: three window types from one source.
pub open spec fn bonus_view(m: Map<Seq<char>, u64>, cy: u64) -> Seq<Seq<SpanSpec>> {
    let t_in = counter(m, "trades_in"@);
    seq![
        seq![dim("  Source: "@), strong("trades"@, Tone::Yellow), count_span(t_in, true, Tone::Yellow), dim("  push_batch() + watermark(ts + 10000)"@)],
        seq![pulse_span("    \u{2502}"@, cy, t_in > 0)],
        branch_line("    \u{251c}"@, counter(m, "hop_out"@), cy, 0, " HOP(2s slide, 10s size): "@, "hop_volume"@),
        seq![dim("    \u{2502}"@)],
        branch_line("    \u{251c}"@, counter(m, "session_out"@), cy, 1, " SESSION(3s gap): "@, "session_burst"@),
        seq![dim("    \u{2502}"@)],
        branch_line("    \u{2514}"@, counter(m, "emit_out"@), cy, 2, " TUMBLE(5s) EMIT ON UPDATE: "@, "ohlc_update"@),
        seq![],
        seq![dim("  3 streams from 1 source \u{2014} testing window types + emit modes"@)],
    ]
}

/// The pipeline panel of tab `tab` for the counters `m` at frame `cy`.
pub open spec fn pipeline_view_spec(tab: nat, m: Map<Seq<char>, u64>, cy: u64) -> Seq<Seq<SpanSpec>> {
    if tab == 0 {
        rust_api_view(m, cy)
    } else if tab == 1 {
        streaming_sql_view(m, cy)
    } else if tab == 2 {
        kafka_view(m, cy)
    } else if tab == 3 {
        joins_view(m, cy)
    } else if tab == 4 {
        cdc_view(m, cy)
    } else if tab == 5 {
        bonus_view(m, cy)
    } else {
        seq![seq![dim(" No pipeline data"@)]]
    }
}

// ---------------------------------------------------------------------------
// Building the panel

fn txt(text: &str, tone: Tone) -> (r: ViewSpan)
    ensures
        r@ == plain(text@, tone),
{
    ViewSpan { text: text.to_owned(), tone, bold: false }
}

fn bold(text: &str, tone: Tone) -> (r: ViewSpan)
    ensures
        r@ == strong(text@, tone),
{
    ViewSpan { text: text.to_owned(), tone, bold: true }
}

fn gray(text: &str) -> (r: ViewSpan)
    ensures
        r@ == dim(text@),
{
    txt(text, Tone::DarkGray)
}

fn count(n: u64, spaced: bool, tone: Tone) -> (r: ViewSpan)
    ensures
        r@ == count_span(n as nat, spaced, tone),
{
    let mut out: Vec<char> = Vec::new();
    if spaced {
        push_str_chars(&mut out, " [");
    } else {
        push_str_chars(&mut out, "[");
    }
    push_decimal(&mut out, n);
    push_str_chars(&mut out, "]");
    assert(out@ =~= count_text(n as nat, spaced));
    ViewSpan { text: string_from_chars(&out), tone, bold: false }
}

fn arrow(cycle: u64, width: usize, active: bool) -> (r: ViewSpan)
    requires
        width > 0,
    ensures
        r@ == arrow_span(cycle, width, active),
{
    let (text, tone) = flow_arrow(cycle, width, active);
    ViewSpan { text, tone, bold: false }
}

fn badge(n: u64) -> (r: ViewSpan)
    ensures
        r@ == badge_span(n as nat),
{
    let (text, tone) = pipeline_status(n);
    ViewSpan { text: text.to_owned(), tone, bold: true }
}

fn pulse(text: &str, cycle: u64, active: bool) -> (r: ViewSpan)
    ensures
        r@ == pulse_span(text@, cycle, active),
{
    txt(text, vpulse(cycle, active))
}

fn tone_if(active: bool) -> (t: Tone)
    ensures
        t == ok_tone(active),
{
    if active { Tone::Green } else { Tone::Red }
}

/// Appends a span to a line.
fn put(line: &mut Vec<ViewSpan>, s: ViewSpan)
    ensures
        line_view(final(line)@) == line_view(old(line)@).push(s@),
{
    let ghost before = line@;
    line.push(s);
    assert(line_view(line@) =~= line_view(before).push(s@));
}

/// Appends a line to the panel.
fn put_line(lines: &mut Vec<Vec<ViewSpan>>, line: Vec<ViewSpan>)
    ensures
        view_of_lines(final(lines)@) == view_of_lines(old(lines)@).push(line_view(line@)),
{
    let ghost before = lines@;
    let ghost lv = line_view(line@);
    lines.push(line);
    assert(view_of_lines(lines@) =~= view_of_lines(before).push(lv));
}

fn one(a: ViewSpan) -> (l: Vec<ViewSpan>)
    ensures
        line_view(l@) == seq![a@],
{
    let mut l = Vec::new();
    put(&mut l, a);
    l
}

fn two(a: ViewSpan, b: ViewSpan) -> (l: Vec<ViewSpan>)
    ensures
        line_view(l@) == seq![a@, b@],
{
    let mut l = one(a);
    put(&mut l, b);
    l
}

fn three(a: ViewSpan, b: ViewSpan, c: ViewSpan) -> (l: Vec<ViewSpan>)
    ensures
        line_view(l@) == seq![a@, b@, c@],
{
    let mut l = two(a, b);
    put(&mut l, c);
    l
}

fn four(a: ViewSpan, b: ViewSpan, c: ViewSpan, d: ViewSpan) -> (l: Vec<ViewSpan>)
    ensures
        line_view(l@) == seq![a@, b@, c@, d@],
{
    let mut l = three(a, b, c);
    put(&mut l, d);
    l
}

fn five(a: ViewSpan, b: ViewSpan, c: ViewSpan, d: ViewSpan, e: ViewSpan) -> (l: Vec<ViewSpan>)
    ensures
        line_view(l@) == seq![a@, b@, c@, d@, e@],
{
    let mut l = four(a, b, c, d);
    put(&mut l, e);
    l
}

fn six(a: ViewSpan, b: ViewSpan, c: ViewSpan, d: ViewSpan, e: ViewSpan, f: ViewSpan) -> (l: Vec<ViewSpan>)
    ensures
        line_view(l@) == seq![a@, b@, c@, d@, e@, f@],
{
    let mut l = five(a, b, c, d, e);
    put(&mut l, f);
    l
}

fn seven(a: ViewSpan, b: ViewSpan, c: ViewSpan, d: ViewSpan, e: ViewSpan, f: ViewSpan, g: ViewSpan) -> (l: Vec<ViewSpan>)
    ensures
        line_view(l@) == seq![a@, b@, c@, d@, e@, f@, g@],
{
    let mut l = six(a, b, c, d, e, f);
    put(&mut l, g);
    l
}

fn empty_line() -> (l: Vec<ViewSpan>)
    ensures
        line_view(l@) == Seq::<SpanSpec>::empty(),
{
    let l: Vec<ViewSpan> = Vec::new();
    assert(line_view(l@) =~= Seq::<SpanSpec>::empty());
    l
}

fn rust_api_lines(c: &PipelineCounters, cy: u64) -> (lines: Vec<Vec<ViewSpan>>)
    requires
        c.wf(),
        cy <= u64::MAX - 2,
    ensures
        view_of_lines(lines@) == rust_api_view(c@, cy),
{
    let t_in = c.get("trades_in");
    let ohlc = c.get("ohlc_out");
    let active = ohlc > 0;
    let mut ls: Vec<Vec<ViewSpan>> = Vec::new();
    assert(view_of_lines(ls@) =~= Seq::<Seq<SpanSpec>>::empty());
    put_line(&mut ls, four(gray("  Source: "), bold("trades", Tone::Yellow), count(t_in, true, Tone::Yellow), gray("    push_batch() + watermark(ts + 5000)")));
    put_line(&mut ls, one(pulse("    \u{2502}", cy, active)));
    put_line(&mut ls, one(pulse("    \u{25bc}", cy, active)));
    put_line(&mut ls, three(gray("  MemTable: "), bold("trades", Tone::Magenta), gray(" (registered in DataFusion ctx each 100ms tick)")));
    put_line(&mut ls, two(pulse("    \u{2502}", cy, active), bold("  ctx.sql()", Tone::White)));
    put_line(&mut ls, two(pulse("    \u{25bc}", cy, active), txt("  SELECT first_value(price), MAX, MIN, last_value(price)", Tone::White)));
    put_line(&mut ls, two(pulse("    \u{2502}", cy, active), txt("  GROUP BY symbol, TUMBLE(ts, INTERVAL '5' SECOND)", Tone::White)));
    put_line(&mut ls, six(pulse("    \u{25bc}", cy, active), gray("  results "), arrow(cy, 4, active), gray(" subscriber buffer "), arrow(cy + 2, 4, active), gray(" poll()")));
    put_line(&mut ls, empty_line());
    put_line(&mut ls, four(gray("  Output: "), bold("ohlc_bars", Tone::Green), count(ohlc, true, Tone::Green), badge(ohlc)));
    ls
}

fn streaming_sql_lines(c: &PipelineCounters, cy: u64) -> (lines: Vec<Vec<ViewSpan>>)
    requires
        c.wf(),
    ensures
        view_of_lines(lines@) == streaming_sql_view(c@, cy),
{
    let t_in = c.get("trades_in");
    let l1 = c.get("ohlc_5s_out");
    let l2 = c.get("ohlc_10s_out");
    let l1_act = l1 > 0;
    let l2_act = l2 > 0;
    let mut ls: Vec<Vec<ViewSpan>> = Vec::new();
    assert(view_of_lines(ls@) =~= Seq::<Seq<SpanSpec>>::empty());
    put_line(&mut ls, four(gray("  Source: "), bold("trades", Tone::Yellow), count(t_in, true, Tone::Yellow), gray("  push_batch() + watermark(ts + 5000)")));
    put_line(&mut ls, one(pulse("    \u{2502}", cy, l1_act)));
    put_line(&mut ls, four(pulse("    \u{25bc}", cy, l1_act), gray("  MemTable: "), bold("trades", Tone::Magenta), gray(" (registered each 100ms tick)")));
    put_line(&mut ls, four(pulse("    \u{251c}", cy, l1_act), arrow(cy, 3, l1_act), bold(" ctx.sql(ohlc_5s): ", Tone::White), txt("TUMBLE(5s) + first_value/last_value/SUM", Tone::White)));
    put_line(&mut ls, seven(gray("    \u{2502}     \u{2514}\u{2500}\u{2500}\u{25b6} "), bold("ohlc_5s", Tone::Green), count(l1, true, Tone::Green), gray("  subscriber "), arrow(cy, 3, l1_act), gray(" poll()"), badge(l1)));
    if l2_act {
        put_line(&mut ls, two(gray("    \u{2502}"), txt(" \u{2713} Fed back as MemTable", Tone::Green)));
    } else {
        put_line(&mut ls, one(gray("    \u{2502}")));
    }
    let source_note = if l2_act {
        txt("\u{25c0}\u{2500}\u{2500} ohlc_5s results", Tone::Green)
    } else {
        txt("\u{25c0}\u{2500}\u{2500} empty MemTable!", Tone::Red)
    };
    put_line(&mut ls, five(pulse("    \u{2514}", cy, l2_act), arrow(cy, 3, l2_act), bold(" ctx.sql(ohlc_10s): ", Tone::White), txt("FROM ohlc_5s ", tone_if(l2_act)), source_note));
    put_line(&mut ls, four(gray("          \u{2514}\u{2500}\u{2500}\u{25b6} "), bold("ohlc_10s", tone_if(l2_act)), count(l2, true, tone_if(l2_act)), badge(l2)));
    let footer = if l2_act {
        gray("          Cascading MVs: ohlc_5s output loops back as input for ohlc_10s")
    } else {
        gray("          ohlc_5s output goes to subscribers, never loops back as MemTable")
    };
    put_line(&mut ls, one(footer));
    ls
}

fn kafka_lines(c: &PipelineCounters, cy: u64) -> (lines: Vec<Vec<ViewSpan>>)
    requires
        c.wf(),
        cy <= u64::MAX - 1,
    ensures
        view_of_lines(lines@) == kafka_view(c@, cy),
{
    let produced = c.get("produced");
    let summary = c.get("summary_out");
    let src_ok = produced > 0;
    let out_ok = summary > 0;
    let mut ls: Vec<Vec<ViewSpan>> = Vec::new();
    assert(view_of_lines(ls@) =~= Seq::<Seq<SpanSpec>>::empty());
    put_line(&mut ls, three(gray("  Producer: "), bold("rdkafka FutureProducer", Tone::Yellow), count(produced, true, Tone::Yellow)));
    put_line(&mut ls, two(pulse("    \u{2502}", cy, src_ok), gray("  produce() \u{2192} JSON \u{2192} topic: market-trades")));
    put_line(&mut ls, one(pulse("    \u{25bc}", cy, src_ok)));
    put_line(&mut ls, three(gray("  FROM KAFKA: "), bold("brokers=localhost:19092", Tone::Magenta), gray(", topic=market-trades, format=json")));
    put_line(&mut ls, two(pulse("    \u{2502}", cy, out_ok), gray("  Kafka Source Connector \u{2192} Arrow RecordBatch \u{2192} ctx.sql()")));
    put_line(&mut ls, two(pulse("    \u{25bc}", cy, out_ok), txt("  SELECT COUNT(*), SUM(price * volume) GROUP BY TUMBLE(5s)", Tone::White)));
    put_line(&mut ls, seven(pulse("    \u{251c}", cy, out_ok), arrow(cy, 3, out_ok), gray(" subscriber: "), bold("trade_summary", Tone::Green), count(summary, true, Tone::Green), gray(" \u{2192} poll()"), badge(summary)));
    put_line(&mut ls, one(gray("    \u{2502}")));
    put_line(&mut ls, five(pulse("    \u{2514}", cy, out_ok), arrow(cy + 1, 3, out_ok), gray(" INTO KAFKA: "), bold("topic=trade-summaries", Tone::Cyan), gray(", format=json")));
    put_line(&mut ls, empty_line());
    ls
}

fn joins_lines(c: &PipelineCounters, cy: u64) -> (lines: Vec<Vec<ViewSpan>>)
    requires
        c.wf(),
    ensures
        view_of_lines(lines@) == joins_view(c@, cy),
{
    let t_in = c.get("trades_in");
    let q_in = c.get("quotes_in");
    let o_in = c.get("orders_in");
    let asof = c.get("asof_out");
    let join = c.get("join_out");
    let asof_act = asof > 0;
    let join_act = join > 0;
    let mut ls: Vec<Vec<ViewSpan>> = Vec::new();
    assert(view_of_lines(ls@) =~= Seq::<Seq<SpanSpec>>::empty());
    let mut l0 = seven(gray("  Sources: "), txt("trades", Tone::Yellow), count(t_in, false, Tone::Yellow), txt("  ", Tone::Plain), txt("quotes", Tone::Magenta), count(q_in, false, Tone::Magenta), txt("  ", Tone::Plain));
    put(&mut l0, txt("orders", Tone::Blue));
    put(&mut l0, count(o_in, false, Tone::Blue));
    assert(line_view(l0@) == joins_view(c@, cy)[0]);
    put_line(&mut ls, l0);
    put_line(&mut ls, two(pulse("    \u{2502} ", cy, join_act), gray("push_batch() x3   watermark(ts + 5000 / +60000)")));
    put_line(&mut ls, four(pulse("    \u{25bc} ", cy, join_act), gray("MemTables: "), bold("trades, quotes, orders", Tone::Magenta), gray(" (all registered before queries)")));
    put_line(&mut ls, five(pulse("    \u{251c}", cy, asof_act), arrow(cy, 3, asof_act), bold(" ctx.sql: ", Tone::White), bold("ASOF JOIN", tone_if(asof_act)), gray(" (trades x quotes)")));
    let cond = if asof_act {
        gray("MATCH_CONDITION(t.ts >= q.ts AND t.ts - q.ts <= INTERVAL '5' SECOND)")
    } else {
        txt("MATCH_CONDITION() \u{2014} DataFusion can't parse ASOF syntax", Tone::Red)
    };
    put_line(&mut ls, two(gray("    \u{2502}     "), cond));
    put_line(&mut ls, four(gray("    \u{2502}     \u{2514}\u{2500}\u{2500}\u{25b6} "), bold("asof_enriched", tone_if(asof_act)), count(asof, true, tone_if(asof_act)), badge(asof)));
    put_line(&mut ls, one(gray("    \u{2502}")));
    let corner = txt("    \u{2514}", if join_act { Tone::Cyan } else { Tone::Red });
    put_line(&mut ls, five(corner, arrow(cy, 3, join_act), bold(" ctx.sql: ", Tone::White), bold("INNER JOIN", Tone::Green), gray(" (trades x orders)")));
    put_line(&mut ls, one(gray("          ON symbol AND o.ts BETWEEN t.ts-60000, t.ts+60000")));
    put_line(&mut ls, seven(gray("          \u{2514}\u{2500}\u{2500}\u{25b6} "), bold("trade_order_match", Tone::Green), count(join, true, Tone::Green), gray("  subscriber "), arrow(cy, 3, join_act), gray(" poll()"), badge(join)));
    ls
}

fn cdc_lines(c: &PipelineCounters, cy: u64) -> (lines: Vec<Vec<ViewSpan>>)
    requires
        c.wf(),
    ensures
        view_of_lines(lines@) == cdc_view(c@, cy),
{
    let inserted = c.get("inserted");
    let totals = c.get("totals_out");
    let src_ok = inserted > 0;
    let out_ok = totals > 0;
    let mut ls: Vec<Vec<ViewSpan>> = Vec::new();
    assert(view_of_lines(ls@) =~= Seq::<Seq<SpanSpec>>::empty());
    put_line(&mut ls, four(gray("  Postgres: "), bold("orders table", Tone::Yellow), count(inserted, true, Tone::Yellow), gray("  INSERT/UPDATE via tokio-postgres")));
    put_line(&mut ls, two(pulse("    \u{2502}", cy, src_ok), gray("  WAL \u{2192} pgoutput \u{2192} logical replication")));
    put_line(&mut ls, one(pulse("    \u{25bc}", cy, src_ok)));
    put_line(&mut ls, three(gray("  FROM POSTGRES_CDC: "), bold("slot=laminar_orders", Tone::Magenta), gray(", pub=laminar_pub")));
    put_line(&mut ls, two(pulse("    \u{2502}", cy, out_ok), gray("  CDC Connector \u{2192} envelope(_op, _after) \u{2192} ctx.sql()")));
    put_line(&mut ls, two(pulse("    \u{25bc}", cy, out_ok), txt("  SELECT COUNT(*), SUM(amount) GROUP BY customer_id", Tone::White)));
    put_line(&mut ls, seven(pulse("    \u{2502}", cy, out_ok), arrow(cy, 3, out_ok), gray(" subscriber: "), bold("customer_totals", Tone::Green), count(totals, true, Tone::Green), gray(" \u{2192} poll()"), badge(totals)));
    put_line(&mut ls, empty_line());
    put_line(&mut ls, one(gray("  wal_level=logical, max_replication_slots=4, snapshot.mode=never")));
    ls
}

fn branch(glyph: &str, n: u64, cy: u64, shift: u64, label: &str, name: &str) -> (l: Vec<ViewSpan>)
    requires
        shift <= 2,
        cy <= u64::MAX - 2,
    ensures
        line_view(l@) == branch_line(glyph@, n as nat, cy, shift as nat, label@, name@),
{
    six(pulse(glyph, cy, n > 0), arrow(cy + shift, 3, n > 0), bold(label, Tone::White), bold(name, tone_if(n > 0)), count(n, true, Tone::Green), badge(n))
}

fn bonus_lines(c: &PipelineCounters, cy: u64) -> (lines: Vec<Vec<ViewSpan>>)
    requires
        c.wf(),
        cy <= u64::MAX - 2,
    ensures
        view_of_lines(lines@) == bonus_view(c@, cy),
{
    let t_in = c.get("trades_in");
    let mut ls: Vec<Vec<ViewSpan>> = Vec::new();
    assert(view_of_lines(ls@) =~= Seq::<Seq<SpanSpec>>::empty());
    put_line(&mut ls, four(gray("  Source: "), bold("trades", Tone::Yellow), count(t_in, true, Tone::Yellow), gray("  push_batch() + watermark(ts + 10000)")));
    put_line(&mut ls, one(pulse("    \u{2502}", cy, t_in > 0)));
    put_line(&mut ls, branch("    \u{251c}", c.get("hop_out"), cy, 0, " HOP(2s slide, 10s size): ", "hop_volume"));
    put_line(&mut ls, one(gray("    \u{2502}")));
    put_line(&mut ls, branch("    \u{251c}", c.get("session_out"), cy, 1, " SESSION(3s gap): ", "session_burst"));
    put_line(&mut ls, one(gray("    \u{2502}")));
    put_line(&mut ls, branch("    \u{2514}", c.get("emit_out"), cy, 2, " TUMBLE(5s) EMIT ON UPDATE: ", "ohlc_update"));
    put_line(&mut ls, empty_line());
    put_line(&mut ls, one(gray("  3 streams from 1 source \u{2014} testing window types + emit modes")));
    ls
}

/// Lines of the pipeline panel for tab `tab` (the phases in tab order),
/// from the tab's flow counters, at frame `cycle` (which moves the arrows
/// and the pulses). The first, third and sixth tabs draw arrows one or two
/// frames ahead of `cycle`.
pub fn pipeline_view(tab: usize, counters: &PipelineCounters, cycle: u64) -> (lines: Vec<Vec<ViewSpan>>)
    requires
        counters.wf(),
        tab == 0 || tab == 5 ==> cycle <= u64::MAX - 2,
        tab == 2 ==> cycle <= u64::MAX - 1,
    ensures
        view_of_lines(lines@) == pipeline_view_spec(tab as nat, counters@, cycle),
{
    if tab == 0 {
        rust_api_lines(counters, cycle)
    } else if tab == 1 {
        streaming_sql_lines(counters, cycle)
    } else if tab == 2 {
        kafka_lines(counters, cycle)
    } else if tab == 3 {
        joins_lines(counters, cycle)
    } else if tab == 4 {
        cdc_lines(counters, cycle)
    } else if tab == 5 {
        bonus_lines(counters, cycle)
    } else {
        let mut ls: Vec<Vec<ViewSpan>> = Vec::new();
        assert(view_of_lines(ls@) =~= Seq::<Seq<SpanSpec>>::empty());
        put_line(&mut ls, one(gray(" No pipeline data")));
        ls
    }
}

// ---------------------------------------------------------------------------
// Stage counters

/// Position of a stage's counter or badge in the panel: line, span, and the
/// counter it shows (with `spaced` telling ` [n]` from `[n]`).
pub struct StageCell {
    pub line: int,
    pub span: int,
    pub key: Seq<char>,
    pub spaced: bool,
}

pub open spec fn cell(line: int, span: int, key: Seq<char>, spaced: bool) -> StageCell {
    StageCell { line, span, key, spaced }
}

/// Where each tab shows a stage counter.
pub open spec fn count_cells(tab: nat) -> Seq<StageCell> {
    if tab == 0 {
        seq![cell(0, 2, "trades_in"@, true), cell(9, 2, "ohlc_out"@, true)]
    } else if tab == 1 {
        seq![cell(0, 2, "trades_in"@, true), cell(4, 2, "ohlc_5s_out"@, true), cell(7, 2, "ohlc_10s_out"@, true)]
    } else if tab == 2 {
        seq![cell(0, 2, "produced"@, true), cell(6, 4, "summary_out"@, true)]
    } else if tab == 3 {
        seq![
            cell(0, 2, "trades_in"@, false),
            cell(0, 5, "quotes_in"@, false),
            cell(0, 8, "orders_in"@, false),
            cell(5, 2, "asof_out"@, true),
            cell(9, 2, "join_out"@, true),
        ]
    } else if tab == 4 {
        seq![cell(0, 2, "inserted"@, true), cell(6, 4, "totals_out"@, true)]
    } else if tab == 5 {
        seq![cell(0, 2, "trades_in"@, true), cell(2, 4, "hop_out"@, true), cell(4, 4, "session_out"@, true), cell(6, 4, "emit_out"@, true)]
    } else {
        seq![]
    }
}

/// Where each tab shows a stage's PASS/FAIL badge.
pub open spec fn badge_cells(tab: nat) -> Seq<StageCell> {
    if tab == 0 {
        seq![cell(9, 3, "ohlc_out"@, true)]
    } else if tab == 1 {
        seq![cell(4, 6, "ohlc_5s_out"@, true), cell(7, 3, "ohlc_10s_out"@, true)]
    } else if tab == 2 {
        seq![cell(6, 6, "summary_out"@, true)]
    } else if tab == 3 {
        seq![cell(5, 3, "asof_out"@, true), cell(9, 6, "join_out"@, true)]
    } else if tab == 4 {
        seq![cell(6, 6, "totals_out"@, true)]
    } else if tab == 5 {
        seq![cell(2, 5, "hop_out"@, true), cell(4, 5, "session_out"@, true), cell(6, 5, "emit_out"@, true)]
    } else {
        seq![]
    }
}

/// Every bracketed number of the panel is the decimal of its stage's counter,
/// and a stage's badge reads PASS (green) exactly when its counter is above 0,
/// FAIL (red) otherwise.
pub proof fn law_stage_counts_and_badges(tab: nat, m: Map<Seq<char>, u64>, cy: u64, i: int)
    ensures
        0 <= i < count_cells(tab).len() ==> {
            let c = count_cells(tab)[i];
            let v = pipeline_view_spec(tab, m, cy);
            &&& 0 <= c.line < v.len()
            &&& 0 <= c.span < v[c.line].len()
            &&& v[c.line][c.span].text == count_text(counter(m, c.key), c.spaced)
        },
        0 <= i < badge_cells(tab).len() ==> {
            let c = badge_cells(tab)[i];
            let v = pipeline_view_spec(tab, m, cy);
            &&& 0 <= c.line < v.len()
            &&& 0 <= c.span < v[c.line].len()
            &&& (v[c.line][c.span].text == " PASS"@) == (counter(m, c.key) > 0)
            &&& v[c.line][c.span].text == (if counter(m, c.key) > 0 { " PASS"@ } else { " FAIL"@ })
            &&& v[c.line][c.span].tone == (if counter(m, c.key) > 0 { Tone::Green } else { Tone::Red })
            &&& v[c.line][c.span].bold
        },
{
    reveal_strlit(" PASS");
    reveal_strlit(" FAIL");
    assert(" PASS"@[1] != " FAIL"@[1]);
    assert(" PASS"@ != " FAIL"@);
}

// ---------------------------------------------------------------------------
// Stage activity

/// A pulsing connector (`arrow` false) or a flow arrow of `width` dashes
/// drawn `shift` frames ahead (`arrow` true), and the counter of the output
/// it feeds.
pub struct ActivityCell {
    pub line: int,
    pub span: int,
    pub key: Seq<char>,
    pub arrow: bool,
    pub width: usize,
    pub shift: int,
}

pub open spec fn pulse_cell(line: int, span: int, key: Seq<char>) -> ActivityCell {
    ActivityCell { line, span, key, arrow: false, width: 0, shift: 0 }
}

pub open spec fn arrow_cell(line: int, span: int, key: Seq<char>, width: usize, shift: int) -> ActivityCell {
    ActivityCell { line, span, key, arrow: true, width, shift }
}

/// Where each tab draws connectors and arrows, and which output drives them.
pub open spec fn activity_cells(tab: nat) -> Seq<ActivityCell> {
    if tab == 0 {
        seq![
            pulse_cell(1, 0, "ohlc_out"@), pulse_cell(2, 0, "ohlc_out"@), pulse_cell(4, 0, "ohlc_out"@),
            pulse_cell(5, 0, "ohlc_out"@), pulse_cell(6, 0, "ohlc_out"@), pulse_cell(7, 0, "ohlc_out"@),
            arrow_cell(7, 2, "ohlc_out"@, 4, 0), arrow_cell(7, 4, "ohlc_out"@, 4, 2),
        ]
    } else if tab == 1 {
        seq![
            pulse_cell(1, 0, "ohlc_5s_out"@), pulse_cell(2, 0, "ohlc_5s_out"@), pulse_cell(3, 0, "ohlc_5s_out"@),
            arrow_cell(3, 1, "ohlc_5s_out"@, 3, 0), arrow_cell(4, 4, "ohlc_5s_out"@, 3, 0),
            pulse_cell(6, 0, "ohlc_10s_out"@), arrow_cell(6, 1, "ohlc_10s_out"@, 3, 0),
        ]
    } else if tab == 2 {
        seq![
            pulse_cell(1, 0, "produced"@), pulse_cell(2, 0, "produced"@),
            pulse_cell(4, 0, "summary_out"@), pulse_cell(5, 0, "summary_out"@), pulse_cell(6, 0, "summary_out"@),
            pulse_cell(8, 0, "summary_out"@),
            arrow_cell(6, 1, "summary_out"@, 3, 0), arrow_cell(8, 1, "summary_out"@, 3, 1),
        ]
    } else if tab == 3 {
        seq![
            pulse_cell(1, 0, "join_out"@), pulse_cell(2, 0, "join_out"@),
            pulse_cell(3, 0, "asof_out"@), arrow_cell(3, 1, "asof_out"@, 3, 0),
            arrow_cell(7, 1, "join_out"@, 3, 0), arrow_cell(9, 4, "join_out"@, 3, 0),
        ]
    } else if tab == 4 {
        seq![
            pulse_cell(1, 0, "inserted"@), pulse_cell(2, 0, "inserted"@),
            pulse_cell(4, 0, "totals_out"@), pulse_cell(5, 0, "totals_out"@), pulse_cell(6, 0, "totals_out"@),
            arrow_cell(6, 1, "totals_out"@, 3, 0),
        ]
    } else if tab == 5 {
        seq![
            pulse_cell(1, 0, "trades_in"@),
            pulse_cell(2, 0, "hop_out"@), arrow_cell(2, 1, "hop_out"@, 3, 0),
            pulse_cell(4, 0, "session_out"@), arrow_cell(4, 1, "session_out"@, 3, 1),
            pulse_cell(6, 0, "emit_out"@), arrow_cell(6, 1, "emit_out"@, 3, 2),
        ]
    } else {
        seq![]
    }
}

/// Each connector and arrow is live exactly when the output it feeds has a
/// count above 0, whatever the other counters say: a connector then pulses
/// (cyan/blue) and an arrow moves its dot in cyan; with the count at 0 the
/// connector is red and the arrow is a red row of dashes ending in `╳`.
pub proof fn law_stage_activity(tab: nat, m: Map<Seq<char>, u64>, cy: u64, i: int)
    requires
        0 <= i < activity_cells(tab).len(),
    ensures
        ({
            let c = activity_cells(tab)[i];
            let v = pipeline_view_spec(tab, m, cy);
            let on = counter(m, c.key) > 0;
            &&& 0 <= c.line < v.len()
            &&& 0 <= c.span < v[c.line].len()
            &&& !c.arrow ==> v[c.line][c.span].tone == pulse_tone(cy as nat, on)
            &&& c.arrow ==> v[c.line][c.span] == arrow_span((cy + c.shift) as u64, c.width, on)
            &&& !on ==> v[c.line][c.span].tone == Tone::Red
            &&& c.arrow && !on ==> v[c.line][c.span].text == arrow_text((cy + c.shift) as u64, c.width, false)
            &&& c.arrow && on ==> v[c.line][c.span].tone == Tone::Cyan
            &&& !c.arrow && on ==> (v[c.line][c.span].tone == Tone::Cyan || v[c.line][c.span].tone == Tone::Blue)
        }),
{
}

/// With no ASOF output the joins tab draws the ASOF branch idle: a red
/// `ASOF JOIN`, the note that DataFusion cannot parse the ASOF syntax, and a
/// red `asof_enriched` stage, whatever the join and source counters are.
/// With no cascade output the streaming-SQL tab draws the second level red,
/// reading from an empty MemTable.
pub proof fn law_idle_branches(m: Map<Seq<char>, u64>, cy: u64)
    ensures
        counter(m, "asof_out"@) == 0 ==> {
            let v = pipeline_view_spec(3, m, cy);
            &&& v[3][3] == strong("ASOF JOIN"@, Tone::Red)
            &&& v[4][1] == plain("MATCH_CONDITION() \u{2014} DataFusion can't parse ASOF syntax"@, Tone::Red)
            &&& v[5][1] == strong("asof_enriched"@, Tone::Red)
        },
        counter(m, "asof_out"@) > 0 ==> {
            let v = pipeline_view_spec(3, m, cy);
            &&& v[3][3] == strong("ASOF JOIN"@, Tone::Green)
            &&& v[5][1] == strong("asof_enriched"@, Tone::Green)
        },
        counter(m, "ohlc_10s_out"@) == 0 ==> {
            let v = pipeline_view_spec(1, m, cy);
            &&& v[6][3] == plain("FROM ohlc_5s "@, Tone::Red)
            &&& v[6][4] == plain("\u{25c0}\u{2500}\u{2500} empty MemTable!"@, Tone::Red)
            &&& v[7][1] == strong("ohlc_10s"@, Tone::Red)
        },
{
}

} // verus!
