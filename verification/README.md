# laminardb-test

A test application that exercises each LaminarDB pipeline type (Rust API,
streaming SQL, Kafka, stream joins, CDC, window types, a six-stream stress
run and feature checks), either one phase at a time on the command line or
all together in a live terminal dashboard.

## Layout

- `src/` — the verified library (Verus). It holds the decisions and data
  handling of the application:
  - `decimal`, `binary64`, `text`: integer text, integer parsing, and the
    fixed-point read-outs of latencies (modelled on IEEE binary64 rounding so
    that they print exactly what `{:.1}` / `{:.2}` of the float quotient
    would print);
  - `generator`: symbols and sequence-numbered order and trade identifiers;
  - `phase5_cdc`: the `test_decoding` change-line parser and the Postgres
    connection and connector statements;
  - `phase7_stress`: load levels, cycle layout, percentiles, peak level and
    stream totals of the stress run;
  - `tui`: per-phase dashboard metrics (counters, bounded sparklines, latency
    window with average / minimum / maximum), flow counters, tab navigation
    and the small display decisions (colours, arrows, badges);
  - `pipeline_view`: the pipeline panel of each phase tab as styled lines,
    with the live counter and PASS/FAIL badge of every stage;
  - `history`: bounded double-ended histories;
  - flow counters (`tui::PipelineCounters`) are kept as two vectors whose
    names are distinct, viewed as a map from name to count, rather than as a
    `HashMap<String, u64>`: with `String` keys the standard map's
    specification is too weak to prove that a count went up by the amount
    recorded;
  - `checks`, `phase8_v012`, `phase10_sql_ext`, `phase11_subs`: pass / fail
    verdicts of the phases and feature checks;
  - `cli`: choice of the run mode from the command line.
- `tests/` — tests of the library on concrete values.
- `app/` — the program: database pipelines, Kafka and Postgres I/O, random
  market data with floating-point prices, clocks and the terminal UI. It
  calls the library for every decision listed above.
