//! Dashboard state: phase status, per-phase counters and latency window,
//! flow counters, tab navigation, and the small display decisions of the
//! live view (colours, arrows, read-outs).

use vstd::prelude::*;
use std::collections::VecDeque;

use crate::binary64::{fixed_units, fixed_units_exec};
use crate::decimal::{decimal, push_decimal};
use crate::history::{bounded_push_back, push_back_bounded};
use crate::text::{chars_of, fixed_text, push_fixed, push_str_chars, range_equals, string_from_chars};

verus! {

/// Number of bars kept in a phase's recent-bars table.
pub const MAX_RECENT_BARS: usize = 50;

/// Number of samples kept for sparklines and the latency window.
pub const SPARKLINE_HISTORY: usize = 60;

/// Display colours of the dashboard.
#[derive(Clone, Copy, PartialEq, Eq, Debug)]
pub enum Tone {
    Yellow,
    Cyan,
    Green,
    Red,
    Blue,
    /// RGB (255, 165, 0).
    Orange,
    Magenta,
    White,
    DarkGray,
    /// No colour of its own (unstyled text).
    Plain,
}

/// Lifecycle of one phase tab.
#[derive(Clone, Copy, PartialEq, Debug)]
pub enum PhaseStatus {
    Setting,
    Running,
    Pass,
    Fail(&'static str),
}

pub open spec fn status_label(s: PhaseStatus) -> Seq<char> {
    match s {
        PhaseStatus::Setting => "SETUP"@,
        PhaseStatus::Running => "RUNNING"@,
        PhaseStatus::Pass => "PASS"@,
        PhaseStatus::Fail(_) => "FAIL"@,
    }
}

pub open spec fn status_tone(s: PhaseStatus) -> Tone {
    match s {
        PhaseStatus::Setting => Tone::Yellow,
        PhaseStatus::Running => Tone::Cyan,
        PhaseStatus::Pass => Tone::Green,
        PhaseStatus::Fail(_) => Tone::Red,
    }
}

impl PhaseStatus {
    /// Tab badge text.
    pub fn label(self) -> (s: &'static str)
        ensures
            s@ == status_label(self),
    {
        match self {
            PhaseStatus::Setting => "SETUP",
            PhaseStatus::Running => "RUNNING",
            PhaseStatus::Pass => "PASS",
            PhaseStatus::Fail(_) => "FAIL",
        }
    }

    /// Tab badge colour.
    pub fn color(self) -> (t: Tone)
        ensures
            t == status_tone(self),
    {
        match self {
            PhaseStatus::Setting => Tone::Yellow,
            PhaseStatus::Running => Tone::Cyan,
            PhaseStatus::Pass => Tone::Green,
            PhaseStatus::Fail(_) => Tone::Red,
        }
    }
}

// ---------------------------------------------------------------------------
// Latency read-out

/// Dashboard text of a latency in microseconds: `--` for none, whole
/// microseconds below 1 ms, milliseconds with one decimal below 1 s,
/// seconds with two decimals above.
pub open spec fn latency_text(us: nat) -> Seq<char> {
    if us == 0 {
        "--"@
    } else if us < 1_000 {
        decimal(us) + "us"@
    } else if us < 1_000_000 {
        fixed_text(fixed_units(us, 1_000, 1), 1) + "ms"@
    } else {
        fixed_text(fixed_units(us, 1_000_000, 2), 2) + "s"@
    }
}

/// Formats a latency in microseconds for the stats panel.
pub fn format_latency(us: u64) -> (s: String)
    ensures
        s@ == latency_text(us as nat),
{
    let mut out: Vec<char> = Vec::new();
    if us == 0 {
        push_str_chars(&mut out, "--");
    } else if us < 1_000 {
        push_decimal(&mut out, us);
        push_str_chars(&mut out, "us");
    } else if us < 1_000_000 {
        proof {
            crate::binary64::lemma_two_pow_values();
        }
        let t = fixed_units_exec(us, 1_000, 1);
        push_fixed(&mut out, t, 1);
        push_str_chars(&mut out, "ms");
    } else {
        let t = fixed_units_exec(us, 1_000_000, 2);
        push_fixed(&mut out, t, 2);
        push_str_chars(&mut out, "s");
    }
    assert(out@ =~= latency_text(us as nat));
    string_from_chars(&out)
}

pub open spec fn latency_tone(us: nat) -> Tone {
    if us < 1_000 {
        Tone::Green
    } else if us < 10_000 {
        Tone::Yellow
    } else if us < 100_000 {
        Tone::Orange
    } else {
        Tone::Red
    }
}

/// Colour of a latency: green below 1 ms, yellow below 10 ms, orange below
/// 100 ms, red from 100 ms.
pub fn latency_color(us: u64) -> (t: Tone)
    ensures
        t == latency_tone(us as nat),
        us < 1_000 ==> t == Tone::Green,
        1_000 <= us < 10_000 ==> t == Tone::Yellow,
        10_000 <= us < 100_000 ==> t == Tone::Orange,
        100_000 <= us ==> t == Tone::Red,
{
    if us < 1_000 {
        Tone::Green
    } else if us < 10_000 {
        Tone::Yellow
    } else if us < 100_000 {
        Tone::Orange
    } else {
        Tone::Red
    }
}

/// The latency colour bands: green under 1 ms, yellow from 1 ms to under
/// 10 ms, orange from 10 ms to under 100 ms, red from 100 ms on; a slower
/// latency never gets a calmer colour.
pub proof fn law_latency_bands(us: nat, slower: nat)
    requires
        us <= slower,
    ensures
        us < 1_000 ==> latency_tone(us) == Tone::Green,
        1_000 <= us < 10_000 ==> latency_tone(us) == Tone::Yellow,
        10_000 <= us < 100_000 ==> latency_tone(us) == Tone::Orange,
        100_000 <= us ==> latency_tone(us) == Tone::Red,
        band_rank(latency_tone(us)) <= band_rank(latency_tone(slower)),
{
}

/// Order of the latency colours from calm to alarming.
pub open spec fn band_rank(t: Tone) -> nat {
    match t {
        Tone::Green => 0,
        Tone::Yellow => 1,
        Tone::Orange => 2,
        _ => 3,
    }
}

// ---------------------------------------------------------------------------
// Pipeline-flow decorations

pub open spec fn pulse_tone(cycle: nat, active: bool) -> Tone {
    if !active {
        Tone::Red
    } else if cycle % 4 < 2 {
        Tone::Cyan
    } else {
        Tone::Blue
    }
}

/// Colour of the vertical flow arrows: red when idle, otherwise alternating
/// cyan and blue every two frames.
pub fn vpulse(cycle: u64, active: bool) -> (t: Tone)
    ensures
        t == pulse_tone(cycle as nat, active),
{
    if !active {
        Tone::Red
    } else if cycle % 4 < 2 {
        Tone::Cyan
    } else {
        Tone::Blue
    }
}

/// Horizontal rule `─`, moving dot `◆`, arrow head `▶`, and broken end `╳`.
pub open spec fn rule_char() -> char { '\u{2500}' }
pub open spec fn dot_char() -> char { '\u{25c6}' }
pub open spec fn head_char() -> char { '\u{25b6}' }
pub open spec fn broken_char() -> char { '\u{2573}' }

/// Position of the moving dot in an active arrow of `width` dashes.
pub open spec fn arrow_dot_position(cycle: u64, width: usize) -> nat {
    (((cycle as usize) / 2) % width) as nat
}

/// Text of a flow arrow: `width` dashes and `╳` when idle; when active,
/// `width` dashes with the dot at `arrow_dot_position`, then `▶`.
pub open spec fn arrow_text(cycle: u64, width: usize, active: bool) -> Seq<char> {
    if !active {
        Seq::new(width as nat, |i: int| rule_char()).push(broken_char())
    } else {
        Seq::new(
            width as nat,
            |i: int| if i == arrow_dot_position(cycle, width) { dot_char() } else { rule_char() },
        ).push(head_char())
    }
}

/// Animated flow arrow and its colour (cyan when active, red when idle).
pub fn flow_arrow(cycle: u64, width: usize, active: bool) -> (r: (String, Tone))
    requires
        active ==> width > 0,
    ensures
        r.0@ == arrow_text(cycle, width, active),
        r.1 == (if active { Tone::Cyan } else { Tone::Red }),
{
    let mut out: Vec<char> = Vec::new();
    if !active {
        let mut i: usize = 0;
        while i < width
            invariant
                i <= width,
                out@ == Seq::new(i as nat, |k: int| rule_char()),
            decreases width - i,
        {
            out.push('\u{2500}');
            i = i + 1;
            assert(out@ =~= Seq::new(i as nat, |k: int| rule_char()));
        }
        out.push('\u{2573}');
        assert(out@ =~= arrow_text(cycle, width, active));
        return (string_from_chars(&out), Tone::Red);
    }
    let pos = ((cycle as usize) / 2) % width;
    let ghost f = |k: int| if k == arrow_dot_position(cycle, width) { dot_char() } else { rule_char() };
    let mut i: usize = 0;
    while i < width
        invariant
            i <= width,
            width > 0,
            pos == arrow_dot_position(cycle, width),
            f == (|k: int| if k == arrow_dot_position(cycle, width) { dot_char() } else { rule_char() }),
            out@ == Seq::new(i as nat, f),
        decreases width - i,
    {
        if i == pos {
            out.push('\u{25c6}');
        } else {
            out.push('\u{2500}');
        }
        i = i + 1;
        assert(out@ =~= Seq::new(i as nat, f));
    }
    out.push('\u{25b6}');
    assert(out@ =~= arrow_text(cycle, width, active));
    (string_from_chars(&out), Tone::Cyan)
}

/// Pass/fail badge of a flow output: `" PASS"` in green when anything came
/// out, `" FAIL"` in red otherwise.
pub fn pipeline_status(count: u64) -> (r: (&'static str, Tone))
    ensures
        count > 0 ==> r.0@ == " PASS"@ && r.1 == Tone::Green,
        count == 0 ==> r.0@ == " FAIL"@ && r.1 == Tone::Red,
{
    if count > 0 {
        (" PASS", Tone::Green)
    } else {
        (" FAIL", Tone::Red)
    }
}

// ---------------------------------------------------------------------------
// Flow counters

/// Named event counters of one phase's pipeline view (`trades_in`,
/// `ohlc_out`, ...).
pub struct PipelineCounters {
    keys: Vec<Vec<char>>,
    counts: Vec<u64>,
}

impl View for PipelineCounters {
    type V = Map<Seq<char>, u64>;

    /// The counters as a map from name to count.
    closed spec fn view(&self) -> Map<Seq<char>, u64> {
        Map::new(|k: Seq<char>| self.has_key(k), |k: Seq<char>| self.counts@[self.key_index(k)])
    }
}

impl PipelineCounters {
    pub closed spec fn wf(&self) -> bool {
        &&& self.keys@.len() == self.counts@.len()
        &&& forall|i: int, j: int|
            0 <= i < self.keys@.len() && 0 <= j < self.keys@.len() && i != j
                ==> #[trigger] self.keys@[i]@ != #[trigger] self.keys@[j]@
    }

    spec fn has_key(&self, k: Seq<char>) -> bool {
        exists|i: int| 0 <= i < self.keys@.len() && #[trigger] self.keys@[i]@ == k
    }

    spec fn key_index(&self, k: Seq<char>) -> int {
        choose|i: int| 0 <= i < self.keys@.len() && #[trigger] self.keys@[i]@ == k
    }

    /// Count under `k`, 0 for a name never recorded.
    pub open spec fn count_of(&self, k: Seq<char>) -> nat {
        if self.view().contains_key(k) { self.view()[k] as nat } else { 0 }
    }

    pub fn new() -> (r: Self)
        ensures
            r.wf(),
            r.view() == Map::<Seq<char>, u64>::empty(),
    {
        let r = PipelineCounters { keys: Vec::new(), counts: Vec::new() };
        assert(r.view() =~= Map::<Seq<char>, u64>::empty());
        r
    }

    fn find(&self, key: &Vec<char>) -> (r: Option<usize>)
        requires
            self.wf(),
        ensures
            match r {
                None => !self.has_key(key@),
                Some(i) => i < self.keys@.len() && self.keys@[i as int]@ == key@,
            },
    {
        let mut i: usize = 0;
        while i < self.keys.len()
            invariant
                i <= self.keys@.len(),
                forall|j: int| 0 <= j < i ==> #[trigger] self.keys@[j]@ != key@,
            decreases self.keys@.len() - i,
        {
            let k = &self.keys[i];
            if range_equals(k, 0, k.len(), key) {
                assert(k@.subrange(0, k@.len() as int) =~= k@);
                return Some(i);
            }
            assert(k@.subrange(0, k@.len() as int) =~= k@);
            i = i + 1;
        }
        None
    }

    proof fn lemma_index_unique(&self, i: int)
        requires
            self.wf(),
            0 <= i < self.keys@.len(),
        ensures
            self.has_key(self.keys@[i]@),
            self.key_index(self.keys@[i]@) == i,
    {
        let k = self.keys@[i]@;
        assert(self.keys@[i]@ == k);
        let j = self.key_index(k);
        if j != i {
            assert(self.keys@[j]@ != self.keys@[i]@);
        }
    }

    /// Current count under `key` (`c.get(key).copied().unwrap_or(0)`).
    pub fn get(&self, key: &str) -> (n: u64)
        requires
            self.wf(),
        ensures
            n as nat == self.count_of(key@),
    {
        let k = chars_of(key);
        match self.find(&k) {
            None => 0,
            Some(i) => {
                proof {
                    self.lemma_index_unique(i as int);
                }
                self.counts[i]
            },
        }
    }

    /// Adds `count` under `key` (`*entry(key).or_insert(0) += count`).
    pub fn record(&mut self, key: &str, count: u64)
        requires
            old(self).wf(),
            old(self).count_of(key@) + count <= u64::MAX,
        ensures
            final(self).wf(),
            final(self).view() == old(self).view().insert(
                key@,
                (old(self).count_of(key@) + count) as u64,
            ),
    {
        let k = chars_of(key);
        match self.find(&k) {
            Some(i) => {
                proof {
                    old(self).lemma_index_unique(i as int);
                }
                let v = self.counts[i] + count;
                self.counts.set(i, v);
                proof {
                    assert forall|x: Seq<char>| #[trigger] self.view().contains_key(x)
                        == old(self).view().insert(key@, v).contains_key(x) by {
                        if old(self).has_key(x) {
                            let j = old(self).key_index(x);
                            assert(self.keys@[j]@ == x);
                        }
                        if self.has_key(x) {
                            let j = self.key_index(x);
                            assert(old(self).keys@[j]@ == x);
                        }
                    };
                    assert forall|x: Seq<char>| #[trigger] self.view().contains_key(x) implies self.view()[x]
                        == old(self).view().insert(key@, v)[x] by {
                        let j = self.key_index(x);
                        old(self).lemma_index_unique(j);
                        self.lemma_index_unique(j);
                    };
                    assert(self.view() =~= old(self).view().insert(key@, v));
                }
            },
            None => {
                self.keys.push(k);
                self.counts.push(count);
                proof {
                    let n = old(self).keys@.len() as int;
                    assert forall|i: int, j: int|
                        0 <= i < self.keys@.len() && 0 <= j < self.keys@.len() && i != j
                            implies #[trigger] self.keys@[i]@ != #[trigger] self.keys@[j]@ by {
                        if i < n && j < n {
                            assert(old(self).keys@[i] == self.keys@[i]);
                            assert(old(self).keys@[j] == self.keys@[j]);
                        } else if i == n {
                            assert(old(self).keys@[j]@ == self.keys@[j]@);
                        } else {
                            assert(old(self).keys@[i]@ == self.keys@[i]@);
                        }
                    };
                    self.lemma_index_unique(n);
                    assert forall|x: Seq<char>| #[trigger] self.view().contains_key(x)
                        == old(self).view().insert(key@, count).contains_key(x) by {
                        if old(self).has_key(x) {
                            let j = old(self).key_index(x);
                            assert(self.keys@[j]@ == x);
                        }
                        if self.has_key(x) {
                            let j = self.key_index(x);
                            if j < n {
                                assert(old(self).keys@[j]@ == x);
                            }
                        }
                    };
                    assert forall|x: Seq<char>| #[trigger] self.view().contains_key(x) implies self.view()[x]
                        == old(self).view().insert(key@, count)[x] by {
                        let j = self.key_index(x);
                        self.lemma_index_unique(j);
                        if j < n {
                            assert(old(self).keys@[j] == self.keys@[j]);
                            old(self).lemma_index_unique(j);
                        }
                    };
                    assert(self.view() =~= old(self).view().insert(key@, count));
                }
            },
        }
    }
}

/// Recording adds to the named counter and leaves every other counter as it was.
pub proof fn law_record_adds_to_one_counter(
    before: PipelineCounters,
    after: PipelineCounters,
    key: Seq<char>,
    count: u64,
    other: Seq<char>,
)
    requires
        before.count_of(key) + count <= u64::MAX,
        after.view() == before.view().insert(key, (before.count_of(key) + count) as u64),
        other != key,
    ensures
        after.count_of(key) == before.count_of(key) + count,
        after.count_of(other) == before.count_of(other),
{
}

// ---------------------------------------------------------------------------
// Per-phase metrics

/// Sum of the samples.
pub open spec fn seq_sum(s: Seq<u64>) -> nat
    decreases s.len(),
{
    if s.len() == 0 { 0 } else { seq_sum(s.drop_last()) + s.last() as nat }
}

/// Smallest sample (0 for none).
pub open spec fn seq_min(s: Seq<u64>) -> u64
    decreases s.len(),
{
    if s.len() == 0 {
        0
    } else if s.len() == 1 {
        s[0]
    } else if s.last() < seq_min(s.drop_last()) {
        s.last()
    } else {
        seq_min(s.drop_last())
    }
}

/// Largest sample (0 for none).
pub open spec fn seq_max(s: Seq<u64>) -> u64
    decreases s.len(),
{
    if s.len() == 0 {
        0
    } else if s.len() == 1 {
        s[0]
    } else if s.last() > seq_max(s.drop_last()) {
        s.last()
    } else {
        seq_max(s.drop_last())
    }
}

pub proof fn lemma_sum_prefix_le(s: Seq<u64>, i: int)
    requires
        0 <= i <= s.len(),
    ensures
        seq_sum(s.take(i)) <= seq_sum(s),
    decreases s.len(),
{
    if i < s.len() {
        assert(s.drop_last().take(i) =~= s.take(i));
        lemma_sum_prefix_le(s.drop_last(), i);
    } else {
        assert(s.take(i) =~= s);
    }
}

/// Integer metrics of one dashboard phase.
pub struct PhaseMetrics {
    pub name: &'static str,
    pub description: &'static str,
    pub status: PhaseStatus,
    pub trades_pushed: u64,
    pub bars_received: u64,
    pub trades_this_sec: u64,
    pub bars_this_sec: u64,
    pub trades_sparkline: VecDeque<u64>,
    pub bars_sparkline: VecDeque<u64>,
    /// Latency samples in microseconds, oldest first.
    pub latency_us: VecDeque<u64>,
    pub avg_latency_us: u64,
    pub min_latency_us: u64,
    pub max_latency_us: u64,
    pub pipeline_counters: PipelineCounters,
}

impl PhaseMetrics {
    pub open spec fn wf(&self) -> bool {
        &&& self.pipeline_counters.wf()
        &&& self.trades_sparkline@.len() <= SPARKLINE_HISTORY
        &&& self.bars_sparkline@.len() <= SPARKLINE_HISTORY
        &&& self.latency_us@.len() <= SPARKLINE_HISTORY
    }

    /// A phase that is setting up, with no data yet.
    pub fn new(name: &'static str, description: &'static str) -> (r: Self)
        ensures
            r.wf(),
            r.name == name,
            r.description == description,
            r.status == PhaseStatus::Setting,
            r.trades_pushed == 0 && r.bars_received == 0,
            r.trades_this_sec == 0 && r.bars_this_sec == 0,
            r.trades_sparkline@.len() == 0 && r.bars_sparkline@.len() == 0,
            r.latency_us@.len() == 0,
            r.avg_latency_us == 0 && r.min_latency_us == 0 && r.max_latency_us == 0,
            r.pipeline_counters.view() == Map::<Seq<char>, u64>::empty(),
    {
        PhaseMetrics {
            name,
            description,
            status: PhaseStatus::Setting,
            trades_pushed: 0,
            bars_received: 0,
            trades_this_sec: 0,
            bars_this_sec: 0,
            trades_sparkline: VecDeque::with_capacity(SPARKLINE_HISTORY),
            bars_sparkline: VecDeque::with_capacity(SPARKLINE_HISTORY),
            latency_us: VecDeque::with_capacity(SPARKLINE_HISTORY),
            avg_latency_us: 0,
            min_latency_us: 0,
            max_latency_us: 0,
            pipeline_counters: PipelineCounters::new(),
        }
    }

    /// Counts `count` pushed trades, in total and in the current second.
    pub fn record_push(&mut self, count: u64)
        requires
            old(self).trades_pushed + count <= u64::MAX,
            old(self).trades_this_sec + count <= u64::MAX,
        ensures
            final(self).trades_pushed == old(self).trades_pushed + count,
            final(self).trades_this_sec == old(self).trades_this_sec + count,
            final(self).bars_received == old(self).bars_received,
            final(self).bars_this_sec == old(self).bars_this_sec,
            final(self).trades_sparkline@ == old(self).trades_sparkline@,
            final(self).bars_sparkline@ == old(self).bars_sparkline@,
            final(self).latency_us@ == old(self).latency_us@,
            final(self).pipeline_counters == old(self).pipeline_counters,
            final(self).status == old(self).status,
            final(self).name == old(self).name,
            final(self).description == old(self).description,
            final(self).avg_latency_us == old(self).avg_latency_us,
            final(self).min_latency_us == old(self).min_latency_us,
            final(self).max_latency_us == old(self).max_latency_us,
    {
        self.trades_pushed = self.trades_pushed + count;
        self.trades_this_sec = self.trades_this_sec + count;
    }

    /// Counts `count` received bars, in total and in the current second.
    pub fn record_bar_count(&mut self, count: u64)
        requires
            old(self).bars_received + count <= u64::MAX,
            old(self).bars_this_sec + count <= u64::MAX,
        ensures
            final(self).bars_received == old(self).bars_received + count,
            final(self).bars_this_sec == old(self).bars_this_sec + count,
            final(self).trades_pushed == old(self).trades_pushed,
            final(self).trades_this_sec == old(self).trades_this_sec,
            final(self).trades_sparkline@ == old(self).trades_sparkline@,
            final(self).bars_sparkline@ == old(self).bars_sparkline@,
            final(self).latency_us@ == old(self).latency_us@,
            final(self).pipeline_counters == old(self).pipeline_counters,
            final(self).status == old(self).status,
            final(self).name == old(self).name,
            final(self).description == old(self).description,
            final(self).avg_latency_us == old(self).avg_latency_us,
            final(self).min_latency_us == old(self).min_latency_us,
            final(self).max_latency_us == old(self).max_latency_us,
    {
        self.bars_received = self.bars_received + count;
        self.bars_this_sec = self.bars_this_sec + count;
    }

    /// Whether the latency window, with `lat` appended, sums to at most `u64::MAX`.
    pub fn latency_sum_fits(&self, lat: u64) -> (b: bool)
        requires
            self.wf(),
        ensures
            b == (seq_sum(bounded_push_back(self.latency_us@, lat, SPARKLINE_HISTORY as nat))
                <= u64::MAX),
    {
        let n = self.latency_us.len();
        let start: usize = if n + 1 > SPARKLINE_HISTORY { 1 } else { 0 };
        let ghost w = self.latency_us@;
        let mut total: u128 = 0;
        let mut i: usize = start;
        while i < n
            invariant
                start <= i <= n,
                n == w.len(),
                n <= SPARKLINE_HISTORY,
                w == self.latency_us@,
                total as nat == seq_sum(w.subrange(start as int, i as int)),
                total <= i * 0xffff_ffff_ffff_ffff,
            decreases n - i,
        {
            assert(w.subrange(start as int, i + 1).drop_last() =~= w.subrange(start as int, i as int));
            total = total + self.latency_us[i] as u128;
            i = i + 1;
        }
        let after = total + lat as u128;
        proof {
            let t = w.subrange(start as int, n as int).push(lat);
            assert(t.drop_last() =~= w.subrange(start as int, n as int));
            assert(bounded_push_back(w, lat, SPARKLINE_HISTORY as nat) =~= t);
        }
        after <= 0xffff_ffff_ffff_ffff
    }

    /// Appends a latency sample to the window (keeping the newest
    /// `SPARKLINE_HISTORY`) and refreshes average, minimum and maximum.
    pub fn record_latency(&mut self, lat: u64)
        requires
            old(self).wf(),
            seq_sum(bounded_push_back(old(self).latency_us@, lat, SPARKLINE_HISTORY as nat))
                <= u64::MAX,
        ensures
            final(self).wf(),
            final(self).latency_us@ == bounded_push_back(old(self).latency_us@, lat, SPARKLINE_HISTORY as nat),
            final(self).avg_latency_us as nat == seq_sum(final(self).latency_us@) / final(self).latency_us@.len(),
            final(self).min_latency_us == seq_min(final(self).latency_us@),
            final(self).max_latency_us == seq_max(final(self).latency_us@),
            final(self).trades_pushed == old(self).trades_pushed,
            final(self).bars_received == old(self).bars_received,
            final(self).trades_this_sec == old(self).trades_this_sec,
            final(self).bars_this_sec == old(self).bars_this_sec,
            final(self).trades_sparkline@ == old(self).trades_sparkline@,
            final(self).bars_sparkline@ == old(self).bars_sparkline@,
            final(self).pipeline_counters == old(self).pipeline_counters,
            final(self).status == old(self).status,
            final(self).name == old(self).name,
            final(self).description == old(self).description,
    {
        push_back_bounded(&mut self.latency_us, lat, SPARKLINE_HISTORY);
        let ghost w = self.latency_us@;
        let n = self.latency_us.len();
        assert(n >= 1);
        let mut sum: u64 = self.latency_us[0];
        let mut lo: u64 = self.latency_us[0];
        let mut hi: u64 = self.latency_us[0];
        assert(w.take(1).drop_last() =~= w.take(0));
        assert(seq_sum(w.take(0)) == 0);
        let mut i: usize = 1;
        while i < n
            invariant
                1 <= i <= n,
                n == w.len(),
                w == self.latency_us@,
                seq_sum(w) <= u64::MAX,
                sum as nat == seq_sum(w.take(i as int)),
                lo == seq_min(w.take(i as int)),
                hi == seq_max(w.take(i as int)),
            decreases n - i,
        {
            let x = self.latency_us[i];
            assert(w.take(i + 1).drop_last() =~= w.take(i as int));
            proof {
                lemma_sum_prefix_le(w, i + 1);
            }
            sum = sum + x;
            if x < lo {
                lo = x;
            }
            if x > hi {
                hi = x;
            }
            i = i + 1;
        }
        assert(w.take(n as int) =~= w);
        self.avg_latency_us = sum / (n as u64);
        self.min_latency_us = lo;
        self.max_latency_us = hi;
    }

    /// Closes the current second: its trade and bar counts go to the
    /// sparklines (newest `SPARKLINE_HISTORY` kept) and restart from zero.
    /// Returns the closed counts `(trades, bars)`.
    pub fn roll_second(&mut self) -> (closed: (u64, u64))
        requires
            old(self).wf(),
        ensures
            final(self).wf(),
            closed == (old(self).trades_this_sec, old(self).bars_this_sec),
            final(self).trades_sparkline@ == bounded_push_back(
                old(self).trades_sparkline@,
                old(self).trades_this_sec,
                SPARKLINE_HISTORY as nat,
            ),
            final(self).bars_sparkline@ == bounded_push_back(
                old(self).bars_sparkline@,
                old(self).bars_this_sec,
                SPARKLINE_HISTORY as nat,
            ),
            final(self).trades_this_sec == 0,
            final(self).bars_this_sec == 0,
            final(self).trades_pushed == old(self).trades_pushed,
            final(self).bars_received == old(self).bars_received,
            final(self).latency_us@ == old(self).latency_us@,
            final(self).pipeline_counters == old(self).pipeline_counters,
            final(self).status == old(self).status,
            final(self).name == old(self).name,
            final(self).description == old(self).description,
            final(self).avg_latency_us == old(self).avg_latency_us,
            final(self).min_latency_us == old(self).min_latency_us,
            final(self).max_latency_us == old(self).max_latency_us,
    {
        let trades = self.trades_this_sec;
        let bars = self.bars_this_sec;
        push_back_bounded(&mut self.trades_sparkline, trades, SPARKLINE_HISTORY);
        push_back_bounded(&mut self.bars_sparkline, bars, SPARKLINE_HISTORY);
        self.trades_this_sec = 0;
        self.bars_this_sec = 0;
        (trades, bars)
    }

    /// Adds `count` to the flow counter `key`.
    pub fn record_pipeline_count(&mut self, key: &str, count: u64)
        requires
            old(self).wf(),
            old(self).pipeline_counters.count_of(key@) + count <= u64::MAX,
        ensures
            final(self).wf(),
            final(self).pipeline_counters.view() == old(self).pipeline_counters.view().insert(
                key@,
                (old(self).pipeline_counters.count_of(key@) + count) as u64,
            ),
            final(self).trades_pushed == old(self).trades_pushed,
            final(self).bars_received == old(self).bars_received,
            final(self).trades_this_sec == old(self).trades_this_sec,
            final(self).bars_this_sec == old(self).bars_this_sec,
            final(self).trades_sparkline@ == old(self).trades_sparkline@,
            final(self).bars_sparkline@ == old(self).bars_sparkline@,
            final(self).latency_us@ == old(self).latency_us@,
            final(self).status == old(self).status,
            final(self).name == old(self).name,
            final(self).description == old(self).description,
            final(self).avg_latency_us == old(self).avg_latency_us,
            final(self).min_latency_us == old(self).min_latency_us,
            final(self).max_latency_us == old(self).max_latency_us,
    {
        self.pipeline_counters.record(key, count);
    }

    /// Records the outcome of the phase's setup: running, or failed.
    pub fn finish_setup(&mut self, ok: bool)
        ensures
            final(self).status == setup_status(ok),
            final(self).name == old(self).name,
            final(self).description == old(self).description,
            final(self).trades_pushed == old(self).trades_pushed,
            final(self).bars_received == old(self).bars_received,
            final(self).trades_this_sec == old(self).trades_this_sec,
            final(self).bars_this_sec == old(self).bars_this_sec,
            final(self).pipeline_counters == old(self).pipeline_counters,
            final(self).latency_us@ == old(self).latency_us@,
            final(self).trades_sparkline@ == old(self).trades_sparkline@,
            final(self).bars_sparkline@ == old(self).bars_sparkline@,
            final(self).avg_latency_us == old(self).avg_latency_us,
            final(self).min_latency_us == old(self).min_latency_us,
            final(self).max_latency_us == old(self).max_latency_us,
    {
        self.status = if ok { PhaseStatus::Running } else { PhaseStatus::Fail("setup failed") };
    }

    /// A running phase passes once any output arrived.
    pub fn mark_pass_if_received(&mut self)
        ensures
            final(self).status == (if old(self).bars_received > 0 { PhaseStatus::Pass } else { old(self).status }),
            final(self).bars_received == old(self).bars_received,
            final(self).trades_pushed == old(self).trades_pushed,
            final(self).pipeline_counters == old(self).pipeline_counters,
            final(self).latency_us@ == old(self).latency_us@,
            final(self).trades_sparkline@ == old(self).trades_sparkline@,
            final(self).bars_sparkline@ == old(self).bars_sparkline@,
            final(self).name == old(self).name,
            final(self).description == old(self).description,
            final(self).avg_latency_us == old(self).avg_latency_us,
            final(self).min_latency_us == old(self).min_latency_us,
            final(self).max_latency_us == old(self).max_latency_us,
            final(self).trades_this_sec == old(self).trades_this_sec,
            final(self).bars_this_sec == old(self).bars_this_sec,
    {
        if self.bars_received > 0 {
            self.status = PhaseStatus::Pass;
        }
    }
}

/// The latency read-outs lie within the window: minimum <= average <= maximum.
pub proof fn law_latency_stats_ordered(w: Seq<u64>)
    requires
        w.len() >= 1,
    ensures
        seq_min(w) <= seq_sum(w) / w.len() <= seq_max(w),
    decreases w.len(),
{
    lemma_min_max_sum(w);
    let n = w.len();
    let s = seq_sum(w);
    let lo = seq_min(w) as nat;
    let hi = seq_max(w) as nat;
    assert(lo <= s / n) by (nonlinear_arith)
        requires
            n * lo <= s,
            n >= 1,
    ;
    assert(s / n <= hi) by (nonlinear_arith)
        requires
            s <= n * hi,
            n >= 1,
    ;
}

proof fn lemma_min_max_sum(w: Seq<u64>)
    requires
        w.len() >= 1,
    ensures
        w.len() * (seq_min(w) as nat) <= seq_sum(w),
        seq_sum(w) <= w.len() * (seq_max(w) as nat),
        seq_min(w) <= seq_max(w),
    decreases w.len(),
{
    if w.len() == 1 {
        assert(w.drop_last().len() == 0);
        assert(seq_sum(w.drop_last()) == 0);
        assert(w.last() == w[0]);
        assert(seq_sum(w) == w[0]);
    } else {
        let p = w.drop_last();
        lemma_min_max_sum(p);
        let m = seq_min(w) as nat;
        let mp = seq_min(p) as nat;
        let x = w.last() as nat;
        let big = seq_max(w) as nat;
        let bp = seq_max(p) as nat;
        let n = p.len();
        assert(m <= mp && m <= x);
        assert(big >= bp && big >= x);
        assert((n + 1) * m <= seq_sum(p) + x) by (nonlinear_arith)
            requires
                n * mp <= seq_sum(p),
                m <= mp,
                m <= x,
        ;
        assert(seq_sum(p) + x <= (n + 1) * big) by (nonlinear_arith)
            requires
                seq_sum(p) <= n * bp,
                bp <= big,
                x <= big,
        ;
    }
}

/// The dashboard inserts CDC orders on every third frame.
pub fn cdc_insert_due(cycle: u64) -> (due: bool)
    ensures
        due == (cycle % 3 == 0),
{
    cycle % 3 == 0
}

// ---------------------------------------------------------------------------
// Tab navigation

/// Key events the dashboard reacts to.
#[derive(Clone, Copy, PartialEq, Eq, Debug)]
pub enum NavKey {
    /// `q` or Esc.
    Quit,
    /// Tab or Right.
    Next,
    /// BackTab or Left.
    Prev,
    Other,
}

pub open spec fn next_tab(t: nat, n: nat) -> nat {
    if n == 0 { t } else { (t + 1) % n }
}

pub open spec fn prev_tab(t: nat, n: nat) -> nat {
    if n == 0 { t } else if t == 0 { (n - 1) as nat } else { (t - 1) as nat }
}

/// Selected tab and quit request of the dashboard.
pub struct TabNav {
    pub selected_tab: usize,
    pub should_quit: bool,
}

impl TabNav {
    pub fn new() -> (r: Self)
        ensures
            r.selected_tab == 0,
            !r.should_quit,
    {
        TabNav { selected_tab: 0, should_quit: false }
    }

    /// Reacts to a key with `tab_count` tabs: quit, or move the selection
    /// forward or back, wrapping around.
    pub fn handle_key(&mut self, key: NavKey, tab_count: usize)
        requires
            tab_count == 0 || old(self).selected_tab < tab_count,
        ensures
            final(self).should_quit == (old(self).should_quit || key == NavKey::Quit),
            final(self).selected_tab == (match key {
                NavKey::Next => next_tab(old(self).selected_tab as nat, tab_count as nat),
                NavKey::Prev => prev_tab(old(self).selected_tab as nat, tab_count as nat),
                _ => old(self).selected_tab as nat,
            }),
    {
        match key {
            NavKey::Quit => {
                self.should_quit = true;
            },
            NavKey::Next => {
                if tab_count > 0 {
                    self.selected_tab = (self.selected_tab + 1) % tab_count;
                }
            },
            NavKey::Prev => {
                if tab_count > 0 {
                    self.selected_tab = if self.selected_tab == 0 {
                        tab_count - 1
                    } else {
                        self.selected_tab - 1
                    };
                }
            },
            NavKey::Other => {},
        }
    }
}

/// Moving forward then back, or back then forward, returns to the same tab,
/// and the selection stays among the tabs.
pub proof fn law_tab_moves_invert(t: nat, n: nat)
    requires
        t < n,
    ensures
        prev_tab(next_tab(t, n), n) == t,
        next_tab(prev_tab(t, n), n) == t,
        next_tab(t, n) < n,
        prev_tab(t, n) < n,
{
    if t + 1 < n {
        vstd::arithmetic::div_mod::lemma_small_mod(t + 1, n);
    } else {
        vstd::arithmetic::div_mod::lemma_mod_self_0(n as int);
    }
    vstd::arithmetic::div_mod::lemma_small_mod(t, n);
    vstd::arithmetic::div_mod::lemma_mod_self_0(n as int);
    if t > 0 {
        vstd::arithmetic::div_mod::lemma_small_mod((t - 1) as nat, n);
    } else {
        vstd::arithmetic::div_mod::lemma_small_mod((n - 1) as nat, n);
    }
}

/// The selected tab after the keys `keys`, one after another, from tab `t`
/// among `n` tabs (quit and other keys leave the selection alone).
pub open spec fn tab_after(t: nat, keys: Seq<NavKey>, n: nat) -> nat
    decreases keys.len(),
{
    if keys.len() == 0 {
        t
    } else {
        let before = tab_after(t, keys.drop_last(), n);
        match keys.last() {
            NavKey::Next => next_tab(before, n),
            NavKey::Prev => prev_tab(before, n),
            _ => before,
        }
    }
}

/// Forward moves minus backward moves among `keys`.
pub open spec fn net_moves(keys: Seq<NavKey>) -> int
    decreases keys.len(),
{
    if keys.len() == 0 {
        0
    } else {
        net_moves(keys.drop_last()) + match keys.last() {
            NavKey::Next => 1int,
            NavKey::Prev => -1int,
            _ => 0int,
        }
    }
}

/// After any run of keys, the selected tab is the start moved by the net
/// count of forward minus backward keys, wrapping around the `n` tabs, and
/// it stays among the tabs.
pub proof fn law_tab_after_keys(t: nat, keys: Seq<NavKey>, n: nat)
    requires
        t < n,
    ensures
        tab_after(t, keys, n) == (t + net_moves(keys)) % (n as int),
        tab_after(t, keys, n) < n,
    decreases keys.len(),
{
    let ni = n as int;
    if keys.len() == 0 {
        vstd::arithmetic::div_mod::lemma_fundamental_div_mod_converse(t as int, ni, 0, t as int);
    } else {
        let pre = keys.drop_last();
        law_tab_after_keys(t, pre, n);
        let a = tab_after(t, pre, n) as int;
        let x = t + net_moves(pre);
        vstd::arithmetic::div_mod::lemma_fundamental_div_mod(x, ni);
        let k = x / ni;
        assert(x == k * ni + a) by (nonlinear_arith)
            requires
                x == ni * k + a,
        ;
        match keys.last() {
            NavKey::Next => {
                if a + 1 < ni {
                    vstd::arithmetic::div_mod::lemma_small_mod((a + 1) as nat, n);
                    vstd::arithmetic::div_mod::lemma_fundamental_div_mod_converse(x + 1, ni, k, a + 1);
                } else {
                    vstd::arithmetic::div_mod::lemma_mod_self_0(ni);
                    assert(x + 1 == (k + 1) * ni + 0) by (nonlinear_arith)
                        requires
                            x == k * ni + a,
                            a + 1 == ni,
                    ;
                    vstd::arithmetic::div_mod::lemma_fundamental_div_mod_converse(x + 1, ni, k + 1, 0);
                }
            },
            NavKey::Prev => {
                if a > 0 {
                    vstd::arithmetic::div_mod::lemma_fundamental_div_mod_converse(x - 1, ni, k, a - 1);
                } else {
                    assert(x - 1 == (k - 1) * ni + (ni - 1)) by (nonlinear_arith)
                        requires
                            x == k * ni + a,
                            a == 0,
                    ;
                    vstd::arithmetic::div_mod::lemma_fundamental_div_mod_converse(x - 1, ni, k - 1, ni - 1);
                }
            },
            _ => {},
        }
    }
}

/// Status right after setup: running, or failed with "setup failed".
pub open spec fn setup_status(ok: bool) -> PhaseStatus {
    if ok { PhaseStatus::Running } else { PhaseStatus::Fail("setup failed") }
}

/// One frame of a set-up phase: it passes once output has arrived
/// (`mark_pass_if_received`).
pub open spec fn status_step(s: PhaseStatus, bars_received: u64) -> PhaseStatus {
    if bars_received > 0 { PhaseStatus::Pass } else { s }
}

/// Status of a phase over a run: after setup, then after each frame whose
/// received-bar total is `bars[t]`. A phase whose setup failed is not
/// driven by the frames.
pub open spec fn run_status(setup_ok: bool, bars: Seq<u64>) -> PhaseStatus
    decreases bars.len(),
{
    if !setup_ok || bars.len() == 0 {
        setup_status(setup_ok)
    } else {
        status_step(run_status(setup_ok, bars.drop_last()), bars.last())
    }
}

/// Over a run, a phase's badge reads FAIL exactly when its setup failed;
/// otherwise RUNNING until a frame in which output has arrived, and PASS from
/// that frame on, never going back; SETUP is never shown after setup.
pub proof fn law_status_over_run(setup_ok: bool, bars: Seq<u64>, i: int)
    requires
        0 <= i <= bars.len(),
    ensures
        (status_label(run_status(setup_ok, bars)) == "FAIL"@) == !setup_ok,
        setup_ok ==> (run_status(setup_ok, bars) == PhaseStatus::Pass <==> exists|t: int|
            0 <= t < bars.len() && #[trigger] bars[t] > 0),
        setup_ok ==> (run_status(setup_ok, bars) == PhaseStatus::Running <==> !exists|t: int|
            0 <= t < bars.len() && #[trigger] bars[t] > 0),
        run_status(setup_ok, bars.take(i)) == PhaseStatus::Pass ==> run_status(setup_ok, bars)
            == PhaseStatus::Pass,
        run_status(setup_ok, bars) != PhaseStatus::Setting,
    decreases bars.len(),
{
    reveal_strlit("FAIL");
    reveal_strlit("PASS");
    reveal_strlit("RUNNING");
    assert("RUNNING"@ != "FAIL"@) by {
        assert("RUNNING"@.len() != "FAIL"@.len());
    };
    assert("PASS"@ != "FAIL"@) by {
        assert("PASS"@[0] != "FAIL"@[0]);
    };
    if setup_ok && bars.len() > 0 {
        let pre = bars.drop_last();
        if i == bars.len() {
            assert(bars.take(i) =~= bars);
            law_status_over_run(setup_ok, pre, 0);
        } else {
            assert(bars.take(i) =~= pre.take(i));
            law_status_over_run(setup_ok, pre, i);
        }
        if exists|t: int| 0 <= t < pre.len() && #[trigger] pre[t] > 0 {
            let t = choose|t: int| 0 <= t < pre.len() && #[trigger] pre[t] > 0;
            assert(bars[t] > 0);
        }
        if exists|t: int| 0 <= t < bars.len() && #[trigger] bars[t] > 0 {
            let t = choose|t: int| 0 <= t < bars.len() && #[trigger] bars[t] > 0;
            if t < pre.len() {
                assert(pre[t] > 0);
            }
        }
    } else if setup_ok {
        assert(bars.take(i) =~= bars);
    }
}

} // verus!
