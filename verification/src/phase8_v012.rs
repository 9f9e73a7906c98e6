//! Result rows and verdicts of the feature checks for cascading views,
//! session windows, EMIT ON WINDOW CLOSE, INTERVAL arithmetic and late data.

use vstd::prelude::*;

use crate::checks::Outcome;
use crate::text::str_equals;

verus! {

/// INTERVAL arithmetic output: trade count per symbol in a HOP window.
#[derive(Debug, Clone)]
pub struct IntervalCount {
    pub symbol: String,
    pub trade_count: i64,
    pub total_volume: i64,
}

/// Late data check output: simple tumble count.
#[derive(Debug, Clone)]
pub struct WindowCount {
    pub symbol: String,
    pub cnt: i64,
}

/// What the cascading-view check saw.
#[derive(Clone, Copy, PartialEq, Eq, Debug)]
pub enum CascadeVerdict {
    /// The second level produced bars.
    Cascades,
    /// Only the first level produced bars.
    FirstLevelOnly,
    NoOutput,
}

/// The second level decides; the first tells a broken cascade from no output.
pub fn cascade_verdict(l1_count: u64, l2_count: u64) -> (r: CascadeVerdict)
    ensures
        l2_count > 0 ==> r == CascadeVerdict::Cascades,
        l2_count == 0 && l1_count > 0 ==> r == CascadeVerdict::FirstLevelOnly,
        l2_count == 0 && l1_count == 0 ==> r == CascadeVerdict::NoOutput,
{
    if l2_count > 0 {
        CascadeVerdict::Cascades
    } else if l1_count > 0 {
        CascadeVerdict::FirstLevelOnly
    } else {
        CascadeVerdict::NoOutput
    }
}

impl CascadeVerdict {
    pub fn outcome(self) -> (o: Outcome)
        ensures
            o == (if self == CascadeVerdict::Cascades { Outcome::Pass } else { Outcome::Fail }),
    {
        match self {
            CascadeVerdict::Cascades => Outcome::Pass,
            _ => Outcome::Fail,
        }
    }
}

/// Checks that only need some output: pass when anything was received.
pub fn output_outcome(received: u64) -> (o: Outcome)
    ensures
        o == (if received > 0 { Outcome::Pass } else { Outcome::Fail }),
{
    if received > 0 {
        Outcome::Pass
    } else {
        Outcome::Fail
    }
}

/// What the late-data check saw after pushing rows of the symbol `LATE`
/// far behind the watermark.
#[derive(Clone, Copy, PartialEq, Eq, Debug)]
pub struct LateDataVerdict {
    /// No output row carries the late symbol.
    pub filtered: bool,
}

/// Whether any output row of the window count names the late symbol `LATE`.
pub fn late_data_verdict(rows: &Vec<WindowCount>) -> (r: LateDataVerdict)
    ensures
        r.filtered == !(exists|i: int| 0 <= i < rows@.len() && #[trigger] rows@[i].symbol@ == "LATE"@),
        r.outcome() == Outcome::Pass,
{
    let mut i: usize = 0;
    while i < rows.len()
        invariant
            i <= rows@.len(),
            forall|j: int| 0 <= j < i ==> #[trigger] rows@[j].symbol@ != "LATE"@,
        decreases rows@.len() - i,
    {
        if str_equals(rows[i].symbol.as_str(), "LATE") {
            return LateDataVerdict { filtered: false };
        }
        i = i + 1;
    }
    LateDataVerdict { filtered: true }
}

impl LateDataVerdict {
    /// Passes either way: in the embedded executor late rows may still come
    /// through, a known limitation reported in the message, not a failure.
    #[verifier::allow_in_spec]
    pub fn outcome(self) -> Outcome
        returns
            Outcome::Pass,
    {
        Outcome::Pass
    }
}

/// How the SESSION window emitted, from its output rows and the trades pushed.
#[derive(Clone, Copy, PartialEq, Eq, Debug)]
pub enum SessionEmit {
    NoOutput,
    /// Fewer than one output per two trades: sessions merge.
    Merged,
    /// About one output per batch: no merging across batches.
    PerBatch,
}

/// Merged when outputs are under half the trades (`rows / trades < 0.5`).
pub fn session_emit(session_rows: u64, total_trades: u64) -> (r: SessionEmit)
    ensures
        session_rows == 0 ==> r == SessionEmit::NoOutput,
        session_rows > 0 && 2 * session_rows < total_trades ==> r == SessionEmit::Merged,
        session_rows > 0 && 2 * session_rows >= total_trades ==> r == SessionEmit::PerBatch,
{
    if session_rows == 0 {
        SessionEmit::NoOutput
    } else if session_rows < total_trades / 2 + total_trades % 2 {
        SessionEmit::Merged
    } else {
        SessionEmit::PerBatch
    }
}

} // verus!
