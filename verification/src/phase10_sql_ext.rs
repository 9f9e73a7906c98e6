//! Result rows and verdicts of the SQL extension checks (HAVING, LAG, LEAD).

use vstd::prelude::*;

use crate::checks::Outcome;

verus! {

/// HAVING check output: symbol with filtered trade count.
#[derive(Debug, Clone)]
pub struct HavingResult {
    pub symbol: String,
    pub trade_count: i64,
    pub total_volume: i64,
}

/// What the HAVING check saw: a baseline stream without HAVING and a
/// stream whose HAVING threshold no group can reach.
#[derive(Clone, Copy, PartialEq, Eq, Debug)]
pub enum HavingVerdict {
    /// The baseline produced rows and the filtered stream none.
    Filters,
    /// Both produced rows: HAVING was not applied.
    NotFiltering,
    /// The baseline produced nothing.
    NoBaseline,
}

pub fn having_verdict(all_count: u64, filtered_count: u64) -> (r: HavingVerdict)
    ensures
        all_count > 0 && filtered_count == 0 ==> r == HavingVerdict::Filters,
        all_count > 0 && filtered_count > 0 ==> r == HavingVerdict::NotFiltering,
        all_count == 0 ==> r == HavingVerdict::NoBaseline,
{
    if all_count > 0 && filtered_count == 0 {
        HavingVerdict::Filters
    } else if all_count > 0 && filtered_count > 0 {
        HavingVerdict::NotFiltering
    } else {
        HavingVerdict::NoBaseline
    }
}

impl HavingVerdict {
    pub fn outcome(self) -> (o: Outcome)
        ensures
            o == (if self == HavingVerdict::Filters { Outcome::Pass } else { Outcome::Fail }),
    {
        match self {
            HavingVerdict::Filters => Outcome::Pass,
            _ => Outcome::Fail,
        }
    }
}

/// What a LAG / LEAD check saw.
#[derive(Clone, Copy, PartialEq, Eq, Debug)]
pub enum OffsetVerdict {
    NoOutput,
    /// Some rows carried a neighbouring value.
    HasNeighbours,
    /// Every row carried the default: each micro-batch starts its partitions afresh.
    AllDefault,
}

pub fn offset_verdict(total_rows: u64, rows_with_neighbour: u64) -> (r: OffsetVerdict)
    ensures
        total_rows == 0 ==> r == OffsetVerdict::NoOutput,
        total_rows > 0 && rows_with_neighbour > 0 ==> r == OffsetVerdict::HasNeighbours,
        total_rows > 0 && rows_with_neighbour == 0 ==> r == OffsetVerdict::AllDefault,
{
    if total_rows == 0 {
        OffsetVerdict::NoOutput
    } else if rows_with_neighbour > 0 {
        OffsetVerdict::HasNeighbours
    } else {
        OffsetVerdict::AllDefault
    }
}

impl OffsetVerdict {
    /// Output of any kind passes.
    pub fn outcome(self) -> (o: Outcome)
        ensures
            o == (if self == OffsetVerdict::NoOutput { Outcome::Fail } else { Outcome::Pass }),
    {
        match self {
            OffsetVerdict::NoOutput => Outcome::Fail,
            _ => Outcome::Pass,
        }
    }
}

} // verus!
