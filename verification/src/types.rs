//! Plain result rows of the pipelines that hold no floating-point columns.

use vstd::prelude::*;

verus! {

/// TUMBLE + CASE WHEN: wash trading score per account+symbol.
#[derive(Debug, Clone)]
pub struct WashScore {
    pub account_id: String,
    pub symbol: String,
    pub buy_volume: i64,
    pub sell_volume: i64,
    pub buy_count: i64,
    pub sell_count: i64,
}

} // verus!
