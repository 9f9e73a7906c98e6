//! Deterministic parts of the synthetic market data: the traded symbols and
//! the sequence-numbered identifiers of orders and trades.

use vstd::prelude::*;

use crate::decimal::{decimal, law_zero_padded_injective, push_zero_padded, zero_padded};
use crate::text::{push_str_chars, string_from_chars};

verus! {

/// Number of traded symbols.
pub const SYMBOL_COUNT: usize = 5;

pub open spec fn symbol_text(i: nat) -> Seq<char> {
    if i == 0 {
        "AAPL"@
    } else if i == 1 {
        "GOOGL"@
    } else if i == 2 {
        "MSFT"@
    } else if i == 3 {
        "AMZN"@
    } else {
        "TSLA"@
    }
}

/// Ticker of symbol `i`: AAPL, GOOGL, MSFT, AMZN, TSLA.
pub fn symbol_name(i: usize) -> (s: &'static str)
    requires
        i < SYMBOL_COUNT,
    ensures
        s@ == symbol_text(i as nat),
{
    if i == 0 {
        "AAPL"
    } else if i == 1 {
        "GOOGL"
    } else if i == 2 {
        "MSFT"
    } else if i == 3 {
        "AMZN"
    } else {
        "TSLA"
    }
}

/// `format!("{prefix}{:06}", seq)`.
pub open spec fn sequence_label(prefix: Seq<char>, seq: nat) -> Seq<char> {
    prefix + zero_padded(decimal(seq), 6)
}

/// Identifier `prefix` followed by `seq` zero-padded to six digits.
pub fn format_sequence_id(prefix: &str, seq: u64) -> (s: String)
    ensures
        s@ == sequence_label(prefix@, seq as nat),
{
    let mut out: Vec<char> = Vec::new();
    push_str_chars(&mut out, prefix);
    push_zero_padded(&mut out, seq, 6);
    string_from_chars(&out)
}

/// Order identifier `ORD-000042`.
pub fn format_order_id(seq: u64) -> (s: String)
    ensures
        s@ == sequence_label("ORD-"@, seq as nat),
{
    format_sequence_id("ORD-", seq)
}

/// Counter of the orders a market generator has issued.
pub struct OrderSequence {
    pub last: u64,
}

impl OrderSequence {
    pub fn new() -> (r: Self)
        ensures
            r.last == 0,
    {
        OrderSequence { last: 0 }
    }

    /// Advances the counter and returns the identifier of the new order.
    pub fn next_order_id(&mut self) -> (id: String)
        requires
            old(self).last < u64::MAX,
        ensures
            final(self).last == old(self).last + 1,
            id@ == sequence_label("ORD-"@, final(self).last as nat),
    {
        self.last = self.last + 1;
        format_order_id(self.last)
    }
}

/// Identifiers issued under one prefix never repeat: different sequence
/// numbers give different identifiers.
pub proof fn law_sequence_labels_distinct(prefix: Seq<char>, a: nat, b: nat)
    requires
        a != b,
    ensures
        sequence_label(prefix, a) != sequence_label(prefix, b),
{
    if sequence_label(prefix, a) == sequence_label(prefix, b) {
        let n = prefix.len() as int;
        assert(sequence_label(prefix, a).skip(n) =~= zero_padded(decimal(a), 6));
        assert(sequence_label(prefix, b).skip(n) =~= zero_padded(decimal(b), 6));
        law_zero_padded_injective(a, b, 6);
    }
}

} // verus!
