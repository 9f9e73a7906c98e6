//! Verdicts of the subscription-mode checks.

use vstd::prelude::*;

use crate::checks::Outcome;

verus! {

/// What the `recv_timeout` check saw: whether the first receive, on the
/// empty stream, timed out, and whether data arrived once trades flowed.
#[derive(Clone, Copy, PartialEq, Eq, Debug)]
pub enum RecvVerdict {
    /// Timed out on the empty stream, then received data.
    Received,
    /// Received data, but the first receive on the empty stream did not time out.
    ReceivedWithoutTimeout,
    /// Timed out on the empty stream, but no data came later.
    TimedOutNoData,
    /// Did not time out on the empty stream, and no data came.
    NoTimeoutNoData,
}

/// `recv_timeout` works when it times out while nothing is there and returns
/// data once there is some.
pub fn recv_verdict(received: u64, timed_out_when_empty: bool) -> (r: RecvVerdict)
    ensures
        received > 0 && timed_out_when_empty ==> r == RecvVerdict::Received,
        received > 0 && !timed_out_when_empty ==> r == RecvVerdict::ReceivedWithoutTimeout,
        received == 0 && timed_out_when_empty ==> r == RecvVerdict::TimedOutNoData,
        received == 0 && !timed_out_when_empty ==> r == RecvVerdict::NoTimeoutNoData,
{
    if received > 0 {
        if timed_out_when_empty {
            RecvVerdict::Received
        } else {
            RecvVerdict::ReceivedWithoutTimeout
        }
    } else if timed_out_when_empty {
        RecvVerdict::TimedOutNoData
    } else {
        RecvVerdict::NoTimeoutNoData
    }
}

impl RecvVerdict {
    /// Pass exactly when the first receive timed out and data arrived later.
    pub fn outcome(self) -> (o: Outcome)
        ensures
            o == (if self == RecvVerdict::Received { Outcome::Pass } else { Outcome::Fail }),
    {
        match self {
            RecvVerdict::Received => Outcome::Pass,
            _ => Outcome::Fail,
        }
    }
}

/// What two subscribers of one stream received.
#[derive(Clone, Copy, PartialEq, Eq, Debug)]
pub enum FanOutVerdict {
    /// Both received rows.
    FanOut,
    /// Only the first received rows (single-consumer channel).
    FirstOnly,
    /// Only the second received rows.
    SecondOnly,
    NoOutput,
}

pub fn fan_out_verdict(count_a: u64, count_b: u64) -> (r: FanOutVerdict)
    ensures
        count_a > 0 && count_b > 0 ==> r == FanOutVerdict::FanOut,
        count_a > 0 && count_b == 0 ==> r == FanOutVerdict::FirstOnly,
        count_a == 0 && count_b > 0 ==> r == FanOutVerdict::SecondOnly,
        count_a == 0 && count_b == 0 ==> r == FanOutVerdict::NoOutput,
{
    if count_a > 0 && count_b > 0 {
        FanOutVerdict::FanOut
    } else if count_a > 0 {
        FanOutVerdict::FirstOnly
    } else if count_b > 0 {
        FanOutVerdict::SecondOnly
    } else {
        FanOutVerdict::NoOutput
    }
}

impl FanOutVerdict {
    /// Either delivery model passes; only silence fails.
    pub fn outcome(self) -> (o: Outcome)
        ensures
            o == (if self == FanOutVerdict::NoOutput { Outcome::Fail } else { Outcome::Pass }),
    {
        match self {
            FanOutVerdict::NoOutput => Outcome::Fail,
            _ => Outcome::Pass,
        }
    }
}

} // verus!
