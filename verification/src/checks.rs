//! Pass/fail decisions of the command-line phase runs, from their counters.

use vstd::prelude::*;

verus! {

/// Result of a stream that a phase tries to create and read.
#[derive(Clone, Copy, PartialEq, Eq, Debug)]
pub enum StreamCheck {
    /// Output arrived.
    Pass,
    /// The stream was created but nothing came out.
    NoOutput,
    /// The stream could not be created.
    NotCreated,
}

/// Output first; otherwise whether the stream was created at all.
pub fn stream_check(received: u64, created: bool) -> (r: StreamCheck)
    ensures
        received > 0 ==> r == StreamCheck::Pass,
        received == 0 && created ==> r == StreamCheck::NoOutput,
        received == 0 && !created ==> r == StreamCheck::NotCreated,
{
    if received > 0 {
        StreamCheck::Pass
    } else if created {
        StreamCheck::NoOutput
    } else {
        StreamCheck::NotCreated
    }
}

/// How the CDC run captured changes.
#[derive(Clone, Copy, PartialEq, Eq, Debug)]
pub enum CdcCapture {
    /// Changes were polled from the replication slot.
    Polling,
    /// The native connector source is in place.
    Native,
    Failed,
}

/// Polling counts as captured once events were polled; the native path
/// once its source was created.
pub fn cdc_capture(polling_mode: bool, events_polled: u64, source_created: bool) -> (r: CdcCapture)
    ensures
        polling_mode && events_polled > 0 ==> r == CdcCapture::Polling,
        !polling_mode && source_created ==> r == CdcCapture::Native,
        !(polling_mode && events_polled > 0) && !(!polling_mode && source_created) ==> r
            == CdcCapture::Failed,
{
    if polling_mode && events_polled > 0 {
        CdcCapture::Polling
    } else if !polling_mode && source_created {
        CdcCapture::Native
    } else {
        CdcCapture::Failed
    }
}

/// Outcome of a feature check.
#[derive(Clone, Copy, PartialEq, Eq, Debug)]
pub enum Outcome {
    Pass,
    Fail,
    Skip,
}

/// Tally of feature-check outcomes.
pub struct Tally {
    pub pass: u64,
    pub fail: u64,
    pub skip: u64,
}

impl Tally {
    pub fn new() -> (r: Self)
        ensures
            r.pass == 0 && r.fail == 0 && r.skip == 0,
    {
        Tally { pass: 0, fail: 0, skip: 0 }
    }

    /// Counts one outcome.
    pub fn record(&mut self, o: Outcome)
        requires
            o == Outcome::Pass ==> old(self).pass < u64::MAX,
            o == Outcome::Fail ==> old(self).fail < u64::MAX,
            o == Outcome::Skip ==> old(self).skip < u64::MAX,
        ensures
            final(self).pass == old(self).pass + if o == Outcome::Pass { 1u64 } else { 0u64 },
            final(self).fail == old(self).fail + if o == Outcome::Fail { 1u64 } else { 0u64 },
            final(self).skip == old(self).skip + if o == Outcome::Skip { 1u64 } else { 0u64 },
    {
        match o {
            Outcome::Pass => self.pass = self.pass + 1,
            Outcome::Fail => self.fail = self.fail + 1,
            Outcome::Skip => self.skip = self.skip + 1,
        }
    }

    /// Number of checks counted.
    pub fn total(&self) -> (n: u64)
        requires
            self.pass + self.fail + self.skip <= u64::MAX,
        ensures
            n == self.pass + self.fail + self.skip,
    {
        self.pass + self.fail + self.skip
    }
}

} // verus!
