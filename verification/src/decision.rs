//! Verdicts, classification errors, and the pluggable decision interface.

use vstd::prelude::*;

verus! {

/// The binary verdict a decision sink gives for one raw sample, before
/// hysteresis is applied.
#[derive(Clone, Copy, PartialEq, Eq, Structural, Debug)]
pub enum SinkDecision {
    Good,
    Bad,
}

impl SinkDecision {
    /// The opposite verdict, used to honour an alarm's `invert` option.
    pub open spec fn flipped(self) -> SinkDecision {
        match self {
            SinkDecision::Good => SinkDecision::Bad,
            SinkDecision::Bad => SinkDecision::Good,
        }
    }

    /// Swaps `Good` and `Bad`.
    pub fn flip(self) -> (r: SinkDecision)
        ensures
            r == self.flipped(),
    {
        match self {
            SinkDecision::Good => SinkDecision::Bad,
            SinkDecision::Bad => SinkDecision::Good,
        }
    }
}

/// Errors surfaced by the alarm core.
#[derive(Clone, PartialEq, Eq, Debug)]
pub enum AlarmError {
    /// A threshold that must be at least one was zero at construction.
    InvalidConfig,
    /// A decision sink could not classify a sample.
    SinkFailure(String),
}

/// A pluggable classifier that turns one raw sample into a verdict.
///
/// Implementations are deterministic: `classify` names the exact result
/// `put_data` must return, and `put_data` may not change the sink. Hysteresis
/// lives in the alarm engine, never in the sink.
pub trait DataSink: Sized {
    type Item;

    /// The verdict (or classification error) this sink gives for `data`.
    spec fn classify(&self, data: &Self::Item) -> Result<SinkDecision, AlarmError>;

    /// The diagnostic rendering of `data`.
    spec fn formatted(data: &Self::Item) -> Seq<char>;

    fn put_data(&mut self, data: &Self::Item) -> (r: Result<SinkDecision, AlarmError>)
        ensures
            *final(self) == *old(self),
            r == old(self).classify(data),
    ;

    fn format_data(data: &Self::Item) -> (r: String)
        ensures
            r@ == Self::formatted(data),
    ;
}

} // verus!
