//! The threshold decision sink.

use crate::decision::AlarmError;
use crate::decision::DataSink;
use crate::decision::SinkDecision;
use crate::timefmt::dec_seq;
use crate::timefmt::dec_string;
use vstd::prelude::*;

verus! {

/// A decision sink that compares a numeric sample against a configured
/// level: a sample at or above the level is a bad verdict, anything below
/// is good. It never produces a classification error.
pub struct Level {
    pub level: u8,
}

impl Level {
    pub fn new(level: u8) -> (r: Level)
        ensures
            r.level == level,
    {
        Level { level }
    }
}

impl DataSink for Level {
    type Item = u8;

    open spec fn classify(&self, data: &u8) -> Result<SinkDecision, AlarmError> {
        if *data >= self.level {
            Ok(SinkDecision::Bad)
        } else {
            Ok(SinkDecision::Good)
        }
    }

    open spec fn formatted(data: &u8) -> Seq<char> {
        dec_seq(*data as nat)
    }

    fn put_data(&mut self, data: &u8) -> (r: Result<SinkDecision, AlarmError>) {
        if *data >= self.level {
            Ok(SinkDecision::Bad)
        } else {
            Ok(SinkDecision::Good)
        }
    }

    fn format_data(data: &u8) -> (r: String) {
        dec_string(*data as u64)
    }
}

} // verus!

