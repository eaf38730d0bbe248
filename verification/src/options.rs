//! The settings of one run.

use core::time::Duration;
use vstd::prelude::*;
use crate::unit::Unit;

verus! {

/// The duration that `Duration::from_millis` makes of a number of milliseconds.
pub uninterp spec fn duration_of_millis(millis: u64) -> Duration;

/// `Duration::from_millis` of std: the duration that lasts the given number of
/// milliseconds. A duration is opaque here, so the contract only gives the
/// result its name.
pub assume_specification[ Duration::from_millis ](millis: u64) -> (duration: Duration)
    ensures
        duration == duration_of_millis(millis),
;

/// What the user asks of a run.
#[derive(Debug)]
pub struct Options {
    /// The time allowed to each network exchange, in milliseconds.
    pub timeout: u64,
    /// The unit system of the report.
    pub unit: Unit,
    /// The station whose observation is wanted.
    pub station_id: String,
}

impl Options {
    /// The time allowed to each network exchange.
    pub fn get_timeout(&self) -> (timeout: Duration)
        ensures
            timeout == duration_of_millis(self.timeout),
    {
        Duration::from_millis(self.timeout)
    }
}

} // verus!
