//! The unit system of a report and the selector that names it.

use vstd::prelude::*;
use crate::failure::{Failure, FailureKind, FailureView};

verus! {

/// The unit convention in which an observation is reported.
#[derive(Clone, Copy, Debug, PartialEq, Eq, Structural)]
pub enum Unit {
    Metric,
    English,
}

impl Unit {
    /// The unit that a selector names: `m` names the metric system, `e` the
    /// English one, and no other text names any.
    pub open spec fn named_by(selector: Seq<char>) -> Option<Unit> {
        if selector == seq!['m'] {
            Some(Unit::Metric)
        } else if selector == seq!['e'] {
            Some(Unit::English)
        } else {
            None
        }
    }

    /// The selector of this unit, which is also the code sent to the service.
    pub open spec fn code(self) -> Seq<char> {
        match self {
            Unit::Metric => seq!['m'],
            Unit::English => seq!['e'],
        }
    }

    /// Reads a unit selector. Every text but `m` and `e` is a configuration
    /// failure.
    pub fn from_str(input: &str) -> (parsed: Result<Unit, Failure>)
        ensures
            match parsed {
                Ok(unit) => Self::named_by(input@) == Some(unit),
                Err(failure) => Self::named_by(input@).is_none() && failure@ == (FailureView {
                    kind: FailureKind::Configuration,
                    detail: Seq::<char>::empty(),
                }),
            },
    {
        if input.unicode_len() == 1 {
            let c = input.get_char(0);
            if c == 'm' {
                assert(input@ =~= seq!['m']);
                return Ok(Unit::Metric);
            }
            if c == 'e' {
                assert(input@ =~= seq!['e']);
                return Ok(Unit::English);
            }
        }
        Err(Failure::bare(FailureKind::Configuration))
    }

    /// The selector of this unit.
    pub fn as_str(&self) -> (text: &'static str)
        ensures
            text@ == self.code(),
    {
        match self {
            Unit::Metric => {
                proof {
                    reveal_strlit("m");
                }
                assert("m"@ =~= seq!['m']);
                "m"
            },
            Unit::English => {
                proof {
                    reveal_strlit("e");
                }
                assert("e"@ =~= seq!['e']);
                "e"
            },
        }
    }
}

/// Reading back the selector of a unit gives that unit, and a selector that
/// names a unit is the selector of the unit it names.
pub proof fn lemma_selector_round_trip(unit: Unit, selector: Seq<char>)
    ensures
        Unit::named_by(unit.code()) == Some(unit),
        Unit::named_by(selector) == Some(unit) <==> selector == unit.code(),
{
    assert(seq!['m'][0] == 'm');
    assert(seq!['e'][0] == 'e');
    assert(seq!['m'] != seq!['e']);
}

} // verus!
