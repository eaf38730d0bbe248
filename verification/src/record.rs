//! Observation records: a decoded response of the service under the unit system
//! that was asked for.

use std::convert::TryFrom;
use vstd::prelude::*;
use weather_underground::ObservationResponse;
use crate::failure::{Failure, FailureKind};
use crate::unit::Unit;

verus! {

#[verifier::external_type_specification]
#[verifier::external_body]
pub struct ExObservationResponse(ObservationResponse);

#[verifier::external_type_specification]
#[verifier::external_body]
pub struct ExJsonError(serde_json::Error);

/// The unit blocks that one observation carries.
#[derive(Clone, Copy, Debug, PartialEq, Eq, Structural)]
pub struct Reading {
    /// The observation has a block of metric values.
    pub metric: bool,
    /// The observation has a block of imperial values.
    pub imperial: bool,
}

impl Reading {
    /// The observation carries no values of the unit system that was not asked
    /// for.
    pub open spec fn fits(self, unit: Unit) -> bool {
        match unit {
            Unit::Metric => !self.imperial,
            Unit::English => !self.metric,
        }
    }
}

/// Every one of the readings fits the unit.
pub open spec fn all_fit(readings: Seq<Reading>, unit: Unit) -> bool {
    forall|i: int| 0 <= i < readings.len() ==> (#[trigger] readings[i]).fits(unit)
}

/// The response that `ObservationResponse::try_from` makes of the JSON value
/// that a payload spells, and `None` where the payload spells no JSON value or
/// the value has not the shape of a response.
pub uninterp spec fn decoded(payload: Seq<char>) -> Option<ObservationResponse>;

/// The observations that a response holds, in their order, each by the unit
/// blocks it carries; empty where the response holds no list of observations.
pub uninterp spec fn response_readings(response: ObservationResponse) -> Seq<Reading>;

/// The JSON text that `ObservationResponse::to_json` gives for a response, and
/// `None` where it gives an error.
pub uninterp spec fn response_json(response: ObservationResponse) -> Option<Seq<char>>;

/// `ObservationResponse::try_from` of weather_underground, on the JSON value
/// that `serde_json::from_str` reads from the payload. The contract names the
/// response, and says that an error comes exactly where there is none.
#[verifier::external_body]
fn decode(payload: &str) -> (outcome: Result<ObservationResponse, serde_json::Error>)
    ensures
        match outcome {
            Ok(response) => decoded(payload@) == Some(response),
            Err(_) => decoded(payload@).is_none(),
        },
{
    let value: serde_json::Value = serde_json::from_str(payload)?;
    ObservationResponse::try_from(value)
}

/// `ObservationResponse::to_json` of weather_underground, which serialises the
/// observations of the response. The contract names the text, and says that an
/// error comes exactly where there is none.
#[verifier::external_body]
fn encode(response: &ObservationResponse) -> (outcome: Result<String, serde_json::Error>)
    ensures
        match outcome {
            Ok(text) => response_json(*response) == Some(text@),
            Err(_) => response_json(*response).is_none(),
        },
{
    response.to_json()
}

/// Hands out the observations of a response, each reduced to the presence of
/// its `metric` and `imperial` fields. The contract says that these are the
/// readings of the response.
#[verifier::external_body]
fn readings_of(response: &ObservationResponse) -> (readings: Vec<Reading>)
    ensures
        readings@ == response_readings(*response),
{
    match &response.observations {
        Some(list) => list.iter().map(|observation| Reading {
            metric: observation.metric.is_some(),
            imperial: observation.imperial.is_some(),
        }).collect(),
        None => Vec::new(),
    }
}

/// The `Debug` text of a `serde_json::Error`. Nothing is claimed of it.
#[verifier::external_body]
fn explain(error: &serde_json::Error) -> (text: String) {
    format!("{:?}", error)
}

/// What a record is to its users.
pub struct RecordView {
    /// The unit system that the record is labelled with.
    pub unit: Unit,
    /// Its observations, by the unit blocks they carry.
    pub readings: Seq<Reading>,
    /// The JSON text that the record renders as, if it can be rendered.
    pub json: Option<Seq<char>>,
}

impl RecordView {
    /// No observation of the record carries values of another unit system than
    /// the one the record is labelled with.
    pub open spec fn wf(self) -> bool {
        all_fit(self.readings, self.unit)
    }

    /// What a response is under a unit.
    pub open spec fn of(response: ObservationResponse, unit: Unit) -> RecordView {
        RecordView {
            unit,
            readings: response_readings(response),
            json: response_json(response),
        }
    }
}

/// The record that a payload converts to under a unit: the response that the
/// payload decodes to, provided that none of its observations carries values of
/// the other unit system.
pub open spec fn conversion(payload: Seq<char>, unit: Unit) -> Option<RecordView> {
    match decoded(payload) {
        Some(response) => if all_fit(response_readings(response), unit) {
            Some(RecordView::of(response, unit))
        } else {
            None
        },
        None => None,
    }
}

/// The detail of the failure that rejects a payload for its units.
pub open spec fn foreign_units_detail() -> Seq<char> {
    "observation carries values of another unit system"@
}

/// How rendering a payload under a unit ends: with the JSON text of the record
/// it converts to, or with the kind of the failure.
pub open spec fn rendering(payload: Seq<char>, unit: Unit) -> Result<Seq<char>, FailureKind> {
    match conversion(payload, unit) {
        Some(record) => match record.json {
            Some(text) => Ok(text),
            None => Err(FailureKind::SerializationFailed),
        },
        None => Err(FailureKind::ConversionFailed),
    }
}

/// A decoded observation response, labelled with the unit system that was
/// requested of the service.
#[derive(Debug)]
pub struct ObservationRecord {
    unit: Unit,
    response: ObservationResponse,
}

impl View for ObservationRecord {
    type V = RecordView;

    closed spec fn view(&self) -> RecordView {
        RecordView::of(self.response, self.unit)
    }
}

/// Tells whether every reading fits the unit.
fn units_fit(readings: &Vec<Reading>, unit: Unit) -> (ok: bool)
    ensures
        ok == all_fit(readings@, unit),
{
    let mut i: usize = 0;
    while i < readings.len()
        invariant
            i <= readings.len(),
            forall|j: int| 0 <= j < i ==> (#[trigger] readings@[j]).fits(unit),
        decreases readings.len() - i,
    {
        let reading = readings[i];
        let fits = match unit {
            Unit::Metric => !reading.imperial,
            Unit::English => !reading.metric,
        };
        if !fits {
            return false;
        }
        i += 1;
    }
    true
}

impl ObservationRecord {
    /// Converts the payload of the service into a record under `unit`. A
    /// payload that does not decode, or that holds an observation with values
    /// of the other unit system, is a conversion failure, and no record is
    /// made of it.
    pub fn convert(payload: &str, unit: Unit) -> (converted: Result<ObservationRecord, Failure>)
        ensures
            match converted {
                Ok(record) => conversion(payload@, unit) == Some(record@)
                    && record@.unit == unit
                    && record@.wf(),
                Err(failure) => conversion(payload@, unit).is_none()
                    && failure@.kind == FailureKind::ConversionFailed
                    && (decoded(payload@).is_some() ==> failure@.detail == foreign_units_detail()),
            },
    {
        match decode(payload) {
            Ok(response) => {
                let readings = readings_of(&response);
                if units_fit(&readings, unit) {
                    Ok(ObservationRecord { unit, response })
                } else {
                    Err(Failure::with_detail(
                        FailureKind::ConversionFailed,
                        "observation carries values of another unit system",
                    ))
                }
            },
            Err(error) => Err(Failure {
                kind: FailureKind::ConversionFailed,
                detail: explain(&error),
            }),
        }
    }

    /// The unit system that the record is labelled with.
    pub fn unit(&self) -> (unit: Unit)
        ensures
            unit == self@.unit,
    {
        self.unit
    }

    /// The unit blocks of the record's observations, in their order.
    pub fn readings(&self) -> (readings: Vec<Reading>)
        ensures
            readings@ == self@.readings,
    {
        readings_of(&self.response)
    }

    /// Renders the record as JSON text.
    pub fn to_json(&self) -> (rendered: Result<String, Failure>)
        ensures
            match rendered {
                Ok(text) => self@.json == Some(text@),
                Err(failure) => self@.json.is_none()
                    && failure@.kind == FailureKind::SerializationFailed,
            },
    {
        match encode(&self.response) {
            Ok(text) => Ok(text),
            Err(error) => Err(Failure {
                kind: FailureKind::SerializationFailed,
                detail: explain(&error),
            }),
        }
    }
}

/// Converts a payload under `unit` and renders the record as JSON text.
pub fn render(payload: &str, unit: Unit) -> (rendered: Result<String, Failure>)
    ensures
        match rendered {
            Ok(text) => rendering(payload@, unit) == Ok::<Seq<char>, FailureKind>(text@),
            Err(failure) => rendering(payload@, unit) == Err::<Seq<char>, FailureKind>(failure@.kind),
        },
{
    match ObservationRecord::convert(payload, unit) {
        Ok(record) => record.to_json(),
        Err(failure) => Err(failure),
    }
}

/// A record is labelled with the unit it was converted under, and none of its
/// observations carries values of the other unit system.
pub proof fn lemma_conversion_keeps_to_unit(payload: Seq<char>, unit: Unit)
    ensures
        conversion(payload, unit) matches Some(record) ==> record.unit == unit && record.wf()
            && forall|i: int| 0 <= i < record.readings.len() ==> !(record.readings[i].metric
                && record.readings[i].imperial),
{
}

} // verus!
