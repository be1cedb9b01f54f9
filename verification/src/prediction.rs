//! Prediction markets opened on project milestones.

use vstd::prelude::*;

verus! {

/// State of a prediction market.
#[derive(Debug, Clone, Copy, PartialEq, Eq, Structural)]
pub enum PredictionStatus {
    Active,
    Upcoming,
    Completed,
    Cancelled,
}

/// The small integer under which a value is stored.
pub open spec fn prediction_status_code(v: PredictionStatus) -> i16 {
    match v {
        PredictionStatus::Active => 0,
        PredictionStatus::Upcoming => 1,
        PredictionStatus::Completed => 2,
        PredictionStatus::Cancelled => 3,
    }
}

/// The value stored under a code, if the code is one of `0..=3`.
pub open spec fn prediction_status_of_code(code: i16) -> Option<PredictionStatus> {
    if code == 0 {
        Some(PredictionStatus::Active)
    } else if code == 1 {
        Some(PredictionStatus::Upcoming)
    } else if code == 2 {
        Some(PredictionStatus::Completed)
    } else if code == 3 {
        Some(PredictionStatus::Cancelled)
    } else {
        None
    }
}

impl From<PredictionStatus> for i16 {
    fn from(value: PredictionStatus) -> (code: i16) {
        match value {
            PredictionStatus::Active => 0,
            PredictionStatus::Upcoming => 1,
            PredictionStatus::Completed => 2,
            PredictionStatus::Cancelled => 3,
        }
    }
}

impl vstd::std_specs::convert::FromSpecImpl<PredictionStatus> for i16 {
    open spec fn obeys_from_spec() -> bool {
        true
    }

    open spec fn from_spec(v: PredictionStatus) -> i16 {
        prediction_status_code(v)
    }
}

impl PredictionStatus {
    /// Reads a value back from its stored code; other codes are refused with a message
    /// naming the type.
    pub fn try_from(value: i16) -> (r: Result<Self, String>)
        ensures
            prediction_status_of_code(value) matches Some(v) ==> r == Ok::<Self, String>(v),
            prediction_status_of_code(value) is None ==> (r matches Err(e) && e@ == "Invalid value for PredictionStatus"@),
    {
        match value {
            0 => Ok(Self::Active),
            1 => Ok(Self::Upcoming),
            2 => Ok(Self::Completed),
            3 => Ok(Self::Cancelled),
            _ => Err(String::from_str("Invalid value for PredictionStatus")),
        }
    }
}

/// A value read back from its stored code is the value that was stored, and every code
/// in `0..=3` is the code of the value read from it.
pub proof fn lemma_prediction_status_codes(v: PredictionStatus, code: i16)
    ensures
        prediction_status_of_code(prediction_status_code(v)) == Some(v),
        0 <= prediction_status_code(v) <= 3,
        prediction_status_of_code(code) matches Some(w) ==> prediction_status_code(w) == code,
        prediction_status_of_code(code) is Some <==> 0 <= code <= 3,
{
}

} // verus!
