//! Putting the four metrics of a bus together.

use vstd::prelude::*;
use crate::loudness::InputLoudness;

verus! {

/// One of the four metrics of a bus.
#[derive(Clone, Copy, Debug, PartialEq, Eq, Structural)]
pub enum Metric {
    Momentary,
    ShortTerm,
    Global,
    Range,
}

/// Why a bus could not be measured: its analyzer refused a query.
#[derive(Debug)]
pub struct MeasureError {
    /// The index of the bus.
    pub input: usize,
    /// The metric that was asked for.
    pub metric: Metric,
    pub cause: ebur128::Error,
}

impl Metric {
    /// The words that report a failed query of this metric.
    pub fn failure_message(self) -> (message: &'static str)
        ensures
            message@ == match self {
                Metric::Momentary => "failed to calculate momentary loudness"@,
                Metric::ShortTerm => "failed to calculate short-term loudness"@,
                Metric::Global => "failed to calculate global loudness"@,
                Metric::Range => "failed to calculate loudness range"@,
            },
    {
        match self {
            Metric::Momentary => "failed to calculate momentary loudness",
            Metric::ShortTerm => "failed to calculate short-term loudness",
            Metric::Global => "failed to calculate global loudness",
            Metric::Range => "failed to calculate loudness range",
        }
    }
}

/// The tuple of a bus from the answers to the four queries: the four numbers
/// where every query was answered, and else the first refusal, in the order
/// momentary, short-term, global, range.
pub open spec fn assembled(
    input: usize,
    momentary: Result<u64, ebur128::Error>,
    short_term: Result<u64, ebur128::Error>,
    global: Result<u64, ebur128::Error>,
    range: Result<u64, ebur128::Error>,
) -> Result<InputLoudness, MeasureError> {
    match (momentary, short_term, global, range) {
        (Err(cause), _, _, _) => Err(MeasureError { input, metric: Metric::Momentary, cause }),
        (Ok(_), Err(cause), _, _) => Err(MeasureError { input, metric: Metric::ShortTerm, cause }),
        (Ok(_), Ok(_), Err(cause), _) => Err(MeasureError { input, metric: Metric::Global, cause }),
        (Ok(_), Ok(_), Ok(_), Err(cause)) => Err(
            MeasureError { input, metric: Metric::Range, cause },
        ),
        (Ok(momentary), Ok(short_term), Ok(global), Ok(range)) => Ok(
            InputLoudness { momentary, short_term, global, range },
        ),
    }
}

/// Puts the answers to the four queries of the bus at `input` together.
pub fn assemble(
    input: usize,
    momentary: Result<u64, ebur128::Error>,
    short_term: Result<u64, ebur128::Error>,
    global: Result<u64, ebur128::Error>,
    range: Result<u64, ebur128::Error>,
) -> (measured: Result<InputLoudness, MeasureError>)
    ensures
        measured == assembled(input, momentary, short_term, global, range),
{
    let momentary: u64 = match momentary {
        Ok(bits) => bits,
        Err(cause) => {
            return Err(MeasureError { input, metric: Metric::Momentary, cause });
        },
    };
    let short_term: u64 = match short_term {
        Ok(bits) => bits,
        Err(cause) => {
            return Err(MeasureError { input, metric: Metric::ShortTerm, cause });
        },
    };
    let global: u64 = match global {
        Ok(bits) => bits,
        Err(cause) => {
            return Err(MeasureError { input, metric: Metric::Global, cause });
        },
    };
    let range: u64 = match range {
        Ok(bits) => bits,
        Err(cause) => {
            return Err(MeasureError { input, metric: Metric::Range, cause });
        },
    };
    Ok(InputLoudness { momentary, short_term, global, range })
}

} // verus!
