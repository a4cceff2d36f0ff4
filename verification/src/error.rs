//! Reasons for which a ranging cycle ends without a reading.

use vstd::prelude::*;

verus! {

/// Why a ranging cycle produced no reading.
///
/// None of these is retried by the driver: each ends the cycle, and the
/// caller decides whether to start another.
#[derive(Clone, Copy, Debug, PartialEq, Eq, Structural)]
pub enum MeasureError {
    /// The echo line already read high when the cycle started, so no pulse
    /// was sent.
    PreconditionViolation,
    /// The echo line did not go high within its time budget.
    RiseTimeout,
    /// The echo line went high but did not go low again within its time
    /// budget.
    FallTimeout,
}

impl MeasureError {
    /// The text that describes this failure.
    pub open spec fn text(self) -> Seq<char> {
        match self {
            MeasureError::PreconditionViolation => "Echo pin is already high"@,
            MeasureError::RiseTimeout => "Timeout waiting for echo pin to go high"@,
            MeasureError::FallTimeout => "Timeout waiting for echo pin to go low"@,
        }
    }

    /// Returns the text that describes this failure.
    pub fn message(&self) -> (s: &'static str)
        ensures
            s@ == self.text(),
    {
        match self {
            MeasureError::PreconditionViolation => "Echo pin is already high",
            MeasureError::RiseTimeout => "Timeout waiting for echo pin to go high",
            MeasureError::FallTimeout => "Timeout waiting for echo pin to go low",
        }
    }

    /// Different failures are described by different texts.
    pub proof fn lemma_texts_are_distinct(a: MeasureError, b: MeasureError)
        requires
            a != b,
        ensures
            a.text() != b.text(),
    {
        reveal_strlit("Echo pin is already high");
        reveal_strlit("Timeout waiting for echo pin to go high");
        reveal_strlit("Timeout waiting for echo pin to go low");
        assert(MeasureError::PreconditionViolation.text().len() == 24);
        assert(MeasureError::RiseTimeout.text().len() == 39);
        assert(MeasureError::FallTimeout.text().len() == 38);
    }
}

} // verus!
