//! Level classification: reduce a sample buffer to a loudness class
//! relative to a gate's two thresholds.

use vstd::prelude::*;

verus! {

/// How loud the loudest sample of a buffer is, relative to a gate's
/// thresholds. The close threshold never exceeds the open threshold.
#[derive(Clone, Copy, Debug, PartialEq, Eq, Structural)]
pub enum SampleLevel {
    /// Below both the close threshold and the open threshold.
    Silent,
    /// At or above the close threshold, but below the open threshold.
    AboveCloseThreshold,
    /// At or above the open threshold.
    AboveOpenThreshold,
}

/// The absolute value of a sample, as a mathematical integer.
pub open spec fn abs_val(s: i32) -> int {
    if s < 0 {
        -(s as int)
    } else {
        s as int
    }
}

/// The largest absolute sample value in a buffer; 0 for an empty buffer.
pub open spec fn max_abs(s: Seq<i32>) -> int
    decreases s.len(),
{
    if s.len() == 0 {
        0
    } else {
        let rest = max_abs(s.drop_last());
        if abs_val(s.last()) > rest {
            abs_val(s.last())
        } else {
            rest
        }
    }
}

/// The classification of a buffer whose largest absolute sample value is `m`.
pub open spec fn spec_level(m: int, close_threshold: int, open_threshold: int) -> SampleLevel {
    if m >= open_threshold {
        SampleLevel::AboveOpenThreshold
    } else if m >= close_threshold {
        SampleLevel::AboveCloseThreshold
    } else {
        SampleLevel::Silent
    }
}

impl SampleLevel {
    /// The diagnostic label for this level, for the host's logging sink.
    pub fn label(&self) -> (r: &'static str)
        ensures
            *self is AboveOpenThreshold ==> r@ == "Open"@,
            *self is AboveCloseThreshold ==> r@ == "Close"@,
            *self is Silent ==> r@ == "Silent"@,
    {
        match self {
            SampleLevel::AboveOpenThreshold => "Open",
            SampleLevel::AboveCloseThreshold => "Close",
            SampleLevel::Silent => "Silent",
        }
    }
}

} // verus!
