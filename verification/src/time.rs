use vstd::prelude::*;
use crate::scalar::Scalar;

verus! {

/// The exposure window `[start, end)`.
#[derive(Clone, Copy, Debug, PartialEq, Eq, Structural)]
pub struct Time {
    pub start: Scalar,
    pub end: Scalar,
}

impl Time {
    /// The window from `start` to `end`.
    pub fn new(start: Scalar, end: Scalar) -> (t: Time)
        ensures
            t.start == start,
            t.end == end,
    {
        Time { start, end }
    }

    /// The window that opens at zero and closes at `exposure`.
    pub fn from_exposure(exposure: Scalar) -> (t: Time)
        ensures
            t.start.bits == 0,
            t.end == exposure,
    {
        Time { start: Scalar::zero(), end: exposure }
    }
}

} // verus!
