use vstd::prelude::*;

verus! {

/// A temperature in degrees Celsius, held as a whole number of
/// millidegrees.
///
/// The engine's decisions only compare temperatures against one another,
/// so a fixed-point representation carries everything the control
/// algorithm reads; the embedding caller converts its sensor readings to
/// millidegrees before feeding them in.
#[derive(Debug, Copy, Clone, PartialEq, Eq, Structural)]
pub struct Temperature {
    /// Thousandths of a degree Celsius.
    pub millidegrees: i64,
}

impl Temperature {
    /// Builds a temperature from a whole number of millidegrees Celsius.
    pub fn from_millidegrees(millidegrees: i64) -> (t: Temperature)
        ensures
            t.millidegrees == millidegrees,
    {
        Temperature { millidegrees }
    }

    /// Builds a temperature from a whole number of degrees Celsius.
    pub fn from_degrees(degrees: i32) -> (t: Temperature)
        ensures
            t.millidegrees == degrees * 1000,
    {
        Temperature { millidegrees: (degrees as i64) * 1000 }
    }
}

} // verus!
