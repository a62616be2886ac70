use vstd::prelude::*;

verus! {

/// Thermostat errors.
///
/// `HandlerFailed` and `MeasurementFailed` are hard failures raised by the
/// embedding caller's interface or measurement source and are propagated
/// unchanged. The per-actuator constraint variants are soft failures: the
/// requested transition was denied because the actuator has not yet met a
/// timing bound, no state changed, and the caller may retry the same
/// outcome on a later tick. The maximum-run-time variants are declared for
/// forward compatibility; no code path raises them.
#[derive(Debug, Copy, Clone, PartialEq, Eq, Structural)]
pub enum Error {
    /// An interface call-for or stop-call-for operation failed; raised by
    /// the embedding caller's handler implementation.
    HandlerFailed,
    /// An external measurement source failed; raised by the embedding
    /// caller's measurement implementation.
    MeasurementFailed,
    /// Heating has met the maximum run time.
    HeatMaxRunTimeConstraint,
    /// Heating has not yet met the minimum run time.
    HeatMinRunTimeConstraint,
    /// Heating has not yet met the minimum off time between cycles.
    HeatMinOffTimeConstraint,
    /// Cooling has met the maximum run time.
    CoolMaxRunTimeConstraint,
    /// Cooling has not yet met the minimum run time.
    CoolMinRunTimeConstraint,
    /// Cooling has not yet met the minimum off time between cycles.
    CoolMinOffTimeConstraint,
    /// The fan has met the maximum run time.
    FanMaxRunTimeConstraint,
    /// The fan has not yet met the minimum run time.
    FanMinRunTimeConstraint,
    /// The fan has not yet met the minimum off time between cycles.
    FanMinOffTimeConstraint,
}

impl Error {
    /// The characters of the error's display message: a fixed prefix
    /// naming the component, then the variant's label.
    pub open spec fn spec_message(self) -> Seq<char> {
        match self {
            Error::HandlerFailed => "Thermostat Error: handler failed"@,
            Error::MeasurementFailed => "Thermostat Error: measurement failed"@,
            Error::HeatMaxRunTimeConstraint => "Thermostat Error: heat has reached maximum run time"@,
            Error::HeatMinRunTimeConstraint => "Thermostat Error: heat has not yet reached minimum run time"@,
            Error::HeatMinOffTimeConstraint => "Thermostat Error: heat has not yet reached minimum off time"@,
            Error::CoolMaxRunTimeConstraint => "Thermostat Error: cool has reached maximum run time"@,
            Error::CoolMinRunTimeConstraint => "Thermostat Error: cool has not yet reached minimum run time"@,
            Error::CoolMinOffTimeConstraint => "Thermostat Error: cool has not yet reached minimum off time"@,
            Error::FanMaxRunTimeConstraint => "Thermostat Error: fan has reached maximum run time"@,
            Error::FanMinRunTimeConstraint => "Thermostat Error: fan has not yet reached minimum run time"@,
            Error::FanMinOffTimeConstraint => "Thermostat Error: fan has not yet reached minimum off time"@,
        }
    }

    /// Human-readable description of the error.
    pub fn message(&self) -> (s: &'static str)
        ensures
            s@ == self.spec_message(),
    {
        match self {
            Error::HandlerFailed => "Thermostat Error: handler failed",
            Error::MeasurementFailed => "Thermostat Error: measurement failed",
            Error::HeatMaxRunTimeConstraint => "Thermostat Error: heat has reached maximum run time",
            Error::HeatMinRunTimeConstraint => "Thermostat Error: heat has not yet reached minimum run time",
            Error::HeatMinOffTimeConstraint => "Thermostat Error: heat has not yet reached minimum off time",
            Error::CoolMaxRunTimeConstraint => "Thermostat Error: cool has reached maximum run time",
            Error::CoolMinRunTimeConstraint => "Thermostat Error: cool has not yet reached minimum run time",
            Error::CoolMinOffTimeConstraint => "Thermostat Error: cool has not yet reached minimum off time",
            Error::FanMaxRunTimeConstraint => "Thermostat Error: fan has reached maximum run time",
            Error::FanMinRunTimeConstraint => "Thermostat Error: fan has not yet reached minimum run time",
            Error::FanMinOffTimeConstraint => "Thermostat Error: fan has not yet reached minimum off time",
        }
    }
}

} // verus!
