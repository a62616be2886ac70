use vstd::prelude::*;

verus! {

/// Control policies the thermostat can follow.
///
/// A mode is immutable once constructed; configuration changes replace it
/// wholesale. Its only role is to select which threshold clauses the
/// control algorithm consults when a new temperature arrives.
#[derive(Debug, Copy, Clone, PartialEq, Eq, Structural)]
pub enum OperatingMode {
    /// Maintain temperature between the minimum and maximum set points.
    MaintainRange,
    /// Maintain temperature below the maximum set point; never heat on a
    /// low set-point breach.
    CoolToSetPoint,
    /// Maintain temperature above the minimum set point; never cool on a
    /// high set-point breach.
    HeatToSetPoint,
    /// Act only on the minimum and maximum safety bounds.
    Disabled,
    /// Override the hardware-protection safety bounds as well.
    DisabledUnsafe,
}

impl OperatingMode {
    /// The characters of the mode's display label.
    pub open spec fn spec_label(self) -> Seq<char> {
        match self {
            OperatingMode::MaintainRange => "Maintain Range"@,
            OperatingMode::CoolToSetPoint => "Cool to Set Point"@,
            OperatingMode::HeatToSetPoint => "Heat to Set Point"@,
            OperatingMode::Disabled => "Disabled"@,
            OperatingMode::DisabledUnsafe => "Disabled (Unsafe)"@,
        }
    }

    /// Human-readable name of the mode.
    pub fn label(&self) -> (s: &'static str)
        ensures
            s@ == self.spec_label(),
    {
        match self {
            OperatingMode::MaintainRange => "Maintain Range",
            OperatingMode::CoolToSetPoint => "Cool to Set Point",
            OperatingMode::HeatToSetPoint => "Heat to Set Point",
            OperatingMode::Disabled => "Disabled",
            OperatingMode::DisabledUnsafe => "Disabled (Unsafe)",
        }
    }
}

} // verus!
