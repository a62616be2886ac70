//! Decision engine for a single-stage HVAC thermostat.
//!
//! Given a temperature reading, safety bounds, user set points, and an
//! operating mode, the engine decides whether to call for heat, call for
//! cool, run the fan, or turn everything off, and it enforces minimum
//! run-time and minimum off-time constraints on each actuator so that
//! compressor and heater hardware is protected from short-cycling.

mod control;
mod errors;
mod laws;
mod mode;
mod temperature;
mod timing;

pub use control::Outcome;
pub use control::Thermostat;
pub use control::ThermostatInterface;
pub use control::DEFAULT_CURRENT_MILLIDEGREES;
pub use control::DEFAULT_MAXIMUM_SAFE_MILLIDEGREES;
pub use control::DEFAULT_MINIMUM_SAFE_MILLIDEGREES;
pub use errors::Error;
pub use laws::effective_high_threshold;
pub use laws::effective_low_threshold;
pub use laws::lemma_between_thresholds_selects_off;
pub use laws::lemma_low_safety_bound_forces_heat;
pub use laws::lemma_start_guard_exact;
pub use laws::lemma_start_idempotent_when_on;
pub use laws::lemma_stop_guard_exact;
pub use mode::OperatingMode;
pub use temperature::Temperature;
pub use timing::start_evolution;
pub use timing::stop_evolution;
pub use timing::ActuatorTimer;
pub use timing::GuardDecision;
