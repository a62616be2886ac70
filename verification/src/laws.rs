use vstd::prelude::*;

use crate::control::Outcome;
use crate::control::Thermostat;
use crate::control::ThermostatInterface;
use crate::mode::OperatingMode;
use crate::temperature::Temperature;
use crate::timing::ActuatorTimer;
use crate::timing::GuardDecision;

verus! {

/// The lowest reading that triggers no heat clause under the current
/// mode: the larger of the applicable low bounds. `DisabledUnsafe`
/// suppresses the safe bound and `CoolToSetPoint` the set point; every
/// mode leaves at least one low bound applicable.
pub open spec fn effective_low_threshold<'a, I: ThermostatInterface>(
    s: Thermostat<'a, I>,
) -> int {
    if s.operating_mode == OperatingMode::DisabledUnsafe {
        s.minimum_set_temperature.millidegrees as int
    } else if s.operating_mode == OperatingMode::CoolToSetPoint {
        s.minimum_safe_temperature.millidegrees as int
    } else if s.minimum_safe_temperature.millidegrees >= s.minimum_set_temperature.millidegrees {
        s.minimum_safe_temperature.millidegrees as int
    } else {
        s.minimum_set_temperature.millidegrees as int
    }
}

/// The highest reading that triggers no cool clause under the current
/// mode: the smaller of the applicable high bounds. `DisabledUnsafe`
/// suppresses the safe bound and `HeatToSetPoint` the set point.
pub open spec fn effective_high_threshold<'a, I: ThermostatInterface>(
    s: Thermostat<'a, I>,
) -> int {
    if s.operating_mode == OperatingMode::DisabledUnsafe {
        s.maximum_set_temperature.millidegrees as int
    } else if s.operating_mode == OperatingMode::HeatToSetPoint {
        s.maximum_safe_temperature.millidegrees as int
    } else if s.maximum_safe_temperature.millidegrees <= s.maximum_set_temperature.millidegrees {
        s.maximum_safe_temperature.millidegrees as int
    } else {
        s.maximum_set_temperature.millidegrees as int
    }
}

/// In every mode but `DisabledUnsafe`, a reading below the minimum safe
/// temperature selects the heat outcome: the hardware-protection clause
/// wins before any cool or off outcome can be reached.
pub proof fn lemma_low_safety_bound_forces_heat<'a, I: ThermostatInterface>(
    s: Thermostat<'a, I>,
    t: Temperature,
)
    requires
        t.millidegrees < s.minimum_safe_temperature.millidegrees,
        s.operating_mode != OperatingMode::DisabledUnsafe,
    ensures
        s.selected_outcome(t) == Outcome::Heat,
{
}

/// A reading strictly between the effective low and high thresholds for
/// the current mode selects the off outcome, whose sequence stops cool,
/// heat and fan in turn.
pub proof fn lemma_between_thresholds_selects_off<'a, I: ThermostatInterface>(
    s: Thermostat<'a, I>,
    t: Temperature,
)
    requires
        effective_low_threshold(s) < t.millidegrees < effective_high_threshold(s),
    ensures
        s.selected_outcome(t) == Outcome::Off,
{
}

/// Starting an actuator that the interface already reports on is
/// permitted unconditionally and records nothing, so a second start
/// request with no interface state change in between decides the same
/// way: both succeed and neither writes a timestamp.
pub proof fn lemma_start_idempotent_when_on(timer: ActuatorTimer, now_first: u64, now_second: u64)
    ensures
        timer.decided_start(true, now_first) == GuardDecision::NoChange,
        timer.decided_start(true, now_second) == GuardDecision::NoChange,
{
}

/// For an actuator the interface reports on, a stop request at clock
/// reading `now` is denied — with the actuator's minimum-run-time error —
/// exactly while the current run is shorter than `minimum_run_seconds`,
/// and is permitted from the moment that duration is met.
pub proof fn lemma_stop_guard_exact(timer: ActuatorTimer, now: u64)
    ensures
        (timer.decided_stop(true, now) == GuardDecision::Denied) <==> timer.run_elapsed(now)
            < timer.minimum_run_seconds,
        timer.run_elapsed(now) >= timer.minimum_run_seconds ==> timer.decided_stop(true, now)
            == GuardDecision::Proceed,
{
}

/// For an actuator the interface reports off, a start request at clock
/// reading `now` is denied — with the actuator's minimum-off-time error —
/// exactly while the current rest is shorter than `minimum_off_seconds`,
/// and is permitted from the moment that duration is met. An actuator
/// that never stopped rests since time zero, so its whole clock reading
/// counts as rest.
pub proof fn lemma_start_guard_exact(timer: ActuatorTimer, now: u64)
    ensures
        (timer.decided_start(false, now) == GuardDecision::Denied) <==> timer.off_elapsed(now)
            < timer.minimum_off_seconds,
        timer.off_elapsed(now) >= timer.minimum_off_seconds ==> timer.decided_start(false, now)
            == GuardDecision::Proceed,
        timer.last_stop is None ==> timer.off_elapsed(now) == now,
{
}

} // verus!
