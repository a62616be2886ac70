use vstd::prelude::*;

use crate::errors::Error;
use crate::mode::OperatingMode;
use crate::temperature::Temperature;
use crate::timing::start_evolution;
use crate::timing::stop_evolution;
use crate::timing::ActuatorTimer;
use crate::timing::GuardDecision;

verus! {

/// Boundary to the physical actuators and the clock.
///
/// The embedding caller implements this trait over its relays, GPIO lines
/// or simulation; the engine queries commanded state, issues on and off
/// commands, and reads elapsed seconds through it. Each operation may
/// fail with a hardware error of the implementation's choosing, and the
/// engine promises nothing about the values an implementation returns:
/// every contract in this crate holds whatever the interface answers.
pub trait ThermostatInterface {
    /// Whether the system is currently calling for heat.
    fn calling_for_heat(&self) -> Result<bool, Error>;

    /// Commands the heating actuator on.
    fn call_for_heat(&self) -> Result<(), Error>;

    /// Commands the heating actuator off.
    fn stop_call_for_heat(&self) -> Result<(), Error>;

    /// Whether the system is currently calling for cool.
    fn calling_for_cool(&self) -> Result<bool, Error>;

    /// Commands the cooling actuator on.
    fn call_for_cool(&self) -> Result<(), Error>;

    /// Commands the cooling actuator off.
    fn stop_call_for_cool(&self) -> Result<(), Error>;

    /// Whether the system is currently calling for the fan.
    fn calling_for_fan(&self) -> Result<bool, Error>;

    /// Commands the fan on.
    fn call_for_fan(&self) -> Result<(), Error>;

    /// Commands the fan off.
    fn stop_call_for_fan(&self) -> Result<(), Error>;

    /// Seconds elapsed since a fixed epoch, monotonic non-decreasing for
    /// the lifetime of the process.
    fn get_seconds(&self) -> Result<u64, Error>;
}

/// Default lower hardware-protection bound, in millidegrees Celsius.
pub const DEFAULT_MINIMUM_SAFE_MILLIDEGREES: i64 = 15000;

/// Default upper hardware-protection bound, in millidegrees Celsius.
pub const DEFAULT_MAXIMUM_SAFE_MILLIDEGREES: i64 = 30000;

/// The reading assumed before the caller feeds one: the midpoint of the
/// default safe range.
pub const DEFAULT_CURRENT_MILLIDEGREES: i64 = 22500;

/// The single outcome the control algorithm selects for one reading.
#[derive(Debug, Copy, Clone, PartialEq, Eq, Structural)]
pub enum Outcome {
    /// Stop cool, then start the fan and the heater.
    Heat,
    /// Stop heat, then start the fan and the cooler.
    Cool,
    /// Circulate air only. No threshold selects this outcome; it is
    /// retained for completeness and extension.
    Fan,
    /// Stop cool, heat and fan in turn.
    Off,
}

/// The thermostat decision engine: configuration, the latest reading, and
/// per-actuator timing bookkeeping, joined to the caller's interface.
///
/// One instance is created per controlled system and mutated in place
/// through its own operations; the embedding caller owns it exclusively.
pub struct Thermostat<'a, I: ThermostatInterface> {
    /// The control policy in force.
    pub operating_mode: OperatingMode,
    /// Absolute hardware-protection lower bound.
    pub minimum_safe_temperature: Temperature,
    /// Absolute hardware-protection upper bound.
    pub maximum_safe_temperature: Temperature,
    /// User-facing comfort lower bound.
    pub minimum_set_temperature: Temperature,
    /// User-facing comfort upper bound.
    pub maximum_set_temperature: Temperature,
    /// The reading most recently fed in by the caller.
    pub current_temperature: Temperature,
    /// Timing bookkeeping for the heating actuator.
    pub heat_timer: ActuatorTimer,
    /// Timing bookkeeping for the cooling actuator.
    pub cool_timer: ActuatorTimer,
    /// Timing bookkeeping for the fan.
    pub fan_timer: ActuatorTimer,
    /// The caller's actuator and clock boundary.
    pub interface: &'a I,
}

impl<'a, I: ThermostatInterface> Thermostat<'a, I> {
    /// The fields actuator sequencing never touches: configuration, the
    /// stored reading, and the interface binding.
    pub open spec fn same_settings(self, other: Self) -> bool {
        &&& other.operating_mode == self.operating_mode
        &&& other.minimum_safe_temperature == self.minimum_safe_temperature
        &&& other.maximum_safe_temperature == self.maximum_safe_temperature
        &&& other.minimum_set_temperature == self.minimum_set_temperature
        &&& other.maximum_set_temperature == self.maximum_set_temperature
        &&& other.current_temperature == self.current_temperature
        &&& other.interface == self.interface
    }

    /// The outcome the control algorithm selects for the reading `t`
    /// under the current mode and bounds. First match wins: heat when `t`
    /// is below the safe bound (unless the mode overrides safety) or
    /// below the set point (unless the mode never heats); else cool, by
    /// the mirrored clauses; else off.
    pub open spec fn selected_outcome(self, t: Temperature) -> Outcome {
        if (t.millidegrees < self.minimum_safe_temperature.millidegrees
            && self.operating_mode != OperatingMode::DisabledUnsafe)
            || (t.millidegrees < self.minimum_set_temperature.millidegrees
                && self.operating_mode != OperatingMode::CoolToSetPoint) {
            Outcome::Heat
        } else if (t.millidegrees > self.maximum_safe_temperature.millidegrees
            && self.operating_mode != OperatingMode::DisabledUnsafe)
            || (t.millidegrees > self.maximum_set_temperature.millidegrees
                && self.operating_mode != OperatingMode::HeatToSetPoint) {
            Outcome::Cool
        } else {
            Outcome::Off
        }
    }

    /// Creates a thermostat over the given interface, with mode
    /// `Disabled`, the default safe range, set points equal to the safe
    /// bounds, the default reading, and the default per-actuator timing
    /// policy.
    pub fn new(interface: &'a I) -> (t: Thermostat<'a, I>)
        ensures
            t.operating_mode == OperatingMode::Disabled,
            t.minimum_safe_temperature.millidegrees == DEFAULT_MINIMUM_SAFE_MILLIDEGREES,
            t.maximum_safe_temperature.millidegrees == DEFAULT_MAXIMUM_SAFE_MILLIDEGREES,
            t.minimum_set_temperature.millidegrees == DEFAULT_MINIMUM_SAFE_MILLIDEGREES,
            t.maximum_set_temperature.millidegrees == DEFAULT_MAXIMUM_SAFE_MILLIDEGREES,
            t.current_temperature.millidegrees == DEFAULT_CURRENT_MILLIDEGREES,
            t.heat_timer == (ActuatorTimer {
                last_start: None,
                last_stop: None,
                minimum_run_seconds: 600,
                maximum_run_seconds: 3600,
                minimum_off_seconds: 300,
            }),
            t.cool_timer == (ActuatorTimer {
                last_start: None,
                last_stop: None,
                minimum_run_seconds: 600,
                maximum_run_seconds: 3600,
                minimum_off_seconds: 300,
            }),
            t.fan_timer == (ActuatorTimer {
                last_start: None,
                last_stop: None,
                minimum_run_seconds: 300,
                maximum_run_seconds: 43200,
                minimum_off_seconds: 300,
            }),
            t.interface == interface,
    {
        Thermostat {
            operating_mode: OperatingMode::Disabled,
            minimum_safe_temperature: Temperature::from_millidegrees(
                DEFAULT_MINIMUM_SAFE_MILLIDEGREES,
            ),
            maximum_safe_temperature: Temperature::from_millidegrees(
                DEFAULT_MAXIMUM_SAFE_MILLIDEGREES,
            ),
            minimum_set_temperature: Temperature::from_millidegrees(
                DEFAULT_MINIMUM_SAFE_MILLIDEGREES,
            ),
            maximum_set_temperature: Temperature::from_millidegrees(
                DEFAULT_MAXIMUM_SAFE_MILLIDEGREES,
            ),
            current_temperature: Temperature::from_millidegrees(DEFAULT_CURRENT_MILLIDEGREES),
            heat_timer: ActuatorTimer::new(600, 3600, 300),
            cool_timer: ActuatorTimer::new(600, 3600, 300),
            fan_timer: ActuatorTimer::new(300, 43200, 300),
            interface,
        }
    }

    /// Replaces the operating mode. No configuration is cross-validated,
    /// so the call always succeeds; the `Result` reserves the right to
    /// reject an incompatible configuration in a later revision.
    pub fn set_operating_mode(&mut self, operating_mode: OperatingMode) -> (r: Result<(), Error>)
        ensures
            r == Ok::<(), Error>(()),
            *final(self) == (Thermostat { operating_mode, ..*old(self) }),
    {
        self.operating_mode = operating_mode;
        Ok(())
    }

    /// The operating mode in force.
    pub fn get_operating_mode(&self) -> (m: OperatingMode)
        ensures
            m == self.operating_mode,
    {
        self.operating_mode
    }

    /// Replaces the upper hardware-protection bound. No containment of
    /// the set points is validated; the call always succeeds.
    pub fn set_maximum_safe_temperature(&mut self, temperature: Temperature) -> (r: Result<
        (),
        Error,
    >)
        ensures
            r == Ok::<(), Error>(()),
            *final(self) == (Thermostat { maximum_safe_temperature: temperature, ..*old(self) }),
    {
        self.maximum_safe_temperature = temperature;
        Ok(())
    }

    /// The upper hardware-protection bound.
    pub fn get_maximum_safe_temperature(&self) -> (t: Temperature)
        ensures
            t == self.maximum_safe_temperature,
    {
        self.maximum_safe_temperature
    }

    /// Replaces the lower hardware-protection bound. No containment of
    /// the set points is validated; the call always succeeds.
    pub fn set_minimum_safe_temperature(&mut self, temperature: Temperature) -> (r: Result<
        (),
        Error,
    >)
        ensures
            r == Ok::<(), Error>(()),
            *final(self) == (Thermostat { minimum_safe_temperature: temperature, ..*old(self) }),
    {
        self.minimum_safe_temperature = temperature;
        Ok(())
    }

    /// The lower hardware-protection bound.
    pub fn get_minimum_safe_temperature(&self) -> (t: Temperature)
        ensures
            t == self.minimum_safe_temperature,
    {
        self.minimum_safe_temperature
    }

    /// Replaces the upper comfort set point. No containment within the
    /// safe bounds is validated; the call always succeeds.
    pub fn set_maximum_set_temperature(&mut self, temperature: Temperature) -> (r: Result<
        (),
        Error,
    >)
        ensures
            r == Ok::<(), Error>(()),
            *final(self) == (Thermostat { maximum_set_temperature: temperature, ..*old(self) }),
    {
        self.maximum_set_temperature = temperature;
        Ok(())
    }

    /// The upper comfort set point.
    pub fn get_maximum_set_temperature(&self) -> (t: Temperature)
        ensures
            t == self.maximum_set_temperature,
    {
        self.maximum_set_temperature
    }

    /// Replaces the lower comfort set point. No containment within the
    /// safe bounds is validated; the call always succeeds.
    pub fn set_minimum_set_temperature(&mut self, temperature: Temperature) -> (r: Result<
        (),
        Error,
    >)
        ensures
            r == Ok::<(), Error>(()),
            *final(self) == (Thermostat { minimum_set_temperature: temperature, ..*old(self) }),
    {
        self.minimum_set_temperature = temperature;
        Ok(())
    }

    /// The lower comfort set point.
    pub fn get_minimum_set_temperature(&self) -> (t: Temperature)
        ensures
            t == self.minimum_set_temperature,
    {
        self.minimum_set_temperature
    }

    /// The reading most recently fed in by the caller.
    pub fn get_current_temperature(&self) -> (t: Temperature)
        ensures
            t == self.current_temperature,
    {
        self.current_temperature
    }

    /// Starts the heating actuator if the interface does not already
    /// report it on and its minimum off time has passed.
    ///
    /// On every failure — the guard's denial as well as an interface
    /// error — the thermostat is left exactly as it was; on success the
    /// heat timer either kept its timestamps (already on) or recorded a
    /// permitted start, and nothing else changed.
    pub fn start_heat(&mut self) -> (r: Result<(), Error>)
        ensures
            old(self).same_settings(*final(self)),
            final(self).cool_timer == old(self).cool_timer,
            final(self).fan_timer == old(self).fan_timer,
            start_evolution(old(self).heat_timer, final(self).heat_timer),
            r is Err ==> *final(self) == *old(self),
    {
        let calling = self.interface.calling_for_heat()?;
        if calling {
            return Ok(());
        }
        let now = self.interface.get_seconds()?;
        match self.heat_timer.decide_start(calling, now) {
            GuardDecision::NoChange => Ok(()),
            GuardDecision::Proceed => {
                self.interface.call_for_heat()?;
                self.heat_timer.record_start(now);
                Ok(())
            },
            GuardDecision::Denied => Err(Error::HeatMinOffTimeConstraint),
        }
    }

    /// Stops the heating actuator if the interface reports it on and its
    /// minimum run time has passed. Failure of any kind leaves the
    /// thermostat exactly as it was.
    pub fn stop_heat(&mut self) -> (r: Result<(), Error>)
        ensures
            old(self).same_settings(*final(self)),
            final(self).cool_timer == old(self).cool_timer,
            final(self).fan_timer == old(self).fan_timer,
            stop_evolution(old(self).heat_timer, final(self).heat_timer),
            r is Err ==> *final(self) == *old(self),
    {
        let calling = self.interface.calling_for_heat()?;
        if !calling {
            return Ok(());
        }
        let now = self.interface.get_seconds()?;
        match self.heat_timer.decide_stop(calling, now) {
            GuardDecision::NoChange => Ok(()),
            GuardDecision::Proceed => {
                self.interface.stop_call_for_heat()?;
                self.heat_timer.record_stop(now);
                Ok(())
            },
            GuardDecision::Denied => Err(Error::HeatMinRunTimeConstraint),
        }
    }

    /// Starts the cooling actuator under the same guard as
    /// [`Self::start_heat`], with the cooling policy and error.
    pub fn start_cool(&mut self) -> (r: Result<(), Error>)
        ensures
            old(self).same_settings(*final(self)),
            final(self).heat_timer == old(self).heat_timer,
            final(self).fan_timer == old(self).fan_timer,
            start_evolution(old(self).cool_timer, final(self).cool_timer),
            r is Err ==> *final(self) == *old(self),
    {
        let calling = self.interface.calling_for_cool()?;
        if calling {
            return Ok(());
        }
        let now = self.interface.get_seconds()?;
        match self.cool_timer.decide_start(calling, now) {
            GuardDecision::NoChange => Ok(()),
            GuardDecision::Proceed => {
                self.interface.call_for_cool()?;
                self.cool_timer.record_start(now);
                Ok(())
            },
            GuardDecision::Denied => Err(Error::CoolMinOffTimeConstraint),
        }
    }

    /// Stops the cooling actuator under the same guard as
    /// [`Self::stop_heat`], with the cooling policy and error.
    pub fn stop_cool(&mut self) -> (r: Result<(), Error>)
        ensures
            old(self).same_settings(*final(self)),
            final(self).heat_timer == old(self).heat_timer,
            final(self).fan_timer == old(self).fan_timer,
            stop_evolution(old(self).cool_timer, final(self).cool_timer),
            r is Err ==> *final(self) == *old(self),
    {
        let calling = self.interface.calling_for_cool()?;
        if !calling {
            return Ok(());
        }
        let now = self.interface.get_seconds()?;
        match self.cool_timer.decide_stop(calling, now) {
            GuardDecision::NoChange => Ok(()),
            GuardDecision::Proceed => {
                self.interface.stop_call_for_cool()?;
                self.cool_timer.record_stop(now);
                Ok(())
            },
            GuardDecision::Denied => Err(Error::CoolMinRunTimeConstraint),
        }
    }

    /// Starts the fan under the same guard as [`Self::start_heat`], with
    /// the fan policy and error.
    pub fn start_fan(&mut self) -> (r: Result<(), Error>)
        ensures
            old(self).same_settings(*final(self)),
            final(self).heat_timer == old(self).heat_timer,
            final(self).cool_timer == old(self).cool_timer,
            start_evolution(old(self).fan_timer, final(self).fan_timer),
            r is Err ==> *final(self) == *old(self),
    {
        let calling = self.interface.calling_for_fan()?;
        if calling {
            return Ok(());
        }
        let now = self.interface.get_seconds()?;
        match self.fan_timer.decide_start(calling, now) {
            GuardDecision::NoChange => Ok(()),
            GuardDecision::Proceed => {
                self.interface.call_for_fan()?;
                self.fan_timer.record_start(now);
                Ok(())
            },
            GuardDecision::Denied => Err(Error::FanMinOffTimeConstraint),
        }
    }

    /// Stops the fan under the same guard as [`Self::stop_heat`], with
    /// the fan policy and error.
    pub fn stop_fan(&mut self) -> (r: Result<(), Error>)
        ensures
            old(self).same_settings(*final(self)),
            final(self).heat_timer == old(self).heat_timer,
            final(self).cool_timer == old(self).cool_timer,
            stop_evolution(old(self).fan_timer, final(self).fan_timer),
            r is Err ==> *final(self) == *old(self),
    {
        let calling = self.interface.calling_for_fan()?;
        if !calling {
            return Ok(());
        }
        let now = self.interface.get_seconds()?;
        match self.fan_timer.decide_stop(calling, now) {
            GuardDecision::NoChange => Ok(()),
            GuardDecision::Proceed => {
                self.interface.stop_call_for_fan()?;
                self.fan_timer.record_stop(now);
                Ok(())
            },
            GuardDecision::Denied => Err(Error::FanMinRunTimeConstraint),
        }
    }

    /// The heat outcome: stop cool, start the fan, start the heater, in
    /// that order, halting at the first failure.
    ///
    /// The opposing actuator is told to stop before the heater starts, so
    /// heat and cool are never called for together, and the fan starts
    /// first so that airflow is established. On failure the heater's
    /// timer is untouched: a started heater implies the whole sequence
    /// succeeded.
    pub fn heat(&mut self) -> (r: Result<(), Error>)
        ensures
            old(self).same_settings(*final(self)),
            stop_evolution(old(self).cool_timer, final(self).cool_timer),
            start_evolution(old(self).fan_timer, final(self).fan_timer),
            start_evolution(old(self).heat_timer, final(self).heat_timer),
            r is Err ==> final(self).heat_timer == old(self).heat_timer,
    {
        self.stop_cool()?;
        self.start_fan()?;
        self.start_heat()?;
        Ok(())
    }

    /// The cool outcome: stop heat, start the fan, start the cooler, in
    /// that order, halting at the first failure. Mirrors
    /// [`Self::heat`]; on failure the cooler's timer is untouched.
    pub fn cool(&mut self) -> (r: Result<(), Error>)
        ensures
            old(self).same_settings(*final(self)),
            stop_evolution(old(self).heat_timer, final(self).heat_timer),
            start_evolution(old(self).fan_timer, final(self).fan_timer),
            start_evolution(old(self).cool_timer, final(self).cool_timer),
            r is Err ==> final(self).cool_timer == old(self).cool_timer,
    {
        self.stop_heat()?;
        self.start_fan()?;
        self.start_cool()?;
        Ok(())
    }

    /// The fan outcome: start the fan alone.
    pub fn fan(&mut self) -> (r: Result<(), Error>)
        ensures
            old(self).same_settings(*final(self)),
            final(self).heat_timer == old(self).heat_timer,
            final(self).cool_timer == old(self).cool_timer,
            start_evolution(old(self).fan_timer, final(self).fan_timer),
            r is Err ==> *final(self) == *old(self),
    {
        self.start_fan()?;
        Ok(())
    }

    /// The off outcome: stop cool, heat and fan in turn, halting at the
    /// first failure. On failure the fan's timer is untouched.
    pub fn off(&mut self) -> (r: Result<(), Error>)
        ensures
            old(self).same_settings(*final(self)),
            stop_evolution(old(self).cool_timer, final(self).cool_timer),
            stop_evolution(old(self).heat_timer, final(self).heat_timer),
            stop_evolution(old(self).fan_timer, final(self).fan_timer),
            r is Err ==> final(self).fan_timer == old(self).fan_timer,
    {
        self.stop_cool()?;
        self.stop_heat()?;
        self.stop_fan()?;
        Ok(())
    }

    /// Stores a new reading, selects exactly one outcome for it under the
    /// current mode and bounds, and executes that outcome's guarded
    /// sequence.
    ///
    /// The reading is stored unconditionally, even when the sequence then
    /// fails partway; mode and bounds are never touched. Which outcome
    /// runs is [`Self::selected_outcome`] of the reading, and the timers
    /// change only as that outcome's sequence permits.
    pub fn set_current_temperature(&mut self, temperature: Temperature) -> (r: Result<(), Error>)
        ensures
            final(self).current_temperature == temperature,
            final(self).operating_mode == old(self).operating_mode,
            final(self).minimum_safe_temperature == old(self).minimum_safe_temperature,
            final(self).maximum_safe_temperature == old(self).maximum_safe_temperature,
            final(self).minimum_set_temperature == old(self).minimum_set_temperature,
            final(self).maximum_set_temperature == old(self).maximum_set_temperature,
            final(self).interface == old(self).interface,
            match old(self).selected_outcome(temperature) {
                Outcome::Heat => {
                    &&& stop_evolution(old(self).cool_timer, final(self).cool_timer)
                    &&& start_evolution(old(self).fan_timer, final(self).fan_timer)
                    &&& start_evolution(old(self).heat_timer, final(self).heat_timer)
                    &&& r is Err ==> final(self).heat_timer == old(self).heat_timer
                },
                Outcome::Cool => {
                    &&& stop_evolution(old(self).heat_timer, final(self).heat_timer)
                    &&& start_evolution(old(self).fan_timer, final(self).fan_timer)
                    &&& start_evolution(old(self).cool_timer, final(self).cool_timer)
                    &&& r is Err ==> final(self).cool_timer == old(self).cool_timer
                },
                _ => {
                    &&& stop_evolution(old(self).cool_timer, final(self).cool_timer)
                    &&& stop_evolution(old(self).heat_timer, final(self).heat_timer)
                    &&& stop_evolution(old(self).fan_timer, final(self).fan_timer)
                    &&& r is Err ==> final(self).fan_timer == old(self).fan_timer
                },
            },
    {
        self.current_temperature = temperature;
        if (temperature.millidegrees < self.minimum_safe_temperature.millidegrees
            && self.operating_mode != OperatingMode::DisabledUnsafe)
            || (temperature.millidegrees < self.minimum_set_temperature.millidegrees
                && self.operating_mode != OperatingMode::CoolToSetPoint) {
            self.heat()?
        } else if (temperature.millidegrees > self.maximum_safe_temperature.millidegrees
            && self.operating_mode != OperatingMode::DisabledUnsafe)
            || (temperature.millidegrees > self.maximum_set_temperature.millidegrees
                && self.operating_mode != OperatingMode::HeatToSetPoint) {
            self.cool()?
        } else {
            self.off()?
        }
        Ok(())
    }
}

} // verus!
