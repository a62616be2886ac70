use std::cell::Cell;

use thermostat::ActuatorTimer;
use thermostat::Error;
use thermostat::GuardDecision;
use thermostat::OperatingMode;
use thermostat::Temperature;
use thermostat::Thermostat;
use thermostat::ThermostatInterface;

/// An interface over in-memory relays and a hand-driven clock. Commands
/// are reflected into the commanded-state flags and counted, so a test
/// can see which commands the engine issued and how often.
struct MockInterface {
    heat: Cell<bool>,
    cool: Cell<bool>,
    fan: Cell<bool>,
    clock: Cell<u64>,
    heat_commands: Cell<u32>,
    cool_commands: Cell<u32>,
    fan_commands: Cell<u32>,
}

impl MockInterface {
    fn new(clock: u64) -> Self {
        Self {
            heat: Cell::new(false),
            cool: Cell::new(false),
            fan: Cell::new(false),
            clock: Cell::new(clock),
            heat_commands: Cell::new(0),
            cool_commands: Cell::new(0),
            fan_commands: Cell::new(0),
        }
    }
}

impl ThermostatInterface for MockInterface {
    fn calling_for_heat(&self) -> Result<bool, Error> {
        Ok(self.heat.get())
    }
    fn call_for_heat(&self) -> Result<(), Error> {
        self.heat.set(true);
        self.heat_commands.set(self.heat_commands.get() + 1);
        Ok(())
    }
    fn stop_call_for_heat(&self) -> Result<(), Error> {
        self.heat.set(false);
        Ok(())
    }
    fn calling_for_cool(&self) -> Result<bool, Error> {
        Ok(self.cool.get())
    }
    fn call_for_cool(&self) -> Result<(), Error> {
        self.cool.set(true);
        self.cool_commands.set(self.cool_commands.get() + 1);
        Ok(())
    }
    fn stop_call_for_cool(&self) -> Result<(), Error> {
        self.cool.set(false);
        Ok(())
    }
    fn calling_for_fan(&self) -> Result<bool, Error> {
        Ok(self.fan.get())
    }
    fn call_for_fan(&self) -> Result<(), Error> {
        self.fan.set(true);
        self.fan_commands.set(self.fan_commands.get() + 1);
        Ok(())
    }
    fn stop_call_for_fan(&self) -> Result<(), Error> {
        self.fan.set(false);
        Ok(())
    }
    fn get_seconds(&self) -> Result<u64, Error> {
        Ok(self.clock.get())
    }
}

/// An interface whose heating relay is broken: commanding heat on fails.
struct BrokenHeaterInterface {
    clock: u64,
}

impl ThermostatInterface for BrokenHeaterInterface {
    fn calling_for_heat(&self) -> Result<bool, Error> {
        Ok(false)
    }
    fn call_for_heat(&self) -> Result<(), Error> {
        Err(Error::HandlerFailed)
    }
    fn stop_call_for_heat(&self) -> Result<(), Error> {
        Ok(())
    }
    fn calling_for_cool(&self) -> Result<bool, Error> {
        Ok(false)
    }
    fn call_for_cool(&self) -> Result<(), Error> {
        Ok(())
    }
    fn stop_call_for_cool(&self) -> Result<(), Error> {
        Ok(())
    }
    fn calling_for_fan(&self) -> Result<bool, Error> {
        Ok(true)
    }
    fn call_for_fan(&self) -> Result<(), Error> {
        Ok(())
    }
    fn stop_call_for_fan(&self) -> Result<(), Error> {
        Ok(())
    }
    fn get_seconds(&self) -> Result<u64, Error> {
        Ok(self.clock)
    }
}

#[test]
fn low_reading_forces_heat_in_protected_modes() {
    let protected = [
        OperatingMode::MaintainRange,
        OperatingMode::CoolToSetPoint,
        OperatingMode::HeatToSetPoint,
        OperatingMode::Disabled,
    ];
    for mode in protected {
        let interface = MockInterface::new(1_000);
        let mut thermostat = Thermostat::new(&interface);
        thermostat.set_operating_mode(mode).unwrap();
        thermostat
            .set_current_temperature(Temperature::from_millidegrees(10_000))
            .unwrap();
        assert!(interface.heat.get());
        assert!(!interface.cool.get());
    }
    // `DisabledUnsafe` suppresses the safety clause; with the set point
    // lowered out of the way, the same reading leaves everything off.
    let interface = MockInterface::new(1_000);
    let mut thermostat = Thermostat::new(&interface);
    thermostat
        .set_operating_mode(OperatingMode::DisabledUnsafe)
        .unwrap();
    thermostat
        .set_minimum_set_temperature(Temperature::from_millidegrees(5_000))
        .unwrap();
    thermostat
        .set_current_temperature(Temperature::from_millidegrees(10_000))
        .unwrap();
    assert!(!interface.heat.get());
    assert_eq!(interface.heat_commands.get(), 0);
}

#[test]
fn in_range_reading_stops_heat_and_cool() {
    let interface = MockInterface::new(1_000);
    interface.heat.set(true);
    interface.cool.set(true);
    interface.fan.set(true);
    let mut thermostat = Thermostat::new(&interface);
    thermostat
        .set_operating_mode(OperatingMode::MaintainRange)
        .unwrap();
    thermostat
        .set_current_temperature(Temperature::from_millidegrees(20_000))
        .unwrap();
    assert!(!interface.heat.get());
    assert!(!interface.cool.get());
    assert!(!interface.fan.get());
}

#[test]
fn start_is_idempotent_while_on() {
    let interface = MockInterface::new(1_000);
    let mut thermostat = Thermostat::new(&interface);
    thermostat.start_heat().unwrap();
    assert!(interface.heat.get());
    assert_eq!(interface.heat_commands.get(), 1);
    assert_eq!(thermostat.heat_timer.last_start, Some(1_000));
    interface.clock.set(1_200);
    thermostat.start_heat().unwrap();
    assert_eq!(interface.heat_commands.get(), 1);
    assert_eq!(thermostat.heat_timer.last_start, Some(1_000));
}

#[test]
fn scenario_minimum_run_time_guards_stop() {
    // The heater has been commanded on since time zero (no recorded
    // start) with a 600 s minimum run.
    let interface = MockInterface::new(300);
    interface.heat.set(true);
    let mut thermostat = Thermostat::new(&interface);
    assert_eq!(
        thermostat.stop_heat(),
        Err(Error::HeatMinRunTimeConstraint)
    );
    assert!(interface.heat.get());
    assert_eq!(thermostat.heat_timer.last_stop, None);
    interface.clock.set(600);
    assert_eq!(thermostat.stop_heat(), Ok(()));
    assert!(!interface.heat.get());
    assert_eq!(thermostat.heat_timer.last_stop, Some(600));
}

#[test]
fn minimum_off_time_guards_restart() {
    let interface = MockInterface::new(1_000);
    interface.heat.set(true);
    let mut thermostat = Thermostat::new(&interface);
    thermostat.stop_heat().unwrap();
    assert_eq!(thermostat.heat_timer.last_stop, Some(1_000));
    interface.clock.set(1_100);
    assert_eq!(
        thermostat.start_heat(),
        Err(Error::HeatMinOffTimeConstraint)
    );
    assert!(!interface.heat.get());
    assert_eq!(thermostat.heat_timer.last_start, None);
    interface.clock.set(1_300);
    assert_eq!(thermostat.start_heat(), Ok(()));
    assert!(interface.heat.get());
    assert_eq!(thermostat.heat_timer.last_start, Some(1_300));
}

#[test]
fn mode_exclusivity_after_cool() {
    let interface = MockInterface::new(1_000);
    interface.heat.set(true);
    let mut thermostat = Thermostat::new(&interface);
    thermostat
        .set_current_temperature(Temperature::from_millidegrees(35_000))
        .unwrap();
    assert!(!interface.heat.get());
    assert!(interface.fan.get());
    assert!(interface.cool.get());
}

#[test]
fn scenario_default_low_reading_calls_heat() {
    // Default configuration: mode `Disabled`, safe range 15-30 degrees C.
    // Both actuators have rested longer than their minimum off times.
    let interface = MockInterface::new(1_000);
    let mut thermostat = Thermostat::new(&interface);
    thermostat
        .set_current_temperature(Temperature::from_millidegrees(10_000))
        .unwrap();
    assert!(interface.heat.get());
    assert!(interface.fan.get());
    assert!(!interface.cool.get());
}

#[test]
fn scenario_cool_to_set_point_low_reading() {
    // The low set-point clause is suppressed for `CoolToSetPoint`, but
    // 10 degrees is still below the 15 degree safe bound: heat anyway.
    let interface = MockInterface::new(1_000);
    let mut thermostat = Thermostat::new(&interface);
    thermostat
        .set_operating_mode(OperatingMode::CoolToSetPoint)
        .unwrap();
    thermostat
        .set_minimum_set_temperature(Temperature::from_millidegrees(18_000))
        .unwrap();
    thermostat
        .set_current_temperature(Temperature::from_millidegrees(10_000))
        .unwrap();
    assert!(interface.heat.get());

    // With the safe bound at 5 degrees instead, neither clause fires and
    // the outcome is off.
    let interface = MockInterface::new(1_000);
    let mut thermostat = Thermostat::new(&interface);
    thermostat
        .set_operating_mode(OperatingMode::CoolToSetPoint)
        .unwrap();
    thermostat
        .set_minimum_set_temperature(Temperature::from_millidegrees(18_000))
        .unwrap();
    thermostat
        .set_minimum_safe_temperature(Temperature::from_millidegrees(5_000))
        .unwrap();
    thermostat
        .set_current_temperature(Temperature::from_millidegrees(10_000))
        .unwrap();
    assert!(!interface.heat.get());
    assert_eq!(interface.heat_commands.get(), 0);
}

#[test]
fn scenario_heat_request_while_cool_running() {
    // Cool has run only 100 s against a 600 s minimum; the heat outcome
    // must fail at its first step and never start the heater.
    let interface = MockInterface::new(1_000);
    interface.cool.set(true);
    interface.fan.set(true);
    let mut thermostat = Thermostat::new(&interface);
    thermostat.cool_timer.last_start = Some(900);
    let result = thermostat.set_current_temperature(Temperature::from_millidegrees(10_000));
    assert_eq!(result, Err(Error::CoolMinRunTimeConstraint));
    assert!(interface.cool.get());
    assert!(!interface.heat.get());
    assert_eq!(interface.heat_commands.get(), 0);
    // The reading is stored even though the sequence failed.
    assert_eq!(
        thermostat.get_current_temperature(),
        Temperature::from_millidegrees(10_000)
    );
}

#[test]
fn handler_failure_propagates_without_recording() {
    let interface = BrokenHeaterInterface { clock: 1_000 };
    let mut thermostat = Thermostat::new(&interface);
    assert_eq!(thermostat.start_heat(), Err(Error::HandlerFailed));
    assert_eq!(thermostat.heat_timer.last_start, None);
}

#[test]
fn fan_outcome_starts_fan_alone() {
    let interface = MockInterface::new(1_000);
    let mut thermostat = Thermostat::new(&interface);
    thermostat.fan().unwrap();
    assert!(interface.fan.get());
    assert_eq!(interface.heat_commands.get(), 0);
    assert_eq!(interface.cool_commands.get(), 0);
}

#[test]
fn timing_constraint_errors_name_the_actuator() {
    let interface = MockInterface::new(1_100);
    let mut thermostat = Thermostat::new(&interface);
    thermostat.cool_timer.last_stop = Some(1_000);
    assert_eq!(
        thermostat.start_cool(),
        Err(Error::CoolMinOffTimeConstraint)
    );

    let interface = MockInterface::new(1_100);
    interface.fan.set(true);
    let mut thermostat = Thermostat::new(&interface);
    thermostat.fan_timer.last_start = Some(1_000);
    assert_eq!(thermostat.stop_fan(), Err(Error::FanMinRunTimeConstraint));

    let interface = MockInterface::new(1_100);
    let mut thermostat = Thermostat::new(&interface);
    thermostat.fan_timer.last_stop = Some(1_000);
    assert_eq!(thermostat.start_fan(), Err(Error::FanMinOffTimeConstraint));
}

#[test]
fn guard_decisions_follow_the_policy() {
    let timer = ActuatorTimer::new(600, 3_600, 300);
    assert_eq!(timer.decide_stop(true, 599), GuardDecision::Denied);
    assert_eq!(timer.decide_stop(true, 600), GuardDecision::Proceed);
    assert_eq!(timer.decide_stop(false, 0), GuardDecision::NoChange);
    assert_eq!(timer.decide_start(true, 0), GuardDecision::NoChange);
    assert_eq!(timer.decide_start(false, 299), GuardDecision::Denied);
    assert_eq!(timer.decide_start(false, 300), GuardDecision::Proceed);

    let mut rested = timer;
    rested.last_stop = Some(1_000);
    assert_eq!(rested.decide_start(false, 1_299), GuardDecision::Denied);
    assert_eq!(rested.decide_start(false, 1_300), GuardDecision::Proceed);
}

#[test]
fn messages_and_labels() {
    assert_eq!(
        Error::HandlerFailed.message(),
        "Thermostat Error: handler failed"
    );
    assert_eq!(
        Error::MeasurementFailed.message(),
        "Thermostat Error: measurement failed"
    );
    assert_eq!(
        Error::HeatMinRunTimeConstraint.message(),
        "Thermostat Error: heat has not yet reached minimum run time"
    );
    assert_eq!(
        Error::CoolMinOffTimeConstraint.message(),
        "Thermostat Error: cool has not yet reached minimum off time"
    );
    assert_eq!(
        Error::FanMaxRunTimeConstraint.message(),
        "Thermostat Error: fan has reached maximum run time"
    );
    assert_eq!(OperatingMode::MaintainRange.label(), "Maintain Range");
    assert_eq!(OperatingMode::CoolToSetPoint.label(), "Cool to Set Point");
    assert_eq!(OperatingMode::HeatToSetPoint.label(), "Heat to Set Point");
    assert_eq!(OperatingMode::Disabled.label(), "Disabled");
    assert_eq!(OperatingMode::DisabledUnsafe.label(), "Disabled (Unsafe)");
}

#[test]
fn temperature_conversions() {
    assert_eq!(
        Temperature::from_degrees(22),
        Temperature::from_millidegrees(22_000)
    );
    assert_eq!(
        Temperature::from_degrees(-40),
        Temperature::from_millidegrees(-40_000)
    );
}
