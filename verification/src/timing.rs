use vstd::prelude::*;

verus! {

/// Timing bookkeeping and policy for one actuator.
///
/// `last_start` and `last_stop` record when the engine last commanded the
/// actuator on or off; a missing timestamp means the transition never
/// happened and is treated as if it happened at time zero, so duration
/// checks compare against the whole elapsed run of the clock. The three
/// policy fields are fixed at construction. `maximum_run_seconds` is
/// carried for forward compatibility: no guard consults it.
#[derive(Debug, Copy, Clone, PartialEq, Eq, Structural)]
pub struct ActuatorTimer {
    /// Clock reading of the most recent transition to "on", if any.
    pub last_start: Option<u64>,
    /// Clock reading of the most recent transition to "off", if any.
    pub last_stop: Option<u64>,
    /// Seconds the actuator must run before it may be stopped.
    pub minimum_run_seconds: u32,
    /// Declared ceiling on a single run; not enforced by any guard.
    pub maximum_run_seconds: u32,
    /// Seconds the actuator must rest before it may be started again.
    pub minimum_off_seconds: u32,
}

/// What the timing guard concluded about one requested transition.
#[derive(Debug, Copy, Clone, PartialEq, Eq, Structural)]
pub enum GuardDecision {
    /// The actuator is already in the requested state; succeed without
    /// issuing a command or recording a timestamp.
    NoChange,
    /// The timing policy permits the transition; issue the command and
    /// record the present clock reading.
    Proceed,
    /// The timing policy denies the transition; fail and leave every
    /// timestamp unchanged.
    Denied,
}

impl ActuatorTimer {
    /// A fresh timer with the given policy and no recorded transitions.
    pub fn new(
        minimum_run_seconds: u32,
        maximum_run_seconds: u32,
        minimum_off_seconds: u32,
    ) -> (t: ActuatorTimer)
        ensures
            t == (ActuatorTimer {
                last_start: None,
                last_stop: None,
                minimum_run_seconds,
                maximum_run_seconds,
                minimum_off_seconds,
            }),
    {
        ActuatorTimer {
            last_start: None,
            last_stop: None,
            minimum_run_seconds,
            maximum_run_seconds,
            minimum_off_seconds,
        }
    }

    /// When the current run began: the last recorded start, or time zero
    /// for an actuator that was never started.
    pub open spec fn run_origin(self) -> int {
        match self.last_start {
            Some(t) => t as int,
            None => 0,
        }
    }

    /// When the current rest began: the last recorded stop, or time zero
    /// for an actuator that was never stopped.
    pub open spec fn off_origin(self) -> int {
        match self.last_stop {
            Some(t) => t as int,
            None => 0,
        }
    }

    /// Seconds since the current run began, as seen at clock reading
    /// `now`; zero if the clock reads earlier than the recorded start.
    pub open spec fn run_elapsed(self, now: u64) -> int {
        if now >= self.run_origin() {
            now - self.run_origin()
        } else {
            0
        }
    }

    /// Seconds since the current rest began, as seen at clock reading
    /// `now`; zero if the clock reads earlier than the recorded stop.
    pub open spec fn off_elapsed(self, now: u64) -> int {
        if now >= self.off_origin() {
            now - self.off_origin()
        } else {
            0
        }
    }

    /// Whether the policy permits a start at clock reading `now`.
    pub open spec fn start_permitted(self, now: u64) -> bool {
        self.off_elapsed(now) >= self.minimum_off_seconds
    }

    /// Whether the policy permits a stop at clock reading `now`.
    pub open spec fn stop_permitted(self, now: u64) -> bool {
        self.run_elapsed(now) >= self.minimum_run_seconds
    }

    /// The timer after a start is recorded at clock reading `now`.
    pub open spec fn with_start(self, now: u64) -> ActuatorTimer {
        ActuatorTimer { last_start: Some(now), ..self }
    }

    /// The timer after a stop is recorded at clock reading `now`.
    pub open spec fn with_stop(self, now: u64) -> ActuatorTimer {
        ActuatorTimer { last_stop: Some(now), ..self }
    }

    /// The guard's verdict on a requested start, given whether the
    /// actuator already reports itself on and the present clock reading.
    pub open spec fn decided_start(self, calling: bool, now: u64) -> GuardDecision {
        if calling {
            GuardDecision::NoChange
        } else if self.start_permitted(now) {
            GuardDecision::Proceed
        } else {
            GuardDecision::Denied
        }
    }

    /// The guard's verdict on a requested stop.
    pub open spec fn decided_stop(self, calling: bool, now: u64) -> GuardDecision {
        if !calling {
            GuardDecision::NoChange
        } else if self.stop_permitted(now) {
            GuardDecision::Proceed
        } else {
            GuardDecision::Denied
        }
    }

    /// Evaluates the start guard: `calling` is the actuator's commanded
    /// state as the interface reports it, `now` the present clock reading.
    pub fn decide_start(&self, calling: bool, now: u64) -> (d: GuardDecision)
        ensures
            d == self.decided_start(calling, now),
    {
        if calling {
            GuardDecision::NoChange
        } else {
            let origin: u64 = match self.last_stop {
                Some(t) => t,
                None => 0,
            };
            let elapsed: u64 = if now >= origin {
                now - origin
            } else {
                0
            };
            if elapsed >= self.minimum_off_seconds as u64 {
                GuardDecision::Proceed
            } else {
                GuardDecision::Denied
            }
        }
    }

    /// Evaluates the stop guard.
    pub fn decide_stop(&self, calling: bool, now: u64) -> (d: GuardDecision)
        ensures
            d == self.decided_stop(calling, now),
    {
        if !calling {
            GuardDecision::NoChange
        } else {
            let origin: u64 = match self.last_start {
                Some(t) => t,
                None => 0,
            };
            let elapsed: u64 = if now >= origin {
                now - origin
            } else {
                0
            };
            if elapsed >= self.minimum_run_seconds as u64 {
                GuardDecision::Proceed
            } else {
                GuardDecision::Denied
            }
        }
    }

    /// Records that the actuator was commanded on at clock reading `now`.
    pub fn record_start(&mut self, now: u64)
        ensures
            *final(self) == old(self).with_start(now),
    {
        self.last_start = Some(now);
    }

    /// Records that the actuator was commanded off at clock reading `now`.
    pub fn record_stop(&mut self, now: u64)
        ensures
            *final(self) == old(self).with_stop(now),
    {
        self.last_stop = Some(now);
    }
}

/// How a timer may change across one guarded start: either nothing was
/// recorded (the actuator was already on, the guard denied, or an
/// interface call failed), or a start the policy permitted was recorded
/// at some clock reading.
pub open spec fn start_evolution(pre: ActuatorTimer, post: ActuatorTimer) -> bool {
    post == pre || (exists|now: u64| pre.start_permitted(now) && post == pre.with_start(now))
}

/// How a timer may change across one guarded stop: either nothing was
/// recorded, or a stop the policy permitted was recorded at some clock
/// reading.
pub open spec fn stop_evolution(pre: ActuatorTimer, post: ActuatorTimer) -> bool {
    post == pre || (exists|now: u64| pre.stop_permitted(now) && post == pre.with_stop(now))
}

} // verus!
