use vstd::prelude::*;

verus! {

/// A time stamp as OSVR reports it: whole seconds and the microseconds past them.
#[derive(Clone, Copy, Debug, PartialEq, Eq, Structural)]
pub struct TimeValue {
    seconds: i64,
    microseconds: i32,
}

impl TimeValue {
    /// The whole seconds of the time stamp.
    pub closed spec fn spec_seconds(self) -> i64 {
        self.seconds
    }

    /// The microseconds past the whole seconds.
    pub closed spec fn spec_microseconds(self) -> i32 {
        self.microseconds
    }

    /// A time stamp with the given parts, as OSVR fills them in.
    pub fn new(seconds: i64, microseconds: i32) -> (t: TimeValue)
        ensures
            t.spec_seconds() == seconds,
            t.spec_microseconds() == microseconds,
    {
        TimeValue { seconds, microseconds }
    }

    pub fn seconds(&self) -> (s: i64)
        ensures
            s == self.spec_seconds(),
    {
        self.seconds
    }

    pub fn microseconds(&self) -> (us: i32)
        ensures
            us == self.spec_microseconds(),
    {
        self.microseconds
    }
}

/// A button report: which sensor of the interface changed, and its new state
/// (zero when released, nonzero when pressed).
#[derive(Clone, Copy, Debug, PartialEq, Eq, Structural)]
pub struct ButtonReport {
    sensor: i32,
    state: u8,
}

impl ButtonReport {
    /// The sensor that the report is about.
    pub closed spec fn spec_sensor(self) -> i32 {
        self.sensor
    }

    /// The state that the report gives the sensor.
    pub closed spec fn spec_state(self) -> u8 {
        self.state
    }

    /// A report with the given sensor and state, as OSVR fills them in.
    pub fn new(sensor: i32, state: u8) -> (r: ButtonReport)
        ensures
            r.spec_sensor() == sensor,
            r.spec_state() == state,
    {
        ButtonReport { sensor, state }
    }

    pub fn sensor(&self) -> (s: i32)
        ensures
            s == self.spec_sensor(),
    {
        self.sensor
    }

    pub fn state(&self) -> (s: u8)
        ensures
            s == self.spec_state(),
    {
        self.state
    }
}

} // verus!
