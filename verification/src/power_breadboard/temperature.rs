//! Auxiliary battery temperature monitor: reports every fifth reading, raises a warning or an
//! error on high temperature, and an error after ten failed readings in a row.
use vstd::prelude::*;

use super::can::{ErrorType, WarningType};

verus! {

/// Every this many readings, one is reported.
pub const REPORT_PERIOD: u8 = 5;

/// After this many failed readings in a row, the sensor is reported disconnected.
pub const MAX_FAILURES: u8 = 10;

/// Temperature from which a warning is raised, in sixteenths of a degree Celsius (42 °C).
pub const WARNING_THRESHOLD_SIXTEENTHS: i16 = 42 * 16;
/// Temperature from which an error is raised, in sixteenths of a degree Celsius (60 °C).
pub const ERROR_THRESHOLD_SIXTEENTHS: i16 = 60 * 16;

/// Where a temperature reading stands against the thresholds (42 °C for the warning, 60 °C
/// for the error).
#[derive(Debug, Clone, Copy, PartialEq, Eq, Structural)]
pub enum TemperatureLevel {
    Normal,
    High,
    TooHigh,
}

/// The level of a reading of `sixteenths` sixteenths of a degree Celsius: too high from 60 °C,
/// high from 42 °C.
pub open spec fn spec_level(sixteenths: i16) -> TemperatureLevel {
    if sixteenths >= ERROR_THRESHOLD_SIXTEENTHS {
        TemperatureLevel::TooHigh
    } else if sixteenths >= WARNING_THRESHOLD_SIXTEENTHS {
        TemperatureLevel::High
    } else {
        TemperatureLevel::Normal
    }
}

/// The level of a reading of `sixteenths` sixteenths of a degree Celsius.
pub fn temperature_level(sixteenths: i16) -> (r: TemperatureLevel)
    ensures
        r == spec_level(sixteenths),
{
    if sixteenths >= ERROR_THRESHOLD_SIXTEENTHS {
        TemperatureLevel::TooHigh
    } else if sixteenths >= WARNING_THRESHOLD_SIXTEENTHS {
        TemperatureLevel::High
    } else {
        TemperatureLevel::Normal
    }
}

/// What to do after a reading.
#[derive(Debug, Clone, Copy)]
pub struct MonitorActions {
    /// Report the reading on the data channel.
    pub report: bool,
    pub warning: Option<WarningType>,
    pub error: Option<ErrorType>,
}

/// The monitor's counters.
#[derive(Debug, Clone, Copy, PartialEq, Eq, Structural)]
pub struct TemperatureMonitor {
    iter_count: u8,
    fail_count: u8,
}

impl TemperatureMonitor {
    pub closed spec fn spec_iter_count(&self) -> u8 {
        self.iter_count
    }

    pub closed spec fn spec_fail_count(&self) -> u8 {
        self.fail_count
    }

    /// The monitor's invariant: both counters stay below their periods.
    pub open spec fn wf(&self) -> bool {
        self.spec_iter_count() < REPORT_PERIOD && self.spec_fail_count() < MAX_FAILURES
    }

    pub fn new() -> (r: Self)
        ensures
            r.spec_iter_count() == 0,
            r.spec_fail_count() == 0,
            r.wf(),
    {
        Self { iter_count: 0, fail_count: 0 }
    }

    /// Takes a reading, in sixteenths of a degree Celsius, into account (`None` when it
    /// failed): a good reading resets the failure count, is reported when the iteration count
    /// is zero, and raises the error (too high) or the warning (high); a failed reading counts,
    /// and the tenth in a row raises the disconnection error and restarts the count.
    pub fn step(&mut self, reading: Option<i16>) -> (r: MonitorActions)
        requires
            old(self).wf(),
        ensures
            final(self).wf(),
            final(self).spec_iter_count() == (old(self).spec_iter_count() + 1) % (REPORT_PERIOD as int),
            reading matches Some(t) ==> {
                &&& final(self).spec_fail_count() == 0
                &&& r.report == (old(self).spec_iter_count() == 0)
                &&& r.error == (if spec_level(t) == TemperatureLevel::TooHigh {
                    Some(ErrorType::AuxBattTempTooHigh)
                } else {
                    None
                })
                &&& r.warning == (if spec_level(t) == TemperatureLevel::High {
                    Some(WarningType::AuxBattTempHigh)
                } else {
                    None
                })
            },
            reading is None ==> {
                &&& !r.report
                &&& r.warning is None
                &&& old(self).spec_fail_count() + 1 >= MAX_FAILURES ==> (final(self).spec_fail_count() == 0
                    && r.error == Some(ErrorType::AuxBattTempSensorDisconnected))
                &&& old(self).spec_fail_count() + 1 < MAX_FAILURES ==> (final(self).spec_fail_count()
                    == old(self).spec_fail_count() + 1 && r.error is None)
            },
    {
        let mut actions = MonitorActions { report: false, warning: None, error: None };
        match reading {
            Some(t) => {
                self.fail_count = 0;
                if self.iter_count == 0 {
                    actions.report = true;
                }
                match temperature_level(t) {
                    TemperatureLevel::TooHigh => {
                        actions.error = Some(ErrorType::AuxBattTempTooHigh);
                    },
                    TemperatureLevel::High => {
                        actions.warning = Some(WarningType::AuxBattTempHigh);
                    },
                    TemperatureLevel::Normal => {},
                }
            },
            None => {
                self.fail_count = self.fail_count + 1;
                if self.fail_count >= MAX_FAILURES {
                    self.fail_count = 0;
                    actions.error = Some(ErrorType::AuxBattTempSensorDisconnected);
                }
            },
        }
        self.iter_count = (self.iter_count + 1) % REPORT_PERIOD;
        actions
    }
}

/// The auxiliary battery's thresholds: a warning from 42 °C, an error from 60 °C (in
/// sixteenths of a degree), one reading in five reported, a disconnection after ten failed
/// readings in a row; the level only grows with the temperature.
pub proof fn lemma_documented_thresholds(a: i16, b: i16)
    ensures
        WARNING_THRESHOLD_SIXTEENTHS == 672 && ERROR_THRESHOLD_SIXTEENTHS == 960,
        REPORT_PERIOD == 5 && MAX_FAILURES == 10,
        spec_level(a) == (if a >= 960 {
            TemperatureLevel::TooHigh
        } else if a >= 672 {
            TemperatureLevel::High
        } else {
            TemperatureLevel::Normal
        }),
        a <= b && spec_level(a) == TemperatureLevel::TooHigh ==> spec_level(b) == TemperatureLevel::TooHigh,
        a <= b && spec_level(a) == TemperatureLevel::High ==> spec_level(b) != TemperatureLevel::Normal,
{
}

} // verus!
