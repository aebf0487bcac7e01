//! Battery over-temperature alarms: each reading is held against the warning (45.5 °C) and
//! error (58.5 °C) thresholds, and each alarm is reported once when its condition becomes
//! true.
use vstd::prelude::*;

use super::can_frames::{ErrorType, WarningType};
use super::fault::{fires, Latch};

verus! {

/// Battery temperature from which a warning is raised, in sixteenths of a degree (45.5 °C).
pub const WARNING_THRESHOLD_SIXTEENTHS: i16 = 728;
/// Battery temperature from which an error is raised, in sixteenths of a degree (58.5 °C).
pub const ERROR_THRESHOLD_SIXTEENTHS: i16 = 936;

/// Reports due after a reading, error first.
#[derive(Debug, Clone, Copy, PartialEq, Eq, Structural)]
pub struct AlarmReports {
    pub error: Option<ErrorType>,
    pub warning: Option<WarningType>,
}

/// The two over-temperature alarms of the battery.
pub struct TemperatureAlarms {
    warning: Latch,
    error: Latch,
}

impl TemperatureAlarms {
    /// Whether the warning condition held at the last reading.
    pub closed spec fn spec_warning_active(&self) -> bool {
        self.warning.spec_active()
    }

    /// Whether the error condition held at the last reading.
    pub closed spec fn spec_error_active(&self) -> bool {
        self.error.spec_active()
    }

    /// Alarms that have seen no reading.
    pub fn new() -> (r: Self)
        ensures
            !r.spec_warning_active(),
            !r.spec_error_active(),
    {
        TemperatureAlarms { warning: Latch::new(), error: Latch::new() }
    }

    /// Takes a reading of `sixteenths` sixteenths of a degree Celsius: the error is reported
    /// when the reading reaches the error threshold and the previous one did not, the warning
    /// likewise for the warning threshold.
    pub fn update(&mut self, sixteenths: i16) -> (r: AlarmReports)
        ensures
            final(self).spec_warning_active() == (sixteenths >= WARNING_THRESHOLD_SIXTEENTHS),
            final(self).spec_error_active() == (sixteenths >= ERROR_THRESHOLD_SIXTEENTHS),
            r.error == (if fires(old(self).spec_error_active(), sixteenths >= ERROR_THRESHOLD_SIXTEENTHS) {
                Some(ErrorType::Overtemperature)
            } else {
                None
            }),
            r.warning == (if fires(old(self).spec_warning_active(), sixteenths >= WARNING_THRESHOLD_SIXTEENTHS) {
                Some(WarningType::TemperatureWarning)
            } else {
                None
            }),
    {
        let warning_triggered = self.warning.rising_edge(sixteenths >= WARNING_THRESHOLD_SIXTEENTHS);
        let error_triggered = self.error.rising_edge(sixteenths >= ERROR_THRESHOLD_SIXTEENTHS);
        AlarmReports {
            error: if error_triggered {
                Some(ErrorType::Overtemperature)
            } else {
                None
            },
            warning: if warning_triggered {
                Some(WarningType::TemperatureWarning)
            } else {
                None
            },
        }
    }
}

/// A temperature that stays above a threshold is reported once: after a reading at or above
/// the error threshold, another such reading reports nothing.
pub proof fn lemma_alarm_reported_once(t1: i16, t2: i16)
    requires
        t1 >= ERROR_THRESHOLD_SIXTEENTHS,
        t2 >= ERROR_THRESHOLD_SIXTEENTHS,
    ensures
        !fires(t1 >= ERROR_THRESHOLD_SIXTEENTHS, t2 >= ERROR_THRESHOLD_SIXTEENTHS),
        !fires(t1 >= WARNING_THRESHOLD_SIXTEENTHS, t2 >= WARNING_THRESHOLD_SIXTEENTHS),
{
}

/// The battery's thresholds: a warning from 45.5 °C and an error from 58.5 °C, in sixteenths of
/// a degree.
pub proof fn lemma_documented_thresholds()
    ensures
        WARNING_THRESHOLD_SIXTEENTHS == 728 && ERROR_THRESHOLD_SIXTEENTHS == 936,
        WARNING_THRESHOLD_SIXTEENTHS * 2 == 91 * 16 && ERROR_THRESHOLD_SIXTEENTHS * 2 == 117 * 16,
{
}

} // verus!
