//! Report codes of the hydrogen board. Each code is the position of the variant in its list.
use vstd::prelude::*;

verus! {

/// Faults of the hydrogen system, reported with their code.
#[derive(Debug, Clone, Copy, PartialEq, Eq, Structural)]
pub enum ErrorType {
    PlaqueTempSensorMissing,
    PlaqueTempSensorDisconnected,
    TankTempSensorMissing,
    TankTempSensorDisconnected,
    PlaqueTempTooHigh,
    TankTempTooHigh,
    Manometer1PressureTooHigh,
    Manometer2PressureTooHigh,
    Manometer1PressureTooLow,
    Manometer2PressureTooLow,
    Actuator1InvalidPosition,
    Actuator2InvalidPosition,
    Actuator3InvalidPosition,
}

impl ErrorType {
    pub open spec fn spec_code(self) -> u16 {
        match self {
            ErrorType::PlaqueTempSensorMissing => 0,
            ErrorType::PlaqueTempSensorDisconnected => 1,
            ErrorType::TankTempSensorMissing => 2,
            ErrorType::TankTempSensorDisconnected => 3,
            ErrorType::PlaqueTempTooHigh => 4,
            ErrorType::TankTempTooHigh => 5,
            ErrorType::Manometer1PressureTooHigh => 6,
            ErrorType::Manometer2PressureTooHigh => 7,
            ErrorType::Manometer1PressureTooLow => 8,
            ErrorType::Manometer2PressureTooLow => 9,
            ErrorType::Actuator1InvalidPosition => 10,
            ErrorType::Actuator2InvalidPosition => 11,
            ErrorType::Actuator3InvalidPosition => 12,
        }
    }

    /// The code reported for the fault.
    pub fn code(self) -> (r: u16)
        ensures
            r == self.spec_code(),
    {
        match self {
            ErrorType::PlaqueTempSensorMissing => 0,
            ErrorType::PlaqueTempSensorDisconnected => 1,
            ErrorType::TankTempSensorMissing => 2,
            ErrorType::TankTempSensorDisconnected => 3,
            ErrorType::PlaqueTempTooHigh => 4,
            ErrorType::TankTempTooHigh => 5,
            ErrorType::Manometer1PressureTooHigh => 6,
            ErrorType::Manometer2PressureTooHigh => 7,
            ErrorType::Manometer1PressureTooLow => 8,
            ErrorType::Manometer2PressureTooLow => 9,
            ErrorType::Actuator1InvalidPosition => 10,
            ErrorType::Actuator2InvalidPosition => 11,
            ErrorType::Actuator3InvalidPosition => 12,
        }
    }
}

/// Conditions of the hydrogen system worth a warning, reported with their code.
#[derive(Debug, Clone, Copy, PartialEq, Eq, Structural)]
pub enum WarningType {
    PlaqueTempHigh,
    TankTempHigh,
    Manometer1PressureHigh,
    Manometer2PressureHigh,
    Manometer1PressureLow,
    Manometer2PressureLow,
}

impl WarningType {
    pub open spec fn spec_code(self) -> u16 {
        match self {
            WarningType::PlaqueTempHigh => 0,
            WarningType::TankTempHigh => 1,
            WarningType::Manometer1PressureHigh => 2,
            WarningType::Manometer2PressureHigh => 3,
            WarningType::Manometer1PressureLow => 4,
            WarningType::Manometer2PressureLow => 5,
        }
    }

    /// The code reported for the warning.
    pub fn code(self) -> (r: u16)
        ensures
            r == self.spec_code(),
    {
        match self {
            WarningType::PlaqueTempHigh => 0,
            WarningType::TankTempHigh => 1,
            WarningType::Manometer1PressureHigh => 2,
            WarningType::Manometer2PressureHigh => 3,
            WarningType::Manometer1PressureLow => 4,
            WarningType::Manometer2PressureLow => 5,
        }
    }
}

/// State of the boat as the hydrogen board follows it.
#[derive(Debug, Clone, Copy, PartialEq, Eq, Structural)]
pub enum BoatState {
    Idle,
    Startup,
    Running,
    Shutdown,
}

impl BoatState {
    pub open spec fn spec_code(self) -> u8 {
        match self {
            BoatState::Idle => 0,
            BoatState::Startup => 1,
            BoatState::Running => 2,
            BoatState::Shutdown => 3,
        }
    }

    /// The code of the state.
    pub fn code(self) -> (r: u8)
        ensures
            r == self.spec_code(),
    {
        match self {
            BoatState::Idle => 0,
            BoatState::Startup => 1,
            BoatState::Running => 2,
            BoatState::Shutdown => 3,
        }
    }
}

/// No two faults, no two warnings and no two states share a code.
pub proof fn lemma_codes_distinct(e1: ErrorType, e2: ErrorType, w1: WarningType, w2: WarningType, s1: BoatState, s2: BoatState)
    ensures
        e1.spec_code() == e2.spec_code() ==> e1 == e2,
        w1.spec_code() == w2.spec_code() ==> w1 == w2,
        s1.spec_code() == s2.spec_code() ==> s1 == s2,
{
}

/// Each code is the position of its condition in the board's list: faults from the plate
/// sensor missing (0) to actuator 3's invalid position (12); warnings from the plate
/// temperature (0) to manometer 2's low pressure (5); states Idle 0, Startup 1, Running 2,
/// Shutdown 3.
pub proof fn lemma_documented_codes()
    ensures
        ErrorType::PlaqueTempSensorMissing.spec_code() == 0 && ErrorType::PlaqueTempSensorDisconnected.spec_code() == 1
            && ErrorType::TankTempSensorMissing.spec_code() == 2 && ErrorType::TankTempSensorDisconnected.spec_code() == 3
            && ErrorType::PlaqueTempTooHigh.spec_code() == 4 && ErrorType::TankTempTooHigh.spec_code() == 5
            && ErrorType::Manometer1PressureTooHigh.spec_code() == 6 && ErrorType::Manometer2PressureTooHigh.spec_code() == 7
            && ErrorType::Manometer1PressureTooLow.spec_code() == 8 && ErrorType::Manometer2PressureTooLow.spec_code() == 9
            && ErrorType::Actuator1InvalidPosition.spec_code() == 10 && ErrorType::Actuator2InvalidPosition.spec_code() == 11
            && ErrorType::Actuator3InvalidPosition.spec_code() == 12,
        WarningType::PlaqueTempHigh.spec_code() == 0 && WarningType::TankTempHigh.spec_code() == 1
            && WarningType::Manometer1PressureHigh.spec_code() == 2 && WarningType::Manometer2PressureHigh.spec_code() == 3
            && WarningType::Manometer1PressureLow.spec_code() == 4 && WarningType::Manometer2PressureLow.spec_code() == 5,
        BoatState::Idle.spec_code() == 0 && BoatState::Startup.spec_code() == 1 && BoatState::Running.spec_code() == 2
            && BoatState::Shutdown.spec_code() == 3,
{
}

} // verus!
