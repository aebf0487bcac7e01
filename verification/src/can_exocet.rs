//! Exocet CAN protocol: message priorities, subsystem addresses, frame types and payloads.
pub mod enums;
pub mod errors;
pub mod can_driver;
pub mod interface;

use vstd::prelude::*;

verus! {

/// Message priority, as the two most significant bits of an identifier.
#[derive(Debug, Copy, Clone, PartialEq, Eq, Structural)]
pub enum Priority {
    InfoMessage,
    StateManagementMessage,
    WarningMessage,
    CriticalErrorMessage,
}

impl Priority {
    /// The two-bit code of the priority (a lower code wins arbitration).
    pub open spec fn spec_to_u32(self) -> u32 {
        match self {
            Priority::InfoMessage => 0b11,
            Priority::StateManagementMessage => 0b10,
            Priority::WarningMessage => 0b01,
            Priority::CriticalErrorMessage => 0b00,
        }
    }

    /// The two-bit code of the priority.
    #[verifier::when_used_as_spec(spec_to_u32)]
    pub fn to_u32(self) -> (r: u32)
        ensures
            r == self.spec_to_u32(),
    {
        match self {
            Priority::InfoMessage => 0b11,
            Priority::StateManagementMessage => 0b10,
            Priority::WarningMessage => 0b01,
            Priority::CriticalErrorMessage => 0b00,
        }
    }

    /// The priority with code `code` (only the low two bits count).
    pub open spec fn spec_from_u32(code: u32) -> Priority {
        if code % 4 == 0b11 {
            Priority::InfoMessage
        } else if code % 4 == 0b10 {
            Priority::StateManagementMessage
        } else if code % 4 == 0b01 {
            Priority::WarningMessage
        } else {
            Priority::CriticalErrorMessage
        }
    }
}

/// Address of a subsystem (board) on the bus.
#[derive(Debug, Copy, Clone, PartialEq, Eq, Structural)]
pub enum Subsystem {
    Reserved,
    Broadcast,
    ControlCockpit,
    HydrogenManagement,
    FcControllersA,
    FcControllersB,
    PowerHighPower,
    PowerDcDc,
    Batteries1,
    TelemetryScreen,
    TelemetryTelemetry,
}

impl Subsystem {
    /// The address of the subsystem.
    pub open spec fn spec_to_u32(self) -> u32 {
        match self {
            Subsystem::Reserved => 0x00,
            Subsystem::Broadcast => 0x1F,
            Subsystem::ControlCockpit => 0x08,
            Subsystem::HydrogenManagement => 0x10,
            Subsystem::FcControllersA => 0x18,
            Subsystem::FcControllersB => 0x19,
            Subsystem::PowerHighPower => 0x20,
            Subsystem::PowerDcDc => 0x21,
            Subsystem::Batteries1 => 0x28,
            Subsystem::TelemetryScreen => 0x30,
            Subsystem::TelemetryTelemetry => 0x31,
        }
    }

    /// The address of the subsystem.
    #[verifier::when_used_as_spec(spec_to_u32)]
    pub fn to_u32(self) -> (r: u32)
        ensures
            r == self.spec_to_u32(),
    {
        match self {
            Subsystem::Reserved => 0x00,
            Subsystem::Broadcast => 0x1F,
            Subsystem::ControlCockpit => 0x08,
            Subsystem::HydrogenManagement => 0x10,
            Subsystem::FcControllersA => 0x18,
            Subsystem::FcControllersB => 0x19,
            Subsystem::PowerHighPower => 0x20,
            Subsystem::PowerDcDc => 0x21,
            Subsystem::Batteries1 => 0x28,
            Subsystem::TelemetryScreen => 0x30,
            Subsystem::TelemetryTelemetry => 0x31,
        }
    }

    /// The subsystem at address `address`, if there is one.
    pub open spec fn spec_from_u32(address: u32) -> Option<Subsystem> {
        if address == 0x00 {
            Some(Subsystem::Reserved)
        } else if address == 0x1F {
            Some(Subsystem::Broadcast)
        } else if address == 0x08 {
            Some(Subsystem::ControlCockpit)
        } else if address == 0x10 {
            Some(Subsystem::HydrogenManagement)
        } else if address == 0x18 {
            Some(Subsystem::FcControllersA)
        } else if address == 0x19 {
            Some(Subsystem::FcControllersB)
        } else if address == 0x20 {
            Some(Subsystem::PowerHighPower)
        } else if address == 0x21 {
            Some(Subsystem::PowerDcDc)
        } else if address == 0x28 {
            Some(Subsystem::Batteries1)
        } else if address == 0x30 {
            Some(Subsystem::TelemetryScreen)
        } else if address == 0x31 {
            Some(Subsystem::TelemetryTelemetry)
        } else {
            None
        }
    }

    /// The subsystem at address `address`, if there is one.
    #[verifier::when_used_as_spec(spec_from_u32)]
    pub fn from_u32(address: u32) -> (r: Option<Subsystem>)
        ensures
            r == Self::spec_from_u32(address),
            r matches Some(s) ==> s.spec_to_u32() == address,
            r is None ==> forall|s: Subsystem| s.spec_to_u32() != address,
    {
        if address == 0x00 {
            Some(Subsystem::Reserved)
        } else if address == 0x1F {
            Some(Subsystem::Broadcast)
        } else if address == 0x08 {
            Some(Subsystem::ControlCockpit)
        } else if address == 0x10 {
            Some(Subsystem::HydrogenManagement)
        } else if address == 0x18 {
            Some(Subsystem::FcControllersA)
        } else if address == 0x19 {
            Some(Subsystem::FcControllersB)
        } else if address == 0x20 {
            Some(Subsystem::PowerHighPower)
        } else if address == 0x21 {
            Some(Subsystem::PowerDcDc)
        } else if address == 0x28 {
            Some(Subsystem::Batteries1)
        } else if address == 0x30 {
            Some(Subsystem::TelemetryScreen)
        } else if address == 0x31 {
            Some(Subsystem::TelemetryTelemetry)
        } else {
            None
        }
    }
}

/// Distinct subsystems have distinct addresses.
pub proof fn lemma_subsystem_addresses_distinct(a: Subsystem, b: Subsystem)
    ensures
        a.spec_to_u32() == b.spec_to_u32() ==> a == b,
{
}

/// The board module table: priority codes (critical errors 0, warnings 1, state management 2,
/// information 3) and the eight-bit module addresses.
pub proof fn lemma_documented_module_codes()
    ensures
        Priority::CriticalErrorMessage.spec_to_u32() == 0 && Priority::WarningMessage.spec_to_u32() == 1
            && Priority::StateManagementMessage.spec_to_u32() == 2 && Priority::InfoMessage.spec_to_u32() == 3,
        Subsystem::Reserved.spec_to_u32() == 0x00 && Subsystem::Broadcast.spec_to_u32() == 0x1F
            && Subsystem::ControlCockpit.spec_to_u32() == 0x08 && Subsystem::HydrogenManagement.spec_to_u32() == 0x10
            && Subsystem::FcControllersA.spec_to_u32() == 0x18 && Subsystem::FcControllersB.spec_to_u32() == 0x19
            && Subsystem::PowerHighPower.spec_to_u32() == 0x20 && Subsystem::PowerDcDc.spec_to_u32() == 0x21
            && Subsystem::Batteries1.spec_to_u32() == 0x28 && Subsystem::TelemetryScreen.spec_to_u32() == 0x30
            && Subsystem::TelemetryTelemetry.spec_to_u32() == 0x31,
{
}

} // verus!
