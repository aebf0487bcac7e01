//! Field values of the Exocet CAN identifier and payload.
use vstd::prelude::*;

verus! {

/// Message priority (two bits of the identifier; a lower code wins arbitration).
#[derive(Debug, Copy, Clone, PartialEq, Eq, Structural)]
pub enum Priority {
    InfoMessage,
    StateManagementMessage,
    WarningMessage,
    CriticalErrorMessage,
}

impl Priority {
    pub open spec fn spec_code(self) -> u8 {
        match self {
            Priority::InfoMessage => 0b11,
            Priority::StateManagementMessage => 0b10,
            Priority::WarningMessage => 0b01,
            Priority::CriticalErrorMessage => 0b00,
        }
    }

    /// The two-bit code of the priority.
    #[verifier::when_used_as_spec(spec_code)]
    pub fn code(self) -> (r: u8)
        ensures
            r == self.spec_code(),
            r <= 0b11,
    {
        match self {
            Priority::InfoMessage => 0b11,
            Priority::StateManagementMessage => 0b10,
            Priority::WarningMessage => 0b01,
            Priority::CriticalErrorMessage => 0b00,
        }
    }

    pub open spec fn spec_from_code(code: u8) -> Priority
        recommends
            code <= 0b11,
    {
        if code == 0b11 {
            Priority::InfoMessage
        } else if code == 0b10 {
            Priority::StateManagementMessage
        } else if code == 0b01 {
            Priority::WarningMessage
        } else {
            Priority::CriticalErrorMessage
        }
    }

    /// The priority whose code is `code`.
    #[verifier::when_used_as_spec(spec_from_code)]
    pub fn from_code(code: u8) -> (r: Priority)
        requires
            code <= 0b11,
        ensures
            r == Self::spec_from_code(code),
            r.spec_code() == code,
    {
        if code == 0b11 {
            Priority::InfoMessage
        } else if code == 0b10 {
            Priority::StateManagementMessage
        } else if code == 0b01 {
            Priority::WarningMessage
        } else {
            Priority::CriticalErrorMessage
        }
    }
}

/// Address of a subsystem on the bus (five bits of the identifier).
#[derive(Debug, Copy, Clone, PartialEq, Eq, Structural)]
pub enum Subsystem {
    Reserved,
    Broadcast,
    StateControl,
    HydrogenManagement,
    FcControllers,
    Power,
    Batteries,
    Telemetry,
}

impl Subsystem {
    pub open spec fn spec_code(self) -> u8 {
        match self {
            Subsystem::Reserved => 0x00,
            Subsystem::Broadcast => 0x1F,
            Subsystem::StateControl => 0x01,
            Subsystem::HydrogenManagement => 0x02,
            Subsystem::FcControllers => 0x03,
            Subsystem::Power => 0x04,
            Subsystem::Batteries => 0x05,
            Subsystem::Telemetry => 0x06,
        }
    }

    /// The address of the subsystem.
    #[verifier::when_used_as_spec(spec_code)]
    pub fn code(self) -> (r: u8)
        ensures
            r == self.spec_code(),
            r <= 0x1F,
    {
        match self {
            Subsystem::Reserved => 0x00,
            Subsystem::Broadcast => 0x1F,
            Subsystem::StateControl => 0x01,
            Subsystem::HydrogenManagement => 0x02,
            Subsystem::FcControllers => 0x03,
            Subsystem::Power => 0x04,
            Subsystem::Batteries => 0x05,
            Subsystem::Telemetry => 0x06,
        }
    }

    pub open spec fn spec_from_code(code: u8) -> Option<Subsystem> {
        if code == 0x00 {
            Some(Subsystem::Reserved)
        } else if code == 0x1F {
            Some(Subsystem::Broadcast)
        } else if code == 0x01 {
            Some(Subsystem::StateControl)
        } else if code == 0x02 {
            Some(Subsystem::HydrogenManagement)
        } else if code == 0x03 {
            Some(Subsystem::FcControllers)
        } else if code == 0x04 {
            Some(Subsystem::Power)
        } else if code == 0x05 {
            Some(Subsystem::Batteries)
        } else if code == 0x06 {
            Some(Subsystem::Telemetry)
        } else {
            None
        }
    }

    /// The subsystem with address `code`, if there is one.
    #[verifier::when_used_as_spec(spec_from_code)]
    pub fn from_code(code: u8) -> (r: Option<Subsystem>)
        ensures
            r == Self::spec_from_code(code),
            r matches Some(s) ==> s.spec_code() == code,
            r is None ==> forall|s: Subsystem| s.spec_code() != code,
    {
        if code == 0x00 {
            Some(Subsystem::Reserved)
        } else if code == 0x1F {
            Some(Subsystem::Broadcast)
        } else if code == 0x01 {
            Some(Subsystem::StateControl)
        } else if code == 0x02 {
            Some(Subsystem::HydrogenManagement)
        } else if code == 0x03 {
            Some(Subsystem::FcControllers)
        } else if code == 0x04 {
            Some(Subsystem::Power)
        } else if code == 0x05 {
            Some(Subsystem::Batteries)
        } else if code == 0x06 {
            Some(Subsystem::Telemetry)
        } else {
            None
        }
    }
}

#[derive(Debug, Copy, Clone, PartialEq, Eq, Structural)]
pub enum StateSubtype {
    StateAnnouncement,
    RequestConfirmation,
    StateRequest,
    StateConfirmation,
}

impl StateSubtype {
    pub open spec fn spec_code(self) -> u8 {
        match self {
            StateSubtype::StateAnnouncement => 0x00,
            StateSubtype::RequestConfirmation => 0x01,
            StateSubtype::StateRequest => 0x02,
            StateSubtype::StateConfirmation => 0x03,
        }
    }
}

#[derive(Debug, Copy, Clone, PartialEq, Eq, Structural)]
pub enum PingSubtype {
    PresenceRequest,
    PresenceAnnouncement,
}

impl PingSubtype {
    pub open spec fn spec_code(self) -> u8 {
        match self {
            PingSubtype::PresenceRequest => 0x00,
            PingSubtype::PresenceAnnouncement => 0x02,
        }
    }
}

#[derive(Debug, Copy, Clone, PartialEq, Eq, Structural)]
pub enum DataSubtype {
    DataRequest,
    DataAnnouncement,
}

impl DataSubtype {
    pub open spec fn spec_code(self) -> u8 {
        match self {
            DataSubtype::DataRequest => 0x00,
            DataSubtype::DataAnnouncement => 0x02,
        }
    }
}

#[derive(Debug, Copy, Clone, PartialEq, Eq, Structural)]
pub enum ProcedureSubtype {
    ProcedureControl,
    ProcedureRequest,
    ProcedureResponse,
}

impl ProcedureSubtype {
    pub open spec fn spec_code(self) -> u8 {
        match self {
            ProcedureSubtype::ProcedureControl => 0x00,
            ProcedureSubtype::ProcedureRequest => 0x01,
            ProcedureSubtype::ProcedureResponse => 0x02,
        }
    }
}

/// Kind of an Exocet frame, with its subtype.
#[derive(Debug, Copy, Clone, PartialEq, Eq, Structural)]
pub enum FrameType {
    State(StateSubtype),
    Ping(PingSubtype),
    Data(DataSubtype),
    Procedure(ProcedureSubtype),
}

impl FrameType {
    /// The type code: the position of the frame type in the declaration (State, Ping, Data,
    /// Procedure).
    pub open spec fn spec_type_code(&self) -> u8 {
        match self {
            FrameType::State(_) => 0,
            FrameType::Ping(_) => 1,
            FrameType::Data(_) => 2,
            FrameType::Procedure(_) => 3,
        }
    }

    /// The subtype code, whatever the frame type.
    pub open spec fn spec_subtype_code(&self) -> u8 {
        match self {
            FrameType::State(sub) => sub.spec_code(),
            FrameType::Ping(sub) => sub.spec_code(),
            FrameType::Data(sub) => sub.spec_code(),
            FrameType::Procedure(sub) => sub.spec_code(),
        }
    }

    pub fn type_code(&self) -> (r: u8)
        ensures
            r == self.spec_type_code(),
    {
        match self {
            FrameType::State(_) => 0,
            FrameType::Ping(_) => 1,
            FrameType::Data(_) => 2,
            FrameType::Procedure(_) => 3,
        }
    }

    pub fn subtype_code(&self) -> (r: u8)
        ensures
            r == self.spec_subtype_code(),
    {
        match self {
            FrameType::State(sub) => match sub {
                StateSubtype::StateAnnouncement => 0x00,
                StateSubtype::RequestConfirmation => 0x01,
                StateSubtype::StateRequest => 0x02,
                StateSubtype::StateConfirmation => 0x03,
            },
            FrameType::Ping(sub) => match sub {
                PingSubtype::PresenceRequest => 0x00,
                PingSubtype::PresenceAnnouncement => 0x02,
            },
            FrameType::Data(sub) => match sub {
                DataSubtype::DataRequest => 0x00,
                DataSubtype::DataAnnouncement => 0x02,
            },
            FrameType::Procedure(sub) => match sub {
                ProcedureSubtype::ProcedureControl => 0x00,
                ProcedureSubtype::ProcedureRequest => 0x01,
                ProcedureSubtype::ProcedureResponse => 0x02,
            },
        }
    }
}

/// Two frame types with the same type and subtype codes are the same frame type.
pub proof fn lemma_frame_type_codes_identify(a: FrameType, b: FrameType)
    requires
        a.spec_type_code() == b.spec_type_code(),
        a.spec_subtype_code() == b.spec_subtype_code(),
    ensures
        a == b,
{
}

/// State of a procedure, as carried by a procedure response.
#[derive(Debug, Copy, Clone, PartialEq, Eq, Structural)]
pub enum ProcedureState {
    Ready,
    Running,
    Suspended,
    Terminated,
}

impl ProcedureState {
    pub open spec fn spec_code(self) -> u8 {
        match self {
            ProcedureState::Ready => 0x00,
            ProcedureState::Running => 0x01,
            ProcedureState::Suspended => 0x02,
            ProcedureState::Terminated => 0x03,
        }
    }

    /// The code of the state.
    pub fn code(self) -> (r: u8)
        ensures
            r == self.spec_code(),
    {
        match self {
            ProcedureState::Ready => 0x00,
            ProcedureState::Running => 0x01,
            ProcedureState::Suspended => 0x02,
            ProcedureState::Terminated => 0x03,
        }
    }
}

/// Action requested by a procedure control frame (its last byte).
#[derive(Debug, Copy, Clone, PartialEq, Eq, Structural)]
pub enum ProcedureAction {
    Start,
    Suspend,
    Resume,
    Terminate,
}

impl ProcedureAction {
    pub open spec fn spec_code(self) -> u8 {
        match self {
            ProcedureAction::Start => 0x00,
            ProcedureAction::Suspend => 0x01,
            ProcedureAction::Resume => 0x02,
            ProcedureAction::Terminate => 0x03,
        }
    }

    /// The code of the action.
    pub fn code(self) -> (r: u8)
        ensures
            r == self.spec_code(),
    {
        match self {
            ProcedureAction::Start => 0x00,
            ProcedureAction::Suspend => 0x01,
            ProcedureAction::Resume => 0x02,
            ProcedureAction::Terminate => 0x03,
        }
    }
}

/// The protocol's field values: priority codes (a lower code wins arbitration: critical errors
/// 0, warnings 1, state management 2, information 3), subsystem addresses (reserved 0x00,
/// state control 0x01, hydrogen management 0x02, fuel cell controllers 0x03, power 0x04,
/// batteries 0x05, telemetry 0x06, broadcast 0x1F), and frame subtypes.
pub proof fn lemma_documented_codes()
    ensures
        Priority::CriticalErrorMessage.spec_code() == 0 && Priority::WarningMessage.spec_code() == 1
            && Priority::StateManagementMessage.spec_code() == 2 && Priority::InfoMessage.spec_code() == 3,
        Subsystem::Reserved.spec_code() == 0x00 && Subsystem::StateControl.spec_code() == 0x01
            && Subsystem::HydrogenManagement.spec_code() == 0x02 && Subsystem::FcControllers.spec_code() == 0x03
            && Subsystem::Power.spec_code() == 0x04 && Subsystem::Batteries.spec_code() == 0x05
            && Subsystem::Telemetry.spec_code() == 0x06 && Subsystem::Broadcast.spec_code() == 0x1F,
        StateSubtype::StateAnnouncement.spec_code() == 0 && StateSubtype::RequestConfirmation.spec_code() == 1
            && StateSubtype::StateRequest.spec_code() == 2 && StateSubtype::StateConfirmation.spec_code() == 3,
        PingSubtype::PresenceRequest.spec_code() == 0 && PingSubtype::PresenceAnnouncement.spec_code() == 2,
        DataSubtype::DataRequest.spec_code() == 0 && DataSubtype::DataAnnouncement.spec_code() == 2,
        ProcedureSubtype::ProcedureControl.spec_code() == 0 && ProcedureSubtype::ProcedureRequest.spec_code() == 1
            && ProcedureSubtype::ProcedureResponse.spec_code() == 2,
        ProcedureState::Ready.spec_code() == 0 && ProcedureState::Running.spec_code() == 1
            && ProcedureState::Suspended.spec_code() == 2 && ProcedureState::Terminated.spec_code() == 3,
        ProcedureAction::Start.spec_code() == 0 && ProcedureAction::Suspend.spec_code() == 1
            && ProcedureAction::Resume.spec_code() == 2 && ProcedureAction::Terminate.spec_code() == 3,
        FrameType::State(StateSubtype::StateAnnouncement).spec_type_code() == 0
            && FrameType::Ping(PingSubtype::PresenceRequest).spec_type_code() == 1
            && FrameType::Data(DataSubtype::DataRequest).spec_type_code() == 2
            && FrameType::Procedure(ProcedureSubtype::ProcedureControl).spec_type_code() == 3,
{
}

/// Reading an address back gives the subsystem that has it, for every address: an address
/// names a subsystem exactly when some subsystem has it. A priority code reads back as its
/// priority.
pub proof fn lemma_address_lookup(code: u8, s: Subsystem, p: Priority)
    ensures
        Subsystem::spec_from_code(s.spec_code()) == Some(s),
        Subsystem::spec_from_code(code) matches Some(t) ==> t.spec_code() == code,
        Subsystem::spec_from_code(code) is None <==> (code != 0x00 && code != 0x01 && code != 0x02
            && code != 0x03 && code != 0x04 && code != 0x05 && code != 0x06 && code != 0x1F),
        Priority::spec_from_code(p.spec_code()) == p,
{
}

} // verus!
