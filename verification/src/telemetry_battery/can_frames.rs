//! Codes the battery telemetry board puts in its frames, and the dashboard state it listens to.
use vstd::prelude::*;

verus! {

/// Errors the board reports (codes in the dashboard's 0x30xx range).
#[derive(Debug, Clone, Copy, PartialEq, Eq, Structural)]
pub enum ErrorType {
    BatteryFault,
    Overtemperature,
    PowerSwitchFault,
}

impl ErrorType {
    pub open spec fn spec_code(self) -> u16 {
        match self {
            ErrorType::BatteryFault => 0x3000,
            ErrorType::Overtemperature => 0x3001,
            ErrorType::PowerSwitchFault => 0x3002,
        }
    }

    /// The error code sent in the board's error frame.
    pub fn code(self) -> (r: u16)
        ensures
            r == self.spec_code(),
    {
        match self {
            ErrorType::BatteryFault => 0x3000,
            ErrorType::Overtemperature => 0x3001,
            ErrorType::PowerSwitchFault => 0x3002,
        }
    }
}

/// Warnings the board reports (codes in the dashboard's 0x33xx range).
#[derive(Debug, Clone, Copy, PartialEq, Eq, Structural)]
pub enum WarningType {
    LowCharge,
    TemperatureWarning,
}

impl WarningType {
    pub open spec fn spec_code(self) -> u16 {
        match self {
            WarningType::LowCharge => 0x3300,
            WarningType::TemperatureWarning => 0x3301,
        }
    }

    /// The warning code sent in the board's warning frame.
    pub fn code(self) -> (r: u16)
        ensures
            r == self.spec_code(),
    {
        match self {
            WarningType::LowCharge => 0x3300,
            WarningType::TemperatureWarning => 0x3301,
        }
    }
}

/// Distinct errors and warnings have distinct codes, and no error shares a code with a
/// warning, so the dashboard can tell every report apart.
pub proof fn lemma_report_codes_distinct(e1: ErrorType, e2: ErrorType, w1: WarningType, w2: WarningType)
    ensures
        e1.spec_code() == e2.spec_code() ==> e1 == e2,
        w1.spec_code() == w2.spec_code() ==> w1 == w2,
        e1.spec_code() != w1.spec_code(),
{
}

/// The board's own state, confirmed to the dashboard.
#[derive(Debug, Clone, Copy, PartialEq, Eq, Structural)]
pub enum CurrentState {
    Idle,
    Running,
}

impl CurrentState {
    /// Raw value in the shared state table (Idle 0, Startup 1, Running 2, Shutdown 3).
    pub open spec fn spec_raw(self) -> u8 {
        match self {
            CurrentState::Idle => 0,
            CurrentState::Running => 2,
        }
    }

    /// Raw value in the shared state table.
    pub fn raw(self) -> (r: u8)
        ensures
            r == self.spec_raw(),
    {
        match self {
            CurrentState::Idle => 0,
            CurrentState::Running => 2,
        }
    }
}

/// The dashboard's state, from its own value table (Idle 0, Starting 1, Started 2,
/// ShuttingDown 3).
#[derive(Debug, Clone, Copy, PartialEq, Eq, Structural)]
pub enum DashboardState {
    Idle,
    Starting,
    Started,
    ShuttingDown,
}

impl DashboardState {
    pub open spec fn spec_raw(self) -> u8 {
        match self {
            DashboardState::Idle => 0,
            DashboardState::Starting => 1,
            DashboardState::Started => 2,
            DashboardState::ShuttingDown => 3,
        }
    }

    /// Raw value of the state.
    #[verifier::when_used_as_spec(spec_raw)]
    pub fn raw(self) -> (r: u8)
        ensures
            r == self.spec_raw(),
    {
        match self {
            DashboardState::Idle => 0,
            DashboardState::Starting => 1,
            DashboardState::Started => 2,
            DashboardState::ShuttingDown => 3,
        }
    }

    pub open spec fn spec_from_raw(raw: u8) -> Option<DashboardState> {
        if raw == 0 {
            Some(DashboardState::Idle)
        } else if raw == 1 {
            Some(DashboardState::Starting)
        } else if raw == 2 {
            Some(DashboardState::Started)
        } else if raw == 3 {
            Some(DashboardState::ShuttingDown)
        } else {
            None
        }
    }

    /// The dashboard state with raw value `raw`, if there is one.
    #[verifier::when_used_as_spec(spec_from_raw)]
    pub fn from_raw(raw: u8) -> (r: Option<DashboardState>)
        ensures
            r == Self::spec_from_raw(raw),
            r matches Some(s) ==> s.spec_raw() == raw,
    {
        if raw == 0 {
            Some(DashboardState::Idle)
        } else if raw == 1 {
            Some(DashboardState::Starting)
        } else if raw == 2 {
            Some(DashboardState::Started)
        } else if raw == 3 {
            Some(DashboardState::ShuttingDown)
        } else {
            None
        }
    }
}

/// The multiplexer value under which the dashboard's procedure frame announces its state.
pub const STATE_MESSAGE_TYPE: u8 = 1;

/// Decodes the dashboard's state from the signals of its procedure frame: the multiplexer
/// (message type) and the current-state signal. Returns `None` when the frame is not a state
/// announcement (another message type, such as a procedure status or a command) or when the
/// state value is not in the table.
pub fn decode_dashboard_state(message_type: u8, current_state: u8) -> (r: Option<DashboardState>)
    ensures
        message_type != STATE_MESSAGE_TYPE ==> r is None,
        message_type == STATE_MESSAGE_TYPE ==> r == DashboardState::spec_from_raw(current_state),
{
    if message_type != STATE_MESSAGE_TYPE {
        return None;
    }
    DashboardState::from_raw(current_state)
}

/// The board's report codes in the dashboard's ranges: errors 0x3000 (battery), 0x3001
/// (over-temperature), 0x3002 (power switch); warnings 0x3300 (low charge), 0x3301
/// (temperature); its own states Idle 0 and Running 2 in the shared state table; the
/// dashboard's states Idle 0, Starting 1, Started 2, ShuttingDown 3; state announcements under
/// multiplexer value 1.
pub proof fn lemma_documented_frame_codes()
    ensures
        ErrorType::BatteryFault.spec_code() == 0x3000 && ErrorType::Overtemperature.spec_code() == 0x3001
            && ErrorType::PowerSwitchFault.spec_code() == 0x3002,
        WarningType::LowCharge.spec_code() == 0x3300 && WarningType::TemperatureWarning.spec_code() == 0x3301,
        CurrentState::Idle.spec_raw() == 0 && CurrentState::Running.spec_raw() == 2,
        DashboardState::Idle.spec_raw() == 0 && DashboardState::Starting.spec_raw() == 1
            && DashboardState::Started.spec_raw() == 2 && DashboardState::ShuttingDown.spec_raw() == 3,
        STATE_MESSAGE_TYPE == 1,
{
}

} // verus!
