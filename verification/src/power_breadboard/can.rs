//! What the power board sends and receives on the network bus: error and warning codes, the
//! boat's state, and the sensor groups of its data frame.
use vstd::prelude::*;

use crate::frame::{Frame, FrameId};

verus! {

/// Identifier of the high-priority error frame (HP_PCB04_E).
pub const HP_PCB04_E_ID: u32 = 207;
/// Identifier of the low-priority warning frame (LP_PCB04_E).
pub const LP_PCB04_E_ID: u32 = 1231;
/// Identifier of the procedure/state frame (LP_PCB04_P).
pub const LP_PCB04_P_ID: u32 = 1247;
/// Identifier of the sensor data frame (LP_PCB04_D).
pub const LP_PCB04_D_ID: u32 = 1263;

/// The multiplexer value under which the procedure frame carries the current state.
pub const STATE_MESSAGE_TYPE: u8 = 1;

#[derive(Debug, Clone, Copy, PartialEq, Eq, Structural)]
pub enum ErrorType {
    AuxBattTempSensorMissing,
    AuxBattTempSensorDisconnected,
    AuxBattTempTooHigh,
    DmsFault,
    IsolationFault,
}

impl ErrorType {
    pub open spec fn spec_code(self) -> u16 {
        match self {
            ErrorType::AuxBattTempSensorMissing => 0x4000,
            ErrorType::AuxBattTempSensorDisconnected => 0x4001,
            ErrorType::AuxBattTempTooHigh => 0x4002,
            ErrorType::DmsFault => 0x4003,
            ErrorType::IsolationFault => 0x4004,
        }
    }

    pub open spec fn spec_from_code(code: u16) -> Option<ErrorType> {
        if code == 0x4000 {
            Some(ErrorType::AuxBattTempSensorMissing)
        } else if code == 0x4001 {
            Some(ErrorType::AuxBattTempSensorDisconnected)
        } else if code == 0x4002 {
            Some(ErrorType::AuxBattTempTooHigh)
        } else if code == 0x4003 {
            Some(ErrorType::DmsFault)
        } else if code == 0x4004 {
            Some(ErrorType::IsolationFault)
        } else {
            None
        }
    }

    /// The code sent in the error frame.
    pub fn code(self) -> (r: u16)
        ensures
            r == self.spec_code(),
    {
        match self {
            ErrorType::AuxBattTempSensorMissing => 0x4000,
            ErrorType::AuxBattTempSensorDisconnected => 0x4001,
            ErrorType::AuxBattTempTooHigh => 0x4002,
            ErrorType::DmsFault => 0x4003,
            ErrorType::IsolationFault => 0x4004,
        }
    }

    /// The error with code `code`, if there is one.
    pub fn from_code(code: u16) -> (r: Option<ErrorType>)
        ensures
            r == Self::spec_from_code(code),
    {
        if code == 0x4000 {
            Some(ErrorType::AuxBattTempSensorMissing)
        } else if code == 0x4001 {
            Some(ErrorType::AuxBattTempSensorDisconnected)
        } else if code == 0x4002 {
            Some(ErrorType::AuxBattTempTooHigh)
        } else if code == 0x4003 {
            Some(ErrorType::DmsFault)
        } else if code == 0x4004 {
            Some(ErrorType::IsolationFault)
        } else {
            None
        }
    }
}

#[derive(Debug, Clone, Copy, PartialEq, Eq, Structural)]
pub enum WarningType {
    AuxBattTempHigh,
    RemoveDms,
    InsertDms,
}

impl WarningType {
    pub open spec fn spec_code(self) -> u16 {
        match self {
            WarningType::AuxBattTempHigh => 0x4300,
            WarningType::RemoveDms => 0x4301,
            WarningType::InsertDms => 0x4302,
        }
    }

    pub open spec fn spec_from_code(code: u16) -> Option<WarningType> {
        if code == 0x4300 {
            Some(WarningType::AuxBattTempHigh)
        } else if code == 0x4301 {
            Some(WarningType::RemoveDms)
        } else if code == 0x4302 {
            Some(WarningType::InsertDms)
        } else {
            None
        }
    }

    /// The code sent in the warning frame.
    pub fn code(self) -> (r: u16)
        ensures
            r == self.spec_code(),
    {
        match self {
            WarningType::AuxBattTempHigh => 0x4300,
            WarningType::RemoveDms => 0x4301,
            WarningType::InsertDms => 0x4302,
        }
    }

    /// The warning with code `code`, if there is one.
    pub fn from_code(code: u16) -> (r: Option<WarningType>)
        ensures
            r == Self::spec_from_code(code),
    {
        if code == 0x4300 {
            Some(WarningType::AuxBattTempHigh)
        } else if code == 0x4301 {
            Some(WarningType::RemoveDms)
        } else if code == 0x4302 {
            Some(WarningType::InsertDms)
        } else {
            None
        }
    }
}

/// State of the boat, announced on the procedure frame.
#[derive(Debug, Clone, Copy, PartialEq, Eq, Structural)]
pub enum BoatState {
    Idle,
    Startup,
    Running,
    Shutdown,
}

impl BoatState {
    pub open spec fn spec_raw(self) -> u8 {
        match self {
            BoatState::Idle => 0,
            BoatState::Startup => 1,
            BoatState::Running => 2,
            BoatState::Shutdown => 3,
        }
    }

    pub open spec fn spec_from_raw(raw: u8) -> Option<BoatState> {
        if raw == 0 {
            Some(BoatState::Idle)
        } else if raw == 1 {
            Some(BoatState::Startup)
        } else if raw == 2 {
            Some(BoatState::Running)
        } else if raw == 3 {
            Some(BoatState::Shutdown)
        } else {
            None
        }
    }

    /// The raw value sent for the state.
    pub fn raw(self) -> (r: u8)
        ensures
            r == self.spec_raw(),
    {
        match self {
            BoatState::Idle => 0,
            BoatState::Startup => 1,
            BoatState::Running => 2,
            BoatState::Shutdown => 3,
        }
    }

    /// The state with raw value `raw`, if there is one.
    pub fn from_raw(raw: u8) -> (r: Option<BoatState>)
        ensures
            r == Self::spec_from_raw(raw),
    {
        if raw == 0 {
            Some(BoatState::Idle)
        } else if raw == 1 {
            Some(BoatState::Startup)
        } else if raw == 2 {
            Some(BoatState::Running)
        } else if raw == 3 {
            Some(BoatState::Shutdown)
        } else {
            None
        }
    }
}

/// What is sent is what is received: the code of every error, warning and state reads back
/// as that error, warning and state, and a code that reads back as something is that
/// thing's code.
pub proof fn lemma_codes_roundtrip(e: ErrorType, w: WarningType, s: BoatState, code: u16, raw: u8)
    ensures
        ErrorType::spec_from_code(e.spec_code()) == Some(e),
        WarningType::spec_from_code(w.spec_code()) == Some(w),
        BoatState::spec_from_raw(s.spec_raw()) == Some(s),
        ErrorType::spec_from_code(code) matches Some(e2) ==> e2.spec_code() == code,
        WarningType::spec_from_code(code) matches Some(w2) ==> w2.spec_code() == code,
        BoatState::spec_from_raw(raw) matches Some(s2) ==> s2.spec_raw() == raw,
{
}

/// Groups of signals in the sensor data frame, selected by its multiplexer.
#[derive(Debug, Clone, Copy, PartialEq, Eq, Structural)]
pub enum SensorGroup {
    AuxBatteryTemperature,
    Contactors,
    MpptOutput,
    MpptInput,
    Imd,
}

impl SensorGroup {
    pub open spec fn spec_mux(self) -> u8 {
        match self {
            SensorGroup::AuxBatteryTemperature => 0,
            SensorGroup::Contactors => 4,
            SensorGroup::MpptOutput => 5,
            SensorGroup::MpptInput => 6,
            SensorGroup::Imd => 7,
        }
    }

    /// The group a multiplexer value selects; values 1 to 3 (fuel cell data) and above 7 are
    /// not handled.
    pub open spec fn spec_from_mux(mux: u8) -> Option<SensorGroup> {
        if mux == 0 {
            Some(SensorGroup::AuxBatteryTemperature)
        } else if mux == 4 {
            Some(SensorGroup::Contactors)
        } else if mux == 5 {
            Some(SensorGroup::MpptOutput)
        } else if mux == 6 {
            Some(SensorGroup::MpptInput)
        } else if mux == 7 {
            Some(SensorGroup::Imd)
        } else {
            None
        }
    }

    /// The multiplexer value of the group.
    pub fn mux(self) -> (r: u8)
        ensures
            r == self.spec_mux(),
    {
        match self {
            SensorGroup::AuxBatteryTemperature => 0,
            SensorGroup::Contactors => 4,
            SensorGroup::MpptOutput => 5,
            SensorGroup::MpptInput => 6,
            SensorGroup::Imd => 7,
        }
    }

    /// The group a multiplexer value selects, if it is handled.
    pub fn from_mux(mux: u8) -> (r: Option<SensorGroup>)
        ensures
            r == Self::spec_from_mux(mux),
    {
        if mux == 0 {
            Some(SensorGroup::AuxBatteryTemperature)
        } else if mux == 4 {
            Some(SensorGroup::Contactors)
        } else if mux == 5 {
            Some(SensorGroup::MpptOutput)
        } else if mux == 6 {
            Some(SensorGroup::MpptInput)
        } else if mux == 7 {
            Some(SensorGroup::Imd)
        } else {
            None
        }
    }

    /// The signals a received group is forwarded as, in order.
    pub open spec fn spec_kinds(self) -> Seq<CanDataKind> {
        match self {
            SensorGroup::AuxBatteryTemperature => seq![CanDataKind::AuxBatteryTemperature],
            SensorGroup::Contactors => seq![CanDataKind::ContactorBitset],
            SensorGroup::MpptOutput => seq![
                CanDataKind::MpptOutputVoltage,
                CanDataKind::MpptOutputCurrent,
                CanDataKind::MpptCharge,
            ],
            SensorGroup::MpptInput => seq![
                CanDataKind::MpptInputVoltage,
                CanDataKind::MpptInputCurrent,
            ],
            SensorGroup::Imd => seq![CanDataKind::ImdResistance, CanDataKind::ImdStatus],
        }
    }

    /// The signals a received group is forwarded as, in order.
    pub fn kinds(self) -> (r: Vec<CanDataKind>)
        ensures
            r@ == self.spec_kinds(),
    {
        let r = match self {
            SensorGroup::AuxBatteryTemperature => vec![CanDataKind::AuxBatteryTemperature],
            SensorGroup::Contactors => vec![CanDataKind::ContactorBitset],
            SensorGroup::MpptOutput => vec![
                CanDataKind::MpptOutputVoltage,
                CanDataKind::MpptOutputCurrent,
                CanDataKind::MpptCharge,
            ],
            SensorGroup::MpptInput => vec![
                CanDataKind::MpptInputVoltage,
                CanDataKind::MpptInputCurrent,
            ],
            SensorGroup::Imd => vec![CanDataKind::ImdResistance, CanDataKind::ImdStatus],
        };
        assert(r@ =~= self.spec_kinds());
        r
    }
}

/// The kinds of signal the board exchanges with its tasks.
#[derive(Debug, Clone, Copy, PartialEq, Eq, Structural)]
pub enum CanDataKind {
    AuxBatteryTemperature,
    ContactorBitset,
    MpptOutputVoltage,
    MpptOutputCurrent,
    MpptCharge,
    MpptInputVoltage,
    MpptInputCurrent,
    ImdResistance,
    ImdStatus,
    Temperature,
}

impl CanDataKind {
    /// The group a signal produced on the board is sent in: the measured temperature goes out
    /// as the auxiliary battery temperature; a temperature received from the bus is not sent
    /// back.
    pub open spec fn spec_group(self) -> Option<SensorGroup> {
        match self {
            CanDataKind::Temperature => Some(SensorGroup::AuxBatteryTemperature),
            CanDataKind::ContactorBitset => Some(SensorGroup::Contactors),
            CanDataKind::MpptOutputVoltage => Some(SensorGroup::MpptOutput),
            CanDataKind::MpptOutputCurrent => Some(SensorGroup::MpptOutput),
            CanDataKind::MpptCharge => Some(SensorGroup::MpptOutput),
            CanDataKind::MpptInputVoltage => Some(SensorGroup::MpptInput),
            CanDataKind::MpptInputCurrent => Some(SensorGroup::MpptInput),
            CanDataKind::ImdResistance => Some(SensorGroup::Imd),
            CanDataKind::ImdStatus => Some(SensorGroup::Imd),
            CanDataKind::AuxBatteryTemperature => None,
        }
    }

    /// The group a signal produced on the board is sent in, if it is sent.
    pub fn group(self) -> (r: Option<SensorGroup>)
        ensures
            r == self.spec_group(),
    {
        match self {
            CanDataKind::Temperature => Some(SensorGroup::AuxBatteryTemperature),
            CanDataKind::ContactorBitset => Some(SensorGroup::Contactors),
            CanDataKind::MpptOutputVoltage => Some(SensorGroup::MpptOutput),
            CanDataKind::MpptOutputCurrent => Some(SensorGroup::MpptOutput),
            CanDataKind::MpptCharge => Some(SensorGroup::MpptOutput),
            CanDataKind::MpptInputVoltage => Some(SensorGroup::MpptInput),
            CanDataKind::MpptInputCurrent => Some(SensorGroup::MpptInput),
            CanDataKind::ImdResistance => Some(SensorGroup::Imd),
            CanDataKind::ImdStatus => Some(SensorGroup::Imd),
            CanDataKind::AuxBatteryTemperature => None,
        }
    }
}

/// A signal the board sends, other than its temperature, is read back from the group it is
/// sent in as the same kind of signal; the temperature is read back as the auxiliary battery
/// temperature.
pub proof fn lemma_sent_signal_read_back(k: CanDataKind)
    ensures
        k.spec_group() matches Some(g) ==> SensorGroup::spec_from_mux(g.spec_mux()) == Some(g),
        k != CanDataKind::Temperature && k.spec_group() is Some ==> k.spec_group().unwrap().spec_kinds().contains(k),
        k == CanDataKind::Temperature ==> k.spec_group().unwrap().spec_kinds().contains(
            CanDataKind::AuxBatteryTemperature,
        ),
{
    match k.spec_group() {
        Some(g) => {
            let ks = g.spec_kinds();
            if k == CanDataKind::Temperature {
                assert(ks[0] == CanDataKind::AuxBatteryTemperature);
            } else if k == CanDataKind::MpptOutputVoltage || k == CanDataKind::MpptInputVoltage
                || k == CanDataKind::ImdResistance || k == CanDataKind::ContactorBitset {
                assert(ks[0] == k);
            } else if k == CanDataKind::MpptCharge {
                assert(ks[2] == k);
            } else {
                assert(ks[1] == k);
            }
        },
        None => {},
    }
}

/// A signal handed to the bus task, with its value: measured values are of type `V`.
#[derive(Debug, Clone, Copy, PartialEq)]
pub enum CanData<V> {
    AuxBatteryTemperature(V),
    ContactorBitset(u8),
    MpptOutputVoltage(V),
    MpptOutputCurrent(V),
    MpptCharge(u8),
    MpptInputVoltage(V),
    MpptInputCurrent(V),
    ImdResistance(V),
    ImdStatus(bool),
    /// The auxiliary battery temperature measured on the board, in sixteenths of a degree.
    Temperature(u16),
}

impl<V> CanData<V> {
    pub open spec fn spec_kind(self) -> CanDataKind {
        match self {
            CanData::AuxBatteryTemperature(_) => CanDataKind::AuxBatteryTemperature,
            CanData::ContactorBitset(_) => CanDataKind::ContactorBitset,
            CanData::MpptOutputVoltage(_) => CanDataKind::MpptOutputVoltage,
            CanData::MpptOutputCurrent(_) => CanDataKind::MpptOutputCurrent,
            CanData::MpptCharge(_) => CanDataKind::MpptCharge,
            CanData::MpptInputVoltage(_) => CanDataKind::MpptInputVoltage,
            CanData::MpptInputCurrent(_) => CanDataKind::MpptInputCurrent,
            CanData::ImdResistance(_) => CanDataKind::ImdResistance,
            CanData::ImdStatus(_) => CanDataKind::ImdStatus,
            CanData::Temperature(_) => CanDataKind::Temperature,
        }
    }
}

/// The last value of each signal of the groups that carry several signals, so that every
/// send re-transmits the whole group instead of zeroing the signals not just updated.
#[derive(Debug, Clone, Copy, PartialEq)]
pub struct SensorCache<V> {
    pub mppt_output_voltage: V,
    pub mppt_output_current: V,
    pub mppt_charge: u8,
    pub mppt_input_voltage: V,
    pub mppt_input_current: V,
    pub imd_resistance: V,
    pub imd_status: bool,
}

impl<V: Copy> SensorCache<V> {
    /// A cache whose measured values are all `zero`, with no charge and no IMD fault.
    pub fn new(zero: V) -> (r: Self)
        ensures
            r == (SensorCache {
                mppt_output_voltage: zero,
                mppt_output_current: zero,
                mppt_charge: 0,
                mppt_input_voltage: zero,
                mppt_input_current: zero,
                imd_resistance: zero,
                imd_status: false,
            }),
    {
        SensorCache {
            mppt_output_voltage: zero,
            mppt_output_current: zero,
            mppt_charge: 0,
            mppt_input_voltage: zero,
            mppt_input_current: zero,
            imd_resistance: zero,
            imd_status: false,
        }
    }
}

/// A sensor group to send in the data frame, with the values of all its signals.
#[derive(Debug, Clone, Copy, PartialEq)]
pub enum Outbound<V> {
    /// The auxiliary battery temperature, in sixteenths of a degree.
    AuxBatteryTemperature(u16),
    Contactors(u8),
    MpptOutput { voltage: V, current: V, charge: u8 },
    MpptInput { voltage: V, current: V },
    Imd { resistance: V, status: bool },
}

impl<V> Outbound<V> {
    /// The group the frame carries.
    pub open spec fn spec_group(self) -> SensorGroup {
        match self {
            Outbound::AuxBatteryTemperature(_) => SensorGroup::AuxBatteryTemperature,
            Outbound::Contactors(_) => SensorGroup::Contactors,
            Outbound::MpptOutput { .. } => SensorGroup::MpptOutput,
            Outbound::MpptInput { .. } => SensorGroup::MpptInput,
            Outbound::Imd { .. } => SensorGroup::Imd,
        }
    }
}

/// The cache after signal `data`: the signal's value replaces the cached one.
pub open spec fn spec_update<V>(c: SensorCache<V>, data: CanData<V>) -> SensorCache<V> {
    match data {
        CanData::MpptOutputVoltage(v) => SensorCache { mppt_output_voltage: v, ..c },
        CanData::MpptOutputCurrent(v) => SensorCache { mppt_output_current: v, ..c },
        CanData::MpptCharge(v) => SensorCache { mppt_charge: v, ..c },
        CanData::MpptInputVoltage(v) => SensorCache { mppt_input_voltage: v, ..c },
        CanData::MpptInputCurrent(v) => SensorCache { mppt_input_current: v, ..c },
        CanData::ImdResistance(v) => SensorCache { imd_resistance: v, ..c },
        CanData::ImdStatus(v) => SensorCache { imd_status: v, ..c },
        _ => c,
    }
}

/// What is sent for signal `data`, with cache `c` already updated: the whole group of the
/// signal, its other signals taken from the cache; nothing for a temperature received from
/// the bus.
pub open spec fn spec_outbound<V>(c: SensorCache<V>, data: CanData<V>) -> Option<Outbound<V>> {
    match data {
        CanData::Temperature(raw) => Some(Outbound::AuxBatteryTemperature(raw)),
        CanData::ContactorBitset(bits) => Some(Outbound::Contactors(bits)),
        CanData::MpptOutputVoltage(_) | CanData::MpptOutputCurrent(_) | CanData::MpptCharge(_) => Some(
            Outbound::MpptOutput {
                voltage: c.mppt_output_voltage,
                current: c.mppt_output_current,
                charge: c.mppt_charge,
            },
        ),
        CanData::MpptInputVoltage(_) | CanData::MpptInputCurrent(_) => Some(
            Outbound::MpptInput { voltage: c.mppt_input_voltage, current: c.mppt_input_current },
        ),
        CanData::ImdResistance(_) | CanData::ImdStatus(_) => Some(
            Outbound::Imd { resistance: c.imd_resistance, status: c.imd_status },
        ),
        CanData::AuxBatteryTemperature(_) => None,
    }
}

/// Takes a signal handed to the bus task: updates the cache, and returns the group to send,
/// if any.
pub fn send_data<V: Copy>(cache: &mut SensorCache<V>, data: CanData<V>) -> (r: Option<Outbound<V>>)
    ensures
        *final(cache) == spec_update(*old(cache), data),
        r == spec_outbound(*final(cache), data),
{
    match data {
        CanData::Temperature(raw) => Some(Outbound::AuxBatteryTemperature(raw)),
        CanData::ContactorBitset(bits) => Some(Outbound::Contactors(bits)),
        CanData::MpptOutputVoltage(v) => {
            cache.mppt_output_voltage = v;
            Some(Outbound::MpptOutput {
                voltage: cache.mppt_output_voltage,
                current: cache.mppt_output_current,
                charge: cache.mppt_charge,
            })
        },
        CanData::MpptOutputCurrent(v) => {
            cache.mppt_output_current = v;
            Some(Outbound::MpptOutput {
                voltage: cache.mppt_output_voltage,
                current: cache.mppt_output_current,
                charge: cache.mppt_charge,
            })
        },
        CanData::MpptCharge(v) => {
            cache.mppt_charge = v;
            Some(Outbound::MpptOutput {
                voltage: cache.mppt_output_voltage,
                current: cache.mppt_output_current,
                charge: cache.mppt_charge,
            })
        },
        CanData::MpptInputVoltage(v) => {
            cache.mppt_input_voltage = v;
            Some(Outbound::MpptInput { voltage: cache.mppt_input_voltage, current: cache.mppt_input_current })
        },
        CanData::MpptInputCurrent(v) => {
            cache.mppt_input_current = v;
            Some(Outbound::MpptInput { voltage: cache.mppt_input_voltage, current: cache.mppt_input_current })
        },
        CanData::ImdResistance(v) => {
            cache.imd_resistance = v;
            Some(Outbound::Imd { resistance: cache.imd_resistance, status: cache.imd_status })
        },
        CanData::ImdStatus(v) => {
            cache.imd_status = v;
            Some(Outbound::Imd { resistance: cache.imd_resistance, status: cache.imd_status })
        },
        CanData::AuxBatteryTemperature(_) => None,
    }
}

/// Each signal goes out in the group `CanDataKind::group` names for it, carrying its new value,
/// and the group's other signals keep their last values: an update never zeroes a signal it
/// does not carry.
pub proof fn lemma_send_keeps_other_signals<V>(c: SensorCache<V>, data: CanData<V>)
    ensures
        spec_outbound(spec_update(c, data), data) matches Some(o) ==> Some(o.spec_group())
            == data.spec_kind().spec_group(),
        spec_outbound(spec_update(c, data), data) is None <==> data.spec_kind().spec_group() is None,
        data matches CanData::MpptOutputVoltage(v) ==> spec_outbound(spec_update(c, data), data)
            == Some(Outbound::MpptOutput { voltage: v, current: c.mppt_output_current, charge: c.mppt_charge }),
        data matches CanData::MpptCharge(v) ==> spec_outbound(spec_update(c, data), data)
            == Some(Outbound::<V>::MpptOutput { voltage: c.mppt_output_voltage, current: c.mppt_output_current, charge: v }),
        data matches CanData::MpptInputCurrent(v) ==> spec_outbound(spec_update(c, data), data)
            == Some(Outbound::MpptInput { voltage: c.mppt_input_voltage, current: v }),
        data matches CanData::ImdStatus(v) ==> spec_outbound(spec_update(c, data), data)
            == Some(Outbound::<V>::Imd { resistance: c.imd_resistance, status: v }),
{
}

/// The messages of the high-power unit the board listens to, told apart by identifier.
#[derive(Debug, Clone, Copy, PartialEq, Eq, Structural)]
pub enum MessageKind {
    Error,
    Warning,
    Procedure,
    SensorData,
}

/// The message a frame with identifier `id` carries: only standard identifiers of the four
/// messages count.
pub open spec fn spec_message_kind(id: FrameId) -> Option<MessageKind> {
    match id {
        FrameId::Standard(raw) => if raw as u32 == HP_PCB04_E_ID {
            Some(MessageKind::Error)
        } else if raw as u32 == LP_PCB04_E_ID {
            Some(MessageKind::Warning)
        } else if raw as u32 == LP_PCB04_P_ID {
            Some(MessageKind::Procedure)
        } else if raw as u32 == LP_PCB04_D_ID {
            Some(MessageKind::SensorData)
        } else {
            None
        },
        FrameId::Extended(_) => None,
    }
}

/// The message a received frame carries, if the board listens to it.
pub fn message_kind(frame: &Frame) -> (r: Option<MessageKind>)
    ensures
        r == spec_message_kind(frame.spec_id()),
{
    match frame.id() {
        FrameId::Standard(raw) => {
            let id = raw as u32;
            if id == HP_PCB04_E_ID {
                Some(MessageKind::Error)
            } else if id == LP_PCB04_E_ID {
                Some(MessageKind::Warning)
            } else if id == LP_PCB04_P_ID {
                Some(MessageKind::Procedure)
            } else if id == LP_PCB04_D_ID {
                Some(MessageKind::SensorData)
            } else {
                None
            }
        },
        FrameId::Extended(_) => None,
    }
}

/// Signals decoded from a frame received on the network bus (by the frame's identifier).
#[derive(Debug, Clone, Copy, PartialEq, Eq, Structural)]
pub enum Received {
    /// An error frame, with its error code.
    Error(u16),
    /// A warning frame, with its warning code.
    Warning(u16),
    /// A procedure frame, with its multiplexer and current-state signal.
    Procedure { message_type: u8, current_state: u8 },
    /// A sensor data frame, with its multiplexer.
    SensorData(u8),
}

/// What the board does with a received frame.
#[derive(Debug, Clone, Copy, PartialEq, Eq, Structural)]
pub enum Inbound {
    /// Forward the error to the error channel.
    Error(ErrorType),
    /// Forward the warning to the warning channel.
    Warning(WarningType),
    /// Publish the boat's new state.
    State(BoatState),
    /// Forward the signals of the group to the data channel.
    Sensor(SensorGroup),
}

/// The reaction to a received frame, if any: known error and warning codes are forwarded; a
/// state announcement (multiplexer 1) with a known state is published; a handled sensor group
/// is forwarded. Anything else is ignored.
pub open spec fn spec_inbound(received: Received) -> Option<Inbound> {
    match received {
        Received::Error(code) => match ErrorType::spec_from_code(code) {
            Some(e) => Some(Inbound::Error(e)),
            None => None,
        },
        Received::Warning(code) => match WarningType::spec_from_code(code) {
            Some(w) => Some(Inbound::Warning(w)),
            None => None,
        },
        Received::Procedure { message_type, current_state } => if message_type
            == STATE_MESSAGE_TYPE {
            match BoatState::spec_from_raw(current_state) {
                Some(s) => Some(Inbound::State(s)),
                None => None,
            }
        } else {
            None
        },
        Received::SensorData(mux) => match SensorGroup::spec_from_mux(mux) {
            Some(g) => Some(Inbound::Sensor(g)),
            None => None,
        },
    }
}

/// The reaction to a received frame, if any.
pub fn receive_frame(received: Received) -> (r: Option<Inbound>)
    ensures
        r == spec_inbound(received),
{
    match received {
        Received::Error(code) => match ErrorType::from_code(code) {
            Some(e) => Some(Inbound::Error(e)),
            None => None,
        },
        Received::Warning(code) => match WarningType::from_code(code) {
            Some(w) => Some(Inbound::Warning(w)),
            None => None,
        },
        Received::Procedure { message_type, current_state } => {
            if message_type == STATE_MESSAGE_TYPE {
                match BoatState::from_raw(current_state) {
                    Some(s) => Some(Inbound::State(s)),
                    None => None,
                }
            } else {
                None
            }
        },
        Received::SensorData(mux) => match SensorGroup::from_mux(mux) {
            Some(g) => Some(Inbound::Sensor(g)),
            None => None,
        },
    }
}

/// The power board's frames and codes: identifiers 207 (high-priority errors), 1231
/// (warnings), 1247 (procedure and state), 1263 (sensor data); errors 0x4000 to 0x4004 and
/// warnings 0x4300 to 0x4302 in the order they are listed; the shared state table Idle 0,
/// Startup 1, Running 2, Shutdown 3, announced under multiplexer value 1; the sensor groups
/// under multiplexer values 0 (auxiliary battery temperature), 4 (contactors), 5 (MPPT output),
/// 6 (MPPT input), 7 (IMD).
pub proof fn lemma_documented_power_codes()
    ensures
        HP_PCB04_E_ID == 207 && LP_PCB04_E_ID == 1231 && LP_PCB04_P_ID == 1247 && LP_PCB04_D_ID == 1263,
        STATE_MESSAGE_TYPE == 1,
        ErrorType::AuxBattTempSensorMissing.spec_code() == 0x4000
            && ErrorType::AuxBattTempSensorDisconnected.spec_code() == 0x4001
            && ErrorType::AuxBattTempTooHigh.spec_code() == 0x4002 && ErrorType::DmsFault.spec_code() == 0x4003
            && ErrorType::IsolationFault.spec_code() == 0x4004,
        WarningType::AuxBattTempHigh.spec_code() == 0x4300 && WarningType::RemoveDms.spec_code() == 0x4301
            && WarningType::InsertDms.spec_code() == 0x4302,
        BoatState::Idle.spec_raw() == 0 && BoatState::Startup.spec_raw() == 1 && BoatState::Running.spec_raw() == 2
            && BoatState::Shutdown.spec_raw() == 3,
        SensorGroup::AuxBatteryTemperature.spec_mux() == 0 && SensorGroup::Contactors.spec_mux() == 4
            && SensorGroup::MpptOutput.spec_mux() == 5 && SensorGroup::MpptInput.spec_mux() == 6
            && SensorGroup::Imd.spec_mux() == 7,
        SensorGroup::MpptOutput.spec_kinds() == seq![
            CanDataKind::MpptOutputVoltage,
            CanDataKind::MpptOutputCurrent,
            CanDataKind::MpptCharge,
        ],
        SensorGroup::MpptInput.spec_kinds() == seq![CanDataKind::MpptInputVoltage, CanDataKind::MpptInputCurrent],
        SensorGroup::Imd.spec_kinds() == seq![CanDataKind::ImdResistance, CanDataKind::ImdStatus],
{
}

/// A received frame is acted on only when it carries a known code, a state announcement or a
/// handled sensor group, and then the action carries exactly what was received.
pub proof fn lemma_inbound_carries_what_was_received(received: Received)
    ensures
        spec_inbound(received) matches Some(Inbound::Error(e)) ==> received == Received::Error(e.spec_code()),
        spec_inbound(received) matches Some(Inbound::Warning(w)) ==> received == Received::Warning(w.spec_code()),
        spec_inbound(received) matches Some(Inbound::State(s)) ==> received == (Received::Procedure {
            message_type: 1,
            current_state: s.spec_raw(),
        }),
        spec_inbound(received) matches Some(Inbound::Sensor(g)) ==> received == Received::SensorData(g.spec_mux()),
        received matches Received::Error(code) ==> (spec_inbound(received) is None <==> (code < 0x4000 || code > 0x4004)),
        received matches Received::Warning(code) ==> (spec_inbound(received) is None <==> (code < 0x4300 || code > 0x4302)),
        received matches Received::SensorData(mux) ==> (spec_inbound(received) is None <==> (1 <= mux <= 3 || mux > 7)),
{
}

} // verus!
