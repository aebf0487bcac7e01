//! Exocet frames: payload encoding per frame type, and the layout of the standard identifier
//! (priority in bits 9-10, subsystem address in bits 4-8, local priority in bit 3, module in
//! bits 0-2).
use vstd::prelude::*;

use super::enums::{
    DataSubtype, FrameType, PingSubtype, Priority, ProcedureSubtype, StateSubtype, Subsystem,
};
use super::errors::CanError;
use crate::frame::{Frame, FrameId, MAX_DATA_LEN};

verus! {

/// Largest module number an identifier may carry.
pub const MAX_MODULE: u8 = 0b11;

/// Largest state number a state announcement may carry.
pub const MAX_ANNOUNCED_STATE: u64 = 4;

/// Largest procedure state or action code.
pub const MAX_PROCEDURE_CODE: u64 = 3;

/// The addresses a request may target.
pub open spec fn is_valid_address(address: u8) -> bool {
    address == 0x00 || address == 0xFF || address == 0x08 || address == 0x10 || address == 0x18
        || address == 0x20 || address == 0x28 || address == 0x29
}

/// Whether a request may target `address`.
pub fn valid_address(address: u8) -> (r: bool)
    ensures
        r == is_valid_address(address),
{
    address == 0x00 || address == 0xFF || address == 0x08 || address == 0x10 || address == 0x18
        || address == 0x20 || address == 0x28 || address == 0x29
}

/// A payload of eight zero bytes.
pub open spec fn zero_payload() -> Seq<u8> {
    seq![0u8, 0u8, 0u8, 0u8, 0u8, 0u8, 0u8, 0u8]
}

/// A payload whose first byte is `b`, the others zero.
pub open spec fn first_byte_payload(b: u8) -> Seq<u8> {
    seq![b, 0u8, 0u8, 0u8, 0u8, 0u8, 0u8, 0u8]
}

/// The eight bytes of `x`, most significant first.
pub open spec fn be_bytes(x: u64) -> Seq<u8> {
    seq![
        (x >> 56u64) as u8,
        (x >> 48u64) as u8,
        (x >> 40u64) as u8,
        (x >> 32u64) as u8,
        (x >> 24u64) as u8,
        (x >> 16u64) as u8,
        (x >> 8u64) as u8,
        x as u8,
    ]
}

/// `data` followed by zero bytes, up to eight bytes.
pub open spec fn padded_payload(data: Seq<u8>) -> Seq<u8> {
    Seq::new(8, |i: int| if i < data.len() { data[i] } else { 0u8 })
}

/// Whether `new` accepts `data` for a frame of type `frame_type`.
pub open spec fn accepts(frame_type: FrameType, data: u64) -> bool {
    match frame_type {
        FrameType::State(StateSubtype::StateAnnouncement) => data <= MAX_ANNOUNCED_STATE,
        FrameType::State(StateSubtype::RequestConfirmation) => is_valid_address(data as u8),
        FrameType::Ping(PingSubtype::PresenceRequest) => is_valid_address(data as u8),
        FrameType::Data(DataSubtype::DataRequest) => is_valid_address(data as u8),
        FrameType::Procedure(ProcedureSubtype::ProcedureControl) => (data & 0xFF)
            <= MAX_PROCEDURE_CODE,
        FrameType::Procedure(ProcedureSubtype::ProcedureResponse) => data <= MAX_PROCEDURE_CODE,
        _ => true,
    }
}

/// The payload `new` builds for `data` in a frame of type `frame_type`: the low byte of `data`
/// for announcements and requests that carry a value, all eight bytes of `data` (big-endian)
/// for procedure frames, zeros otherwise.
pub open spec fn encoded_payload(frame_type: FrameType, data: u64) -> Seq<u8> {
    match frame_type {
        FrameType::State(StateSubtype::StateAnnouncement) => first_byte_payload(data as u8),
        FrameType::State(StateSubtype::RequestConfirmation) => first_byte_payload(data as u8),
        FrameType::Ping(PingSubtype::PresenceRequest) => first_byte_payload(data as u8),
        FrameType::Data(DataSubtype::DataRequest) => first_byte_payload(data as u8),
        FrameType::Procedure(_) => be_bytes(data),
        _ => zero_payload(),
    }
}

/// The standard identifier of a frame: priority code in bits 9-10, subsystem address in bits
/// 4-8, local priority in bit 3, module in bits 0-2.
pub open spec fn encoded_id(priority: Priority, subsystem: Subsystem, local_priority: bool, module: u8) -> u16 {
    ((priority.spec_code() as u16) << 9u16) | ((subsystem.spec_code() as u16) << 4u16) | ((
    if local_priority {
        1u16
    } else {
        0u16
    }) << 3u16) | ((module & 0b111u8) as u16)
}

/// Priority code carried by identifier `id`.
pub open spec fn id_priority_code(id: u16) -> u8 {
    ((id >> 9u16) & 0b11u16) as u8
}

/// Subsystem address carried by identifier `id`.
pub open spec fn id_address(id: u16) -> u8 {
    ((id >> 4u16) & 0b1_1111u16) as u8
}

/// Local-priority bit carried by identifier `id`.
pub open spec fn id_local_priority(id: u16) -> bool {
    (id >> 3u16) & 1u16 != 0
}

/// Module carried by identifier `id`.
pub open spec fn id_module(id: u16) -> u8 {
    (id & 0b111u16) as u8
}

/// The payload of a frame of type `frame_type` carrying `data`. Fails with `InvalidPayload`
/// when the frame type does not accept the value.
pub fn encode_payload(frame_type: FrameType, data: u64) -> (r: Result<[u8; 8], CanError>)
    ensures
        r is Ok <==> accepts(frame_type, data),
        r matches Err(e) ==> e == CanError::InvalidPayload,
        r matches Ok(p) ==> p@ == encoded_payload(frame_type, data),
{
    let payload: [u8; 8] = match frame_type {
        FrameType::State(subtype) => match subtype {
            StateSubtype::StateAnnouncement => {
                // the state number
                if data > MAX_ANNOUNCED_STATE {
                    return Err(CanError::InvalidPayload);
                }
                first_byte_payload_array(data as u8)
            },
            StateSubtype::RequestConfirmation => {
                // the address of the targeted module
                if !valid_address(data as u8) {
                    return Err(CanError::InvalidPayload);
                }
                first_byte_payload_array(data as u8)
            },
            StateSubtype::StateRequest => zeros_payload_array(),
            StateSubtype::StateConfirmation => zeros_payload_array(),
        },
        FrameType::Ping(ping_subtype) => match ping_subtype {
            PingSubtype::PresenceRequest => {
                if !valid_address(data as u8) {
                    return Err(CanError::InvalidPayload);
                }
                first_byte_payload_array(data as u8)
            },
            PingSubtype::PresenceAnnouncement => zeros_payload_array(),
        },
        FrameType::Data(data_subtype) => match data_subtype {
            DataSubtype::DataRequest => {
                if !valid_address(data as u8) {
                    return Err(CanError::InvalidPayload);
                }
                first_byte_payload_array(data as u8)
            },
            DataSubtype::DataAnnouncement => zeros_payload_array(),
        },
        FrameType::Procedure(procedure_subtype) => match procedure_subtype {
            ProcedureSubtype::ProcedureControl => {
                // procedure id in the first seven bytes, action in the last one
                let last_byte: u8 = (data & 0xFF) as u8;
                assert((data & 0xFF) as u8 == data & 0xFF) by (bit_vector);
                if last_byte as u64 > MAX_PROCEDURE_CODE {
                    return Err(CanError::InvalidPayload);
                }
                be_payload_array(data)
            },
            ProcedureSubtype::ProcedureRequest => be_payload_array(data),
            ProcedureSubtype::ProcedureResponse => {
                if data > MAX_PROCEDURE_CODE {
                    return Err(CanError::InvalidPayload);
                }
                be_payload_array(data)
            },
        },
    };
    Ok(payload)
}

fn zeros_payload_array() -> (r: [u8; 8])
    ensures
        r@ == zero_payload(),
{
    let r = [0u8, 0u8, 0u8, 0u8, 0u8, 0u8, 0u8, 0u8];
    assert(r@ =~= zero_payload());
    r
}

fn first_byte_payload_array(b: u8) -> (r: [u8; 8])
    ensures
        r@ == first_byte_payload(b),
{
    let r = [b, 0u8, 0u8, 0u8, 0u8, 0u8, 0u8, 0u8];
    assert(r@ =~= first_byte_payload(b));
    r
}

fn be_payload_array(x: u64) -> (r: [u8; 8])
    ensures
        r@ == be_bytes(x),
{
    let r = [
        (x >> 56u64) as u8,
        (x >> 48u64) as u8,
        (x >> 40u64) as u8,
        (x >> 32u64) as u8,
        (x >> 24u64) as u8,
        (x >> 16u64) as u8,
        (x >> 8u64) as u8,
        x as u8,
    ];
    assert(r@ =~= be_bytes(x));
    r
}

/// A frame of the Exocet protocol, before it is put on the bus.
pub struct CanFrameExocet {
    payload: [u8; 8],
    priority: Priority,
    subsystem: Subsystem,
    local_priority: bool,
    module: u8,
}

impl CanFrameExocet {
    pub closed spec fn spec_payload(&self) -> Seq<u8> {
        self.payload@
    }

    pub closed spec fn spec_priority(&self) -> Priority {
        self.priority
    }

    pub closed spec fn spec_subsystem(&self) -> Subsystem {
        self.subsystem
    }

    pub closed spec fn spec_local_priority(&self) -> bool {
        self.local_priority
    }

    pub closed spec fn spec_module(&self) -> u8 {
        self.module
    }

    /// The identifier this frame goes out with.
    pub open spec fn spec_id(&self) -> u16 {
        encoded_id(self.spec_priority(), self.spec_subsystem(), self.spec_local_priority(), self.spec_module())
    }

    /// Whether `g` is what a standard frame with identifier `id` and data `data` reads back as.
    pub open spec fn decodes_to(id: u16, data: Seq<u8>, g: CanFrameExocet) -> bool {
        &&& Subsystem::spec_from_code(id_address(id)) == Some(g.spec_subsystem())
        &&& g.spec_priority() == Priority::spec_from_code(id_priority_code(id))
        &&& g.spec_local_priority() == id_local_priority(id)
        &&& g.spec_module() == id_module(id)
        &&& g.spec_payload() == padded_payload(data)
    }

    /// Builds a frame of type `frame_type` carrying `data`. Fails with `InvalidPayload` when
    /// the frame type does not accept the value.
    pub fn new(
        frame_type: FrameType,
        data: u64,
        priority: Priority,
        subsystem: Subsystem,
        local_priority: bool,
        module: u8,
    ) -> (r: Result<Self, CanError>)
        ensures
            r is Ok <==> accepts(frame_type, data),
            r matches Err(e) ==> e == CanError::InvalidPayload,
            r matches Ok(f) ==> {
                &&& f.spec_payload() == encoded_payload(frame_type, data)
                &&& f.spec_priority() == priority
                &&& f.spec_subsystem() == subsystem
                &&& f.spec_local_priority() == local_priority
                &&& f.spec_module() == module
            },
    {
        let payload = encode_payload(frame_type, data)?;
        Ok(Self { payload, priority, subsystem, local_priority, module })
    }

    pub fn priority(&self) -> (r: Priority)
        ensures
            r == self.spec_priority(),
    {
        self.priority
    }

    pub fn subsystem(&self) -> (r: Subsystem)
        ensures
            r == self.spec_subsystem(),
    {
        self.subsystem
    }

    pub fn local_priority(&self) -> (r: bool)
        ensures
            r == self.spec_local_priority(),
    {
        self.local_priority
    }

    pub fn payload(&self) -> (r: [u8; 8])
        ensures
            r@ == self.spec_payload(),
    {
        self.payload
    }

    pub fn module(&self) -> (r: u8)
        ensures
            r == self.spec_module(),
    {
        self.module
    }

    /// The standard frame this frame is sent as: its identifier packs the priority, the
    /// subsystem, the local priority and the module; its data is the payload. Fails with
    /// `InvalidModule` when the module does not fit in the identifier's field.
    pub fn to_frame(&self) -> (r: Result<Frame, CanError>)
        ensures
            self.spec_module() > MAX_MODULE ==> r == Err::<Frame, CanError>(CanError::InvalidModule),
            self.spec_module() <= MAX_MODULE ==> (r matches Ok(f) && f.spec_id() == FrameId::Standard(
                self.spec_id(),
            ) && f.spec_data() == self.spec_payload()),
    {
        if self.module > MAX_MODULE {
            return Err(CanError::InvalidModule);
        }
        let p: u16 = self.priority.code() as u16;
        let s: u16 = self.subsystem.code() as u16;
        let l: u16 = if self.local_priority {
            1
        } else {
            0
        };
        let m: u8 = self.module;
        let id: u16 = ((p & 0b11) << 9u16) | ((s & 0b1_1111) << 4u16) | ((l & 0b1) << 3u16) | ((m
            & 0b111) as u16);
        assert(id == (p << 9u16) | (s << 4u16) | (l << 3u16) | ((m & 0b111u8) as u16)
            && id <= 0x7FF) by (bit_vector)
            requires
                p <= 3,
                s <= 0x1F,
                l <= 1,
                id == ((p & 0b11) << 9u16) | ((s & 0b1_1111) << 4u16) | ((l & 0b1) << 3u16) | ((m
                    & 0b111) as u16),
        ;
        match Frame::new_standard(id, &self.payload) {
            Ok(f) => Ok(f),
            Err(_) => Err(CanError::FrameError),
        }
    }

    /// Reads back a received frame: an extended identifier gives `ExtendedHeaderReceived`, an
    /// unknown subsystem address gives `InvalidModule`; otherwise the fields come from the
    /// identifier and the payload is the data padded with zeros.
    pub fn from_frame(frame: &Frame) -> (r: Result<CanFrameExocet, CanError>)
        ensures
            frame.spec_id() is Extended ==> r == Err::<CanFrameExocet, CanError>(
                CanError::ExtendedHeaderReceived,
            ),
            frame.spec_id() matches FrameId::Standard(id) ==> {
                &&& Subsystem::spec_from_code(id_address(id)) is None ==> r == Err::<
                    CanFrameExocet,
                    CanError,
                >(CanError::InvalidModule)
                &&& Subsystem::spec_from_code(id_address(id)) is Some ==> (r matches Ok(g)
                    && Self::decodes_to(id, frame.spec_data(), g))
            },
    {
        let id = match frame.id() {
            FrameId::Standard(id) => id,
            FrameId::Extended(_) => return Err(CanError::ExtendedHeaderReceived),
        };
        let priority: u16 = (id >> 9u16) & 0b11;
        let address: u16 = (id >> 4u16) & 0b1_1111;
        let local: u16 = (id >> 3u16) & 0b1;
        let submodule: u16 = id & 0b111;
        assert(priority <= 3 && address <= 0x1F && submodule <= 7) by (bit_vector)
            requires
                priority == (id >> 9u16) & 0b11,
                address == (id >> 4u16) & 0b1_1111,
                submodule == id & 0b111,
        ;
        let subsystem = match Subsystem::from_code(address as u8) {
            Some(s) => s,
            None => return Err(CanError::InvalidModule),
        };
        let data = frame.data();
        let mut payload: [u8; 8] = [0u8, 0u8, 0u8, 0u8, 0u8, 0u8, 0u8, 0u8];
        let mut i: usize = 0;
        while i < data.len()
            invariant
                data@.len() <= MAX_DATA_LEN,
                i <= data@.len(),
                forall|j: int| 0 <= j < i ==> payload@[j] == data@[j],
                forall|j: int| i <= j < 8 ==> payload@[j] == 0u8,
            decreases data@.len() - i,
        {
            payload[i] = data[i];
            i = i + 1;
        }
        let g = CanFrameExocet {
            payload,
            priority: Priority::from_code(priority as u8),
            subsystem,
            local_priority: local != 0,
            module: submodule as u8,
        };
        assert(g.spec_payload() =~= padded_payload(frame.spec_data()));
        Ok(g)
    }
}

/// Reading back the frame that a frame is sent as gives the same frame: every field, and the
/// payload, are recovered from the identifier and the data (for frames whose module fits in
/// the identifier).
pub proof fn lemma_frame_roundtrip(f: CanFrameExocet)
    requires
        f.spec_module() <= MAX_MODULE,
    ensures
        CanFrameExocet::decodes_to(f.spec_id(), f.spec_payload(), f),
{
    let p = f.spec_priority().spec_code();
    let s = f.spec_subsystem().spec_code();
    let l: u16 = if f.spec_local_priority() { 1u16 } else { 0u16 };
    let m = f.spec_module();
    let id = f.spec_id();
    assert(((((p as u16) << 9u16) | ((s as u16) << 4u16) | (l << 3u16) | ((m & 0b111u8) as u16)) >> 9u16) & 0b11u16 == p as u16
        && ((((((p as u16) << 9u16) | ((s as u16) << 4u16) | (l << 3u16) | ((m & 0b111u8) as u16)) >> 4u16) & 0b1_1111u16) == s as u16)
        && ((((((p as u16) << 9u16) | ((s as u16) << 4u16) | (l << 3u16) | ((m & 0b111u8) as u16)) >> 3u16) & 1u16) == l)
        && (((((p as u16) << 9u16) | ((s as u16) << 4u16) | (l << 3u16) | ((m & 0b111u8) as u16)) & 0b111u16) == m as u16))
        by (bit_vector)
        requires
            p <= 3,
            s <= 0x1F,
            l <= 1,
            m <= 3,
    ;
    assert(f.spec_payload().len() == 8);
    assert(padded_payload(f.spec_payload()) =~= f.spec_payload());
}

/// The identifier's fields as numbers: the priority code counts 512 per step, the subsystem
/// address 16, the local priority 8, and the module (its low three bits) 1. So a frame of the
/// power board (address 0x04) at information priority, without local priority, from module 0
/// has identifier 0x640.
pub proof fn lemma_id_layout(priority: Priority, subsystem: Subsystem, local_priority: bool, module: u8)
    ensures
        encoded_id(priority, subsystem, local_priority, module) == 512 * priority.spec_code() + 16
            * subsystem.spec_code() + (if local_priority {
            8int
        } else {
            0int
        }) + module % 8,
        encoded_id(Priority::InfoMessage, Subsystem::Power, false, 0) == 0x640,
{
    let p = priority.spec_code() as u16;
    let s = subsystem.spec_code() as u16;
    let l: u16 = if local_priority { 1 } else { 0 };
    assert(p <= 3 && s <= 0x1F);
    assert((p << 9u16) | (s << 4u16) | (l << 3u16) | ((module & 0b111u8) as u16) == 512 * p + 16 * s + 8
        * l + module % 8) by (bit_vector)
        requires
            p <= 3,
            s <= 0x1F,
            l <= 1,
    ;
    assert(((3u8 as u16) << 9u16) | ((4u8 as u16) << 4u16) | (0u16 << 3u16) | ((0u8 & 0b111u8) as u16)
        == 0x640) by (bit_vector);
}

/// What each frame type carries: a state announcement carries a state number up to 4 in its
/// first byte; a confirmation request, a presence request and a data request carry the targeted
/// address (one of 0x00, 0x08, 0x10, 0x18, 0x20, 0x28, 0x29, 0xFF) in their first byte; a
/// procedure frame carries its eight-byte value most significant byte first (a control frame's
/// action, in its last byte, and a response's value being at most 3); the other frames carry
/// zeros.
pub proof fn lemma_payload_contents(frame_type: FrameType, data: u64, a: u8)
    ensures
        is_valid_address(a) <==> (a == 0x00 || a == 0x08 || a == 0x10 || a == 0x18 || a == 0x20 || a
            == 0x28 || a == 0x29 || a == 0xFF),
        frame_type == FrameType::State(StateSubtype::StateAnnouncement) ==> (accepts(frame_type, data)
            <==> data <= 4),
        frame_type == FrameType::Procedure(ProcedureSubtype::ProcedureResponse) ==> (accepts(frame_type, data)
            <==> data <= 3),
        frame_type == FrameType::Procedure(ProcedureSubtype::ProcedureControl) ==> (accepts(frame_type, data)
            <==> data % 256 <= 3),
        frame_type == FrameType::Procedure(ProcedureSubtype::ProcedureRequest) ==> accepts(frame_type, data),
        frame_type is Procedure ==> encoded_payload(frame_type, data)[0] == data / 0x100_0000_0000_0000
            && encoded_payload(frame_type, data)[7] == data % 256,
        frame_type == FrameType::State(StateSubtype::StateAnnouncement) ==> encoded_payload(frame_type, data)
            == seq![(data % 256) as u8, 0u8, 0u8, 0u8, 0u8, 0u8, 0u8, 0u8],
        frame_type == FrameType::Ping(PingSubtype::PresenceAnnouncement) || frame_type == FrameType::Data(
            DataSubtype::DataAnnouncement,
        ) || frame_type == FrameType::State(StateSubtype::StateRequest) || frame_type == FrameType::State(
            StateSubtype::StateConfirmation,
        ) ==> encoded_payload(frame_type, data) == seq![0u8, 0u8, 0u8, 0u8, 0u8, 0u8, 0u8, 0u8]
            && accepts(frame_type, data),
        MAX_MODULE == 3 && MAX_ANNOUNCED_STATE == 4 && MAX_PROCEDURE_CODE == 3,
{
    assert((data & 0xFF) == data % 256) by (bit_vector);
    assert((data >> 56u64) as u8 == data / 0x100_0000_0000_0000) by (bit_vector);
    assert(data as u8 == data % 256) by (bit_vector);
}

} // verus!
