//! Identifier of a board module on the bus: priority in bits 9-10, subsystem address in bits
//! 2-9 (eight bits).
use vstd::prelude::*;

pub use crate::can_exocet::{Priority, Subsystem};
use crate::frame::{Frame, FrameCreateError, FrameId, MAX_DATA_LEN};

verus! {

/// The identifier of a module: priority code shifted to bit 9, address shifted to bit 2.
pub open spec fn module_id(priority: Priority, subsystem: Subsystem) -> u16 {
    (((priority.spec_to_u32() as u16) << 9u16) | ((subsystem.spec_to_u32() as u16) << 2u16)) as u16
}

/// Priority field read back from identifier `id`.
pub open spec fn id_priority_field(id: u16) -> u16 {
    (id >> 9u16) & 0b11u16
}

/// Subsystem field read back from identifier `id` (eight bits from bit 2).
pub open spec fn id_subsystem_field(id: u16) -> u16 {
    (id >> 2u16) & 0xFFu16
}

/// Whether identifier `id` names a known subsystem.
pub open spec fn names_subsystem(id: u16) -> bool {
    Subsystem::spec_from_u32(id_subsystem_field(id) as u32) is Some
}

/// A sender or receiver on the bus.
#[derive(Debug, Copy, Clone, PartialEq, Eq, Structural)]
pub struct CanModule {
    pub priority: Priority,
    pub subsystem: Subsystem,
}

#[allow(non_snake_case)]
impl CanModule {
    pub fn new(priority: Priority, subsystem: Subsystem) -> (r: Self)
        ensures
            r == (CanModule { priority, subsystem }),
    {
        Self { priority, subsystem }
    }

    /// The identifier of the module.
    pub fn CanToId(&self) -> (r: u16)
        ensures
            r == module_id(self.priority, self.subsystem),
            r <= 0x7FF,
    {
        let p: u16 = self.priority.to_u32() as u16;
        let s: u16 = self.subsystem.to_u32() as u16;
        assert((p << 9u16) | (s << 2u16) <= 0x7FF) by (bit_vector)
            requires
                p <= 3,
                s <= 0x31,
        ;
        (p << 9u16) | (s << 2u16)
    }

    /// The module named by identifier `id`. The identifier must name a known subsystem.
    pub fn IdToCan(id: u16) -> (r: Self)
        requires
            names_subsystem(id),
        ensures
            r.priority == Priority::spec_from_u32(id_priority_field(id) as u32),
            Subsystem::spec_from_u32(id_subsystem_field(id) as u32) == Some(r.subsystem),
    {
        let p: u16 = (id >> 9u16) & 0b11;
        let priority = if p == 0b11 {
            Priority::InfoMessage
        } else if p == 0b10 {
            Priority::StateManagementMessage
        } else if p == 0b01 {
            Priority::WarningMessage
        } else {
            Priority::CriticalErrorMessage
        };
        assert(p <= 3) by (bit_vector)
            requires
                p == (id >> 9u16) & 0b11,
        ;
        let s: u16 = (id >> 2u16) & 0xFF;
        let subsystem = match Subsystem::from_u32(s as u32) {
            Some(s) => s,
            None => {
                assert(false);
                Subsystem::Reserved
            },
        };
        Self { priority, subsystem }
    }

    /// The module that sent a frame with a standard identifier naming a known subsystem.
    pub fn from_frame(frame: &Frame) -> (r: Self)
        requires
            frame.spec_id() matches FrameId::Standard(id) && names_subsystem(id),
        ensures
            frame.spec_id() matches FrameId::Standard(id) && r == Self::spec_from_id(id),
    {
        match frame.id() {
            FrameId::Standard(id) => Self::IdToCan(id),
            FrameId::Extended(_) => {
                assert(false);
                Self::new(Priority::CriticalErrorMessage, Subsystem::Reserved)
            },
        }
    }

    /// The module named by identifier `id`.
    pub open spec fn spec_from_id(id: u16) -> Self {
        CanModule {
            priority: Priority::spec_from_u32(id_priority_field(id) as u32),
            subsystem: Subsystem::spec_from_u32(id_subsystem_field(id) as u32).unwrap(),
        }
    }

    /// The frame this module sends with data `data` (at most eight bytes).
    pub fn to_frame(&self, data: &[u8]) -> (r: Frame)
        requires
            data@.len() <= MAX_DATA_LEN,
        ensures
            r.spec_id() == FrameId::Standard(module_id(self.priority, self.subsystem)),
            r.spec_data() == data@,
    {
        match create_frame(*self, data) {
            Ok(f) => f,
            Err(_) => {
                assert(false);
                Frame::new_standard(0, data).unwrap()
            },
        }
    }
}

/// The frame module `module` sends with data `data`: always built, since module identifiers
/// fit in 11 bits, unless `data` holds more than eight bytes.
pub fn create_frame(module: CanModule, data: &[u8]) -> (r: Result<Frame, FrameCreateError>)
    ensures
        data@.len() > MAX_DATA_LEN ==> r == Err::<Frame, FrameCreateError>(FrameCreateError::InvalidDataLength),
        data@.len() <= MAX_DATA_LEN ==> (r matches Ok(f) && f.spec_id() == FrameId::Standard(
            module_id(module.priority, module.subsystem),
        ) && f.spec_data() == data@),
{
    let id = module.CanToId();
    Frame::new_standard(id, data)
}

/// Reading back a module's identifier gives the module, for the priorities whose code has a
/// clear low bit (the eight-bit subsystem field read back also covers the priority's low bit,
/// so for the other two priorities it holds an address that names no subsystem).
pub proof fn lemma_module_id_roundtrip(m: CanModule)
    requires
        m.priority == Priority::StateManagementMessage || m.priority
            == Priority::CriticalErrorMessage,
    ensures
        names_subsystem(module_id(m.priority, m.subsystem)),
        CanModule::spec_from_id(module_id(m.priority, m.subsystem)) == m,
{
    let p: u16 = m.priority.spec_to_u32() as u16;
    let s: u16 = m.subsystem.spec_to_u32() as u16;
    assert((((((p << 9u16) | (s << 2u16)) as u16) >> 9u16) & 0b11u16) == p
        && (((((p << 9u16) | (s << 2u16)) as u16) >> 2u16) & 0xFFu16) == s) by (bit_vector)
        requires
            p == 0 || p == 2,
            s <= 0x31,
    ;
}

/// A module's identifier as a number: 512 per step of the priority code plus 4 per unit of the
/// address.
pub proof fn lemma_module_id_value(m: CanModule)
    ensures
        module_id(m.priority, m.subsystem) == 512 * m.priority.spec_to_u32() + 4 * m.subsystem.spec_to_u32(),
{
    let p: u16 = m.priority.spec_to_u32() as u16;
    let s: u16 = m.subsystem.spec_to_u32() as u16;
    assert(((p << 9u16) | (s << 2u16)) as u16 == 512 * p + 4 * s) by (bit_vector)
        requires
            p <= 3,
            s <= 0x31,
    ;
}

} // verus!
