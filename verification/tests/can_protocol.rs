use exo_rs::can_exocet::can_driver::{encode_payload, valid_address, CanFrameExocet};
use exo_rs::can_exocet::enums::{
    DataSubtype, FrameType, PingSubtype, Priority, ProcedureSubtype, StateSubtype, Subsystem,
};
use exo_rs::can_exocet::errors::CanError;
use exo_rs::can_exocet::interface::CanFrame;
use exo_rs::can_exocet::{Priority as ModulePriority, Subsystem as ModuleSubsystem};
use exo_rs::can_module::{create_frame, CanModule};
use exo_rs::frame::{Frame, FrameCreateError, FrameId};

#[test]
fn standard_frame_checks_identifier_then_length() {
    let f = Frame::new_standard(0x7FF, &[1, 2, 3]).unwrap();
    assert_eq!(f.id(), FrameId::Standard(0x7FF));
    assert_eq!(f.data(), &[1, 2, 3]);
    assert_eq!(Frame::new_standard(0x800, &[1]).err(), Some(FrameCreateError::InvalidCanId));
    assert_eq!(
        Frame::new_standard(0x100, &[0; 9]).err(),
        Some(FrameCreateError::InvalidDataLength)
    );
    assert_eq!(Frame::new_standard(0x800, &[0; 9]).err(), Some(FrameCreateError::InvalidCanId));
}

#[test]
fn extended_frame_checks_identifier_then_length() {
    let f = Frame::new_extended(0x1FFF_FFFF, &[]).unwrap();
    assert_eq!(f.id(), FrameId::Extended(0x1FFF_FFFF));
    assert!(f.data().is_empty());
    assert_eq!(Frame::new_extended(0x2000_0000, &[]).err(), Some(FrameCreateError::InvalidCanId));
    assert_eq!(
        Frame::new_extended(0x10, &[0; 9]).err(),
        Some(FrameCreateError::InvalidDataLength)
    );
}

#[test]
fn module_codes() {
    assert_eq!(ModulePriority::InfoMessage.to_u32(), 0b11);
    assert_eq!(ModulePriority::CriticalErrorMessage.to_u32(), 0);
    assert_eq!(ModuleSubsystem::ControlCockpit.to_u32(), 0x08);
    assert_eq!(ModuleSubsystem::TelemetryTelemetry.to_u32(), 0x31);
    assert_eq!(ModuleSubsystem::from_u32(0x21), Some(ModuleSubsystem::PowerDcDc));
    assert_eq!(ModuleSubsystem::from_u32(0x22), None);
}

#[test]
fn module_identifier_layout() {
    let m = CanModule::new(ModulePriority::StateManagementMessage, ModuleSubsystem::ControlCockpit);
    assert_eq!(m.CanToId(), (0b10 << 9) | (0x08 << 2));
    let back = CanModule::IdToCan(m.CanToId());
    assert_eq!(back, m);
    let m = CanModule::new(ModulePriority::CriticalErrorMessage, ModuleSubsystem::TelemetryTelemetry);
    assert_eq!(m.CanToId(), 0x31 << 2);
    assert_eq!(CanModule::IdToCan(0x31 << 2), m);
}

#[test]
fn module_frames() {
    let m = CanModule::new(ModulePriority::WarningMessage, ModuleSubsystem::Batteries1);
    let f = create_frame(m, &[9, 8, 7]).unwrap();
    assert_eq!(f.id(), FrameId::Standard((1 << 9) | (0x28 << 2)));
    assert_eq!(f.data(), &[9, 8, 7]);
    assert_eq!(create_frame(m, &[0; 9]).err(), Some(FrameCreateError::InvalidDataLength));
    let g = m.to_frame(&[1]);
    assert_eq!(g.id(), f.id());
    let p = CanModule::new(ModulePriority::StateManagementMessage, ModuleSubsystem::PowerHighPower);
    let h = p.to_frame(&[]);
    assert_eq!(CanModule::from_frame(&h), p);
}

#[test]
fn frame_type_codes() {
    assert_eq!(FrameType::State(StateSubtype::StateConfirmation).type_code(), 0);
    assert_eq!(FrameType::State(StateSubtype::StateConfirmation).subtype_code(), 3);
    assert_eq!(FrameType::Ping(PingSubtype::PresenceAnnouncement).type_code(), 1);
    assert_eq!(FrameType::Ping(PingSubtype::PresenceAnnouncement).subtype_code(), 2);
    assert_eq!(FrameType::Data(DataSubtype::DataRequest).type_code(), 2);
    assert_eq!(FrameType::Procedure(ProcedureSubtype::ProcedureResponse).type_code(), 3);
    assert_eq!(FrameType::Procedure(ProcedureSubtype::ProcedureResponse).subtype_code(), 2);
}

#[test]
fn addresses_that_requests_may_target() {
    for a in [0x00u8, 0xFF, 0x08, 0x10, 0x18, 0x20, 0x28, 0x29] {
        assert!(valid_address(a));
    }
    assert!(!valid_address(0x01));
    assert!(!valid_address(0x30));
}

#[test]
fn payload_encodings() {
    assert_eq!(
        encode_payload(FrameType::State(StateSubtype::StateAnnouncement), 4),
        Ok([4, 0, 0, 0, 0, 0, 0, 0])
    );
    assert_eq!(
        encode_payload(FrameType::State(StateSubtype::StateAnnouncement), 5),
        Err(CanError::InvalidPayload)
    );
    assert_eq!(
        encode_payload(FrameType::Ping(PingSubtype::PresenceRequest), 0x28),
        Ok([0x28, 0, 0, 0, 0, 0, 0, 0])
    );
    assert_eq!(
        encode_payload(FrameType::Data(DataSubtype::DataRequest), 0x07),
        Err(CanError::InvalidPayload)
    );
    assert_eq!(
        encode_payload(FrameType::State(StateSubtype::RequestConfirmation), 0x1_29),
        Ok([0x29, 0, 0, 0, 0, 0, 0, 0])
    );
    assert_eq!(
        encode_payload(FrameType::Data(DataSubtype::DataAnnouncement), 1234),
        Ok([0; 8])
    );
    assert_eq!(
        encode_payload(FrameType::Procedure(ProcedureSubtype::ProcedureControl), 0x0102_0304_0506_0703),
        Ok([1, 2, 3, 4, 5, 6, 7, 3])
    );
    assert_eq!(
        encode_payload(FrameType::Procedure(ProcedureSubtype::ProcedureControl), 0x04),
        Err(CanError::InvalidPayload)
    );
    assert_eq!(
        encode_payload(FrameType::Procedure(ProcedureSubtype::ProcedureRequest), 0xAABB),
        Ok([0, 0, 0, 0, 0, 0, 0xAA, 0xBB])
    );
    assert_eq!(
        encode_payload(FrameType::Procedure(ProcedureSubtype::ProcedureResponse), 3),
        Ok([0, 0, 0, 0, 0, 0, 0, 3])
    );
    assert_eq!(
        encode_payload(FrameType::Procedure(ProcedureSubtype::ProcedureResponse), 4),
        Err(CanError::InvalidPayload)
    );
}

#[test]
fn exocet_frame_fields() {
    let f = CanFrameExocet::new(
        FrameType::State(StateSubtype::StateAnnouncement),
        2,
        Priority::WarningMessage,
        Subsystem::Power,
        true,
        3,
    )
    .unwrap();
    assert_eq!(f.priority(), Priority::WarningMessage);
    assert_eq!(f.subsystem(), Subsystem::Power);
    assert!(f.local_priority());
    assert_eq!(f.module(), 3);
    assert_eq!(f.payload(), [2, 0, 0, 0, 0, 0, 0, 0]);
    assert!(CanFrameExocet::new(
        FrameType::State(StateSubtype::StateAnnouncement),
        9,
        Priority::WarningMessage,
        Subsystem::Power,
        true,
        3,
    )
    .is_err());
}

#[test]
fn exocet_frame_identifier_and_roundtrip() {
    let f = CanFrameExocet::new(
        FrameType::Procedure(ProcedureSubtype::ProcedureRequest),
        0x1122_3344_5566_7788,
        Priority::StateManagementMessage,
        Subsystem::Telemetry,
        true,
        2,
    )
    .unwrap();
    let frame = f.to_frame().unwrap();
    assert_eq!(frame.id(), FrameId::Standard((0b10 << 9) | (0x06 << 4) | (1 << 3) | 2));
    assert_eq!(frame.data(), &[0x11, 0x22, 0x33, 0x44, 0x55, 0x66, 0x77, 0x88]);
    let g = CanFrameExocet::from_frame(&frame).unwrap();
    assert_eq!(g.priority(), f.priority());
    assert_eq!(g.subsystem(), f.subsystem());
    assert_eq!(g.local_priority(), f.local_priority());
    assert_eq!(g.module(), f.module());
    assert_eq!(g.payload(), f.payload());
}

#[test]
fn exocet_frame_with_large_module_is_refused() {
    let f = CanFrameExocet::new(
        FrameType::Ping(PingSubtype::PresenceAnnouncement),
        0,
        Priority::InfoMessage,
        Subsystem::Broadcast,
        false,
        4,
    )
    .unwrap();
    assert_eq!(f.to_frame().err(), Some(CanError::InvalidModule));
}

#[test]
fn received_frames() {
    let ext = Frame::new_extended(0x123, &[1]).unwrap();
    assert_eq!(CanFrameExocet::from_frame(&ext).err(), Some(CanError::ExtendedHeaderReceived));
    // address 0x07 names no subsystem
    let unknown = Frame::new_standard(0x07 << 4, &[1]).unwrap();
    assert_eq!(CanFrameExocet::from_frame(&unknown).err(), Some(CanError::InvalidModule));
    // short data is padded with zeros
    let short = Frame::new_standard((0b01 << 9) | (0x1F << 4) | 5, &[0xAB, 0xCD]).unwrap();
    let g = CanFrameExocet::from_frame(&short).unwrap();
    assert_eq!(g.priority(), Priority::WarningMessage);
    assert_eq!(g.subsystem(), Subsystem::Broadcast);
    assert!(!g.local_priority());
    assert_eq!(g.module(), 5);
    assert_eq!(g.payload(), [0xAB, 0xCD, 0, 0, 0, 0, 0, 0]);
}

#[test]
fn payload_frames_with_signed_module() {
    let c = CanFrame::new(FrameType::Ping(PingSubtype::PresenceRequest), 0x10).unwrap();
    assert_eq!(c.payload(), [0x10, 0, 0, 0, 0, 0, 0, 0]);
    let f = c.to_frame(Priority::CriticalErrorMessage, Subsystem::StateControl, 3, false).unwrap();
    assert_eq!(f.id(), FrameId::Standard((0x01 << 4) | 3));
    assert_eq!(f.data(), &[0x10, 0, 0, 0, 0, 0, 0, 0]);
    assert_eq!(
        c.to_frame(Priority::CriticalErrorMessage, Subsystem::StateControl, 4, false).err(),
        Some(CanError::InvalidModule)
    );
    // a negative module keeps the low three bits of its two's-complement form
    let n = c.to_frame(Priority::InfoMessage, Subsystem::Reserved, -1, true).unwrap();
    assert_eq!(n.id(), FrameId::Standard((0b11 << 9) | (1 << 3) | 7));
    assert_eq!(
        CanFrame::new(FrameType::Ping(PingSubtype::PresenceRequest), 0x11).err(),
        Some(CanError::InvalidPayload)
    );
}
