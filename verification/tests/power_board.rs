use exo_rs::frame::Frame;
use exo_rs::power_breadboard::can::{
    message_kind, receive_frame, send_data, BoatState, CanData, CanDataKind, ErrorType, Inbound,
    MessageKind, Outbound, Received, SensorCache, SensorGroup, WarningType,
};
use exo_rs::power_breadboard::contactors::{
    ContactorLevels, Contactors, ContactorsState, LONG_DELAY_TICKS, SHORT_DELAY_TICKS,
};
use exo_rs::power_breadboard::imd::{imd_reading, start_frame, START_CMD_ID};
use exo_rs::power_breadboard::safety::{self, SafetyState};
use exo_rs::power_breadboard::temperature::{temperature_level, TemperatureLevel, TemperatureMonitor};

#[test]
fn report_codes() {
    assert_eq!(ErrorType::AuxBattTempSensorMissing.code(), 0x4000);
    assert_eq!(ErrorType::IsolationFault.code(), 0x4004);
    assert_eq!(WarningType::InsertDms.code(), 0x4302);
    assert_eq!(BoatState::Shutdown.raw(), 3);
    assert_eq!(ErrorType::from_code(0x4003), Some(ErrorType::DmsFault));
    assert_eq!(ErrorType::from_code(0x4005), None);
    assert_eq!(WarningType::from_code(0x4300), Some(WarningType::AuxBattTempHigh));
    assert_eq!(BoatState::from_raw(4), None);
}

#[test]
fn frames_are_routed_by_identifier() {
    assert_eq!(message_kind(&Frame::new_standard(207, &[]).unwrap()), Some(MessageKind::Error));
    assert_eq!(message_kind(&Frame::new_standard(1231, &[]).unwrap()), Some(MessageKind::Warning));
    assert_eq!(message_kind(&Frame::new_standard(1247, &[]).unwrap()), Some(MessageKind::Procedure));
    assert_eq!(message_kind(&Frame::new_standard(1263, &[]).unwrap()), Some(MessageKind::SensorData));
    assert_eq!(message_kind(&Frame::new_standard(208, &[]).unwrap()), None);
    assert_eq!(message_kind(&Frame::new_extended(207, &[]).unwrap()), None);
}

#[test]
fn received_frames_are_forwarded() {
    assert_eq!(receive_frame(Received::Error(0x4001)), Some(Inbound::Error(ErrorType::AuxBattTempSensorDisconnected)));
    assert_eq!(receive_frame(Received::Error(0x1234)), None);
    assert_eq!(receive_frame(Received::Warning(0x4301)), Some(Inbound::Warning(WarningType::RemoveDms)));
    assert_eq!(receive_frame(Received::Warning(0x4303)), None);
    assert_eq!(
        receive_frame(Received::Procedure { message_type: 1, current_state: 2 }),
        Some(Inbound::State(BoatState::Running))
    );
    assert_eq!(receive_frame(Received::Procedure { message_type: 2, current_state: 2 }), None);
    assert_eq!(receive_frame(Received::Procedure { message_type: 1, current_state: 9 }), None);
    assert_eq!(receive_frame(Received::SensorData(5)), Some(Inbound::Sensor(SensorGroup::MpptOutput)));
    assert_eq!(receive_frame(Received::SensorData(2)), None);
    assert_eq!(receive_frame(Received::SensorData(8)), None);
}

#[test]
fn sensor_groups() {
    assert_eq!(SensorGroup::Imd.mux(), 7);
    assert_eq!(SensorGroup::from_mux(4), Some(SensorGroup::Contactors));
    assert_eq!(
        SensorGroup::MpptOutput.kinds(),
        vec![CanDataKind::MpptOutputVoltage, CanDataKind::MpptOutputCurrent, CanDataKind::MpptCharge]
    );
    assert_eq!(CanDataKind::Temperature.group(), Some(SensorGroup::AuxBatteryTemperature));
    assert_eq!(CanDataKind::ImdStatus.group(), Some(SensorGroup::Imd));
    assert_eq!(CanDataKind::AuxBatteryTemperature.group(), None);
}

fn open_levels() -> ContactorLevels {
    ContactorLevels {
        bop: false,
        storage_battery: false,
        mppt_stage_1: false,
        mppt_stage_2: false,
        n_motor_stage_1: true,
        n_motor_stage_2: true,
        n_braking_resistor: true,
        n_auxiliary_battery: true,
    }
}

fn tick_until_change(c: &mut Contactors, safety: Option<SafetyState>) -> (u32, ContactorsState) {
    let mut n = 0;
    loop {
        n += 1;
        if let Some(s) = c.state_tick(safety) {
            return (n, s);
        }
        assert!(n < 1000);
    }
}

#[test]
fn contactors_start_only_on_startup() {
    let mut c = Contactors::new(open_levels());
    assert_eq!(c.on_boat_state(BoatState::Running), None);
    assert_eq!(c.state_tick(Some(SafetyState::Ready)), None);
    assert_eq!(c.state, ContactorsState::Idle);
    assert_eq!(c.on_boat_state(BoatState::Startup), Some(ContactorsState::WaitingForDmsTest));
    assert_eq!(c.on_boat_state(BoatState::Startup), None);
}

#[test]
fn contactors_precharge_sequence() {
    let mut c = Contactors::new(open_levels());
    c.on_boat_state(BoatState::Startup);
    for _ in 0..50 {
        assert_eq!(c.state_tick(Some(SafetyState::WaitingInsertion)), None);
    }
    assert_eq!(c.state_tick(None), None);
    assert_eq!(c.state_tick(Some(SafetyState::Ready)), Some(ContactorsState::MpptInitialization));
    assert!(!c.levels.n_auxiliary_battery);
    assert_eq!(tick_until_change(&mut c, None), (SHORT_DELAY_TICKS, ContactorsState::FuelCellInitialization));
    assert!(c.levels.bop);
    assert_eq!(tick_until_change(&mut c, None), (1, ContactorsState::MpptPrecharge1));
    assert!(c.levels.mppt_stage_1 && c.levels.storage_battery);
    assert_eq!(tick_until_change(&mut c, None), (LONG_DELAY_TICKS, ContactorsState::MpptPrecharge2));
    assert!(c.levels.mppt_stage_2);
    assert_eq!(tick_until_change(&mut c, None), (SHORT_DELAY_TICKS, ContactorsState::MotorPrecharge1));
    assert!(!c.levels.mppt_stage_1);
    assert!(!c.levels.n_motor_stage_1);
    assert_eq!(tick_until_change(&mut c, None), (LONG_DELAY_TICKS, ContactorsState::MotorPrecharge2));
    assert!(!c.levels.n_braking_resistor);
    assert_eq!(tick_until_change(&mut c, None), (SHORT_DELAY_TICKS, ContactorsState::MotorPrecharge3));
    assert!(!c.levels.n_motor_stage_2);
    assert_eq!(tick_until_change(&mut c, None), (SHORT_DELAY_TICKS, ContactorsState::Ready));
    // the precharge resistor is bypassed once at full power
    assert!(c.levels.n_motor_stage_1);
    for _ in 0..500 {
        assert_eq!(c.state_tick(None), None);
    }
    assert_eq!(c.state, ContactorsState::Ready);
}

#[test]
fn contactors_postcharge_sequence() {
    let ready = ContactorLevels {
        bop: true,
        storage_battery: true,
        mppt_stage_1: false,
        mppt_stage_2: true,
        n_motor_stage_1: true,
        n_motor_stage_2: false,
        n_braking_resistor: false,
        n_auxiliary_battery: false,
    };
    let mut c = Contactors::new(ready);
    c.goto_state(ContactorsState::MotorPostcharge1);
    assert!(!c.levels.n_motor_stage_1);
    assert_eq!(tick_until_change(&mut c, None), (SHORT_DELAY_TICKS, ContactorsState::MotorPostcharge2));
    assert!(c.levels.n_motor_stage_2);
    assert_eq!(tick_until_change(&mut c, None), (SHORT_DELAY_TICKS, ContactorsState::MotorPostcharge3));
    assert!(c.levels.n_braking_resistor && !c.levels.n_motor_stage_1);
    assert_eq!(tick_until_change(&mut c, None), (SHORT_DELAY_TICKS, ContactorsState::FuelCellShutdown));
    assert!(!c.levels.bop && c.levels.n_motor_stage_1);
    assert_eq!(tick_until_change(&mut c, None), (1, ContactorsState::MpptPostcharge1));
    assert_eq!(tick_until_change(&mut c, None), (SHORT_DELAY_TICKS, ContactorsState::MpptPostcharge2));
    assert!(!c.levels.mppt_stage_2);
    assert_eq!(tick_until_change(&mut c, None), (SHORT_DELAY_TICKS, ContactorsState::MpptShutdown));
    assert!(!c.levels.mppt_stage_1 && !c.levels.storage_battery && c.levels.n_auxiliary_battery);
    assert_eq!(tick_until_change(&mut c, None), (SHORT_DELAY_TICKS, ContactorsState::Idle));
    assert_eq!(c.levels, open_levels());
}

#[test]
fn contactors_goto_idle_opens_everything() {
    let all_closed = ContactorLevels {
        bop: true,
        storage_battery: true,
        mppt_stage_1: true,
        mppt_stage_2: true,
        n_motor_stage_1: false,
        n_motor_stage_2: false,
        n_braking_resistor: false,
        n_auxiliary_battery: false,
    };
    let mut c = Contactors::new(all_closed);
    c.goto_state(ContactorsState::Ready);
    assert_eq!(c.levels, all_closed);
    for _ in 0..500 {
        assert_eq!(c.state_tick(None), None);
    }
    c.goto_state(ContactorsState::Idle);
    assert_eq!(c.levels, open_levels());
    assert_eq!(c.tick_count, 0);
}

#[test]
fn safety_entries() {
    let e = safety::goto_state(SafetyState::Idle, true);
    assert_eq!(e.entered, SafetyState::Idle);
    assert_eq!(e.enable_dms, Some(false));
    let e = safety::goto_state(SafetyState::WaitingRemoval, false);
    assert_eq!(e.entered, SafetyState::WaitingRemoval);
    assert_eq!(e.warning, Some(WarningType::RemoveDms));
    let e = safety::goto_state(SafetyState::WaitingRemoval, true);
    assert_eq!(e.entered, SafetyState::WaitingInsertion);
    assert_eq!(e.warning, Some(WarningType::InsertDms));
    let e = safety::goto_state(SafetyState::Ready, false);
    assert_eq!(e.enable_dms, Some(true));
    assert!(e.pulse_reset_dms);
    assert_eq!(safety::goto_state(SafetyState::DmsFault, false).error, Some(ErrorType::DmsFault));
    assert_eq!(safety::goto_state(SafetyState::AlarmFault, false).error, Some(ErrorType::IsolationFault));
}

#[test]
fn safety_sequence() {
    let e = safety::on_boat_state(BoatState::Startup, false).unwrap();
    assert_eq!(e.entered, SafetyState::WaitingRemoval);
    assert!(safety::state_tick(SafetyState::WaitingRemoval, false, None).is_none());
    let e = safety::state_tick(SafetyState::WaitingRemoval, true, None).unwrap();
    assert_eq!(e.entered, SafetyState::WaitingInsertion);
    assert!(safety::state_tick(SafetyState::WaitingInsertion, true, None).is_none());
    let e = safety::state_tick(SafetyState::WaitingInsertion, false, None).unwrap();
    assert_eq!(e.entered, SafetyState::Ready);
    assert!(safety::state_tick(SafetyState::Ready, false, None).is_none());
    let e = safety::on_boat_state(BoatState::Shutdown, false).unwrap();
    assert_eq!(e.entered, SafetyState::WaitingContactorShutdown);
    assert!(safety::state_tick(SafetyState::WaitingContactorShutdown, false, Some(ContactorsState::MpptShutdown)).is_none());
    let e = safety::state_tick(SafetyState::WaitingContactorShutdown, false, Some(ContactorsState::Idle)).unwrap();
    assert_eq!(e.entered, SafetyState::Idle);
    assert!(safety::on_boat_state(BoatState::Running, false).is_none());
}

#[test]
fn imd_start_frame() {
    let f = start_frame();
    assert_eq!(f.id(), exo_rs::frame::FrameId::Extended(START_CMD_ID));
    assert_eq!(f.data(), &[0, 1, 2, 3, 4, 5, 6, 7]);
}

#[test]
fn imd_readings() {
    // plus = 0x0100 = 256, minus = 0x0080 = 128: 128 * 8192 = 1 048 576 ohms, no fault
    let r = imd_reading(&[0, 0x01, 0x00, 0, 0, 0x00, 0x80, 0]).unwrap();
    assert_eq!(r.r_iso_min, 128);
    assert_eq!(r.resistance_ohms, 1_048_576);
    assert!(!r.is_fault);
    // 122 * 8192 = 999 424 ohms: a fault
    let r = imd_reading(&[0, 0x00, 122, 0, 0, 0x01, 0x00, 0]).unwrap();
    assert_eq!(r.r_iso_min, 122);
    assert!(r.is_fault);
    assert!(imd_reading(&[0; 7]).is_none());
    let r = imd_reading(&[0, 0xFF, 0xFF, 0, 0, 0xFF, 0xFF, 0]).unwrap();
    assert_eq!(r.resistance_ohms, 65535 * 8192);
}

#[test]
fn temperature_levels() {
    assert_eq!(temperature_level(42 * 16 - 1), TemperatureLevel::Normal);
    assert_eq!(temperature_level(42 * 16), TemperatureLevel::High);
    assert_eq!(temperature_level(60 * 16 - 1), TemperatureLevel::High);
    assert_eq!(temperature_level(60 * 16), TemperatureLevel::TooHigh);
    assert_eq!(temperature_level(-400), TemperatureLevel::Normal);
}

#[test]
fn temperature_monitor_reports_every_fifth_reading() {
    let mut m = TemperatureMonitor::new();
    let reports: Vec<bool> = (0..11).map(|_| m.step(Some(20 * 16)).report).collect();
    assert_eq!(
        reports,
        vec![true, false, false, false, false, true, false, false, false, false, true]
    );
}

#[test]
fn temperature_monitor_alarms() {
    let mut m = TemperatureMonitor::new();
    let a = m.step(Some(61 * 16));
    assert_eq!(a.error, Some(ErrorType::AuxBattTempTooHigh));
    assert_eq!(a.warning, None);
    let a = m.step(Some(50 * 16));
    assert_eq!(a.warning, Some(WarningType::AuxBattTempHigh));
    assert_eq!(a.error, None);
}

#[test]
fn temperature_monitor_disconnection_after_ten_failures() {
    let mut m = TemperatureMonitor::new();
    for _ in 0..9 {
        let a = m.step(None);
        assert_eq!(a.error, None);
        assert!(!a.report);
    }
    assert_eq!(m.step(None).error, Some(ErrorType::AuxBattTempSensorDisconnected));
    for _ in 0..9 {
        assert_eq!(m.step(None).error, None);
    }
    // a good reading restarts the count
    m.step(Some(0));
    for _ in 0..9 {
        assert_eq!(m.step(None).error, None);
    }
    assert_eq!(m.step(None).error, Some(ErrorType::AuxBattTempSensorDisconnected));
}

#[test]
fn sensor_groups_are_sent_whole_from_the_cache() {
    let mut cache = SensorCache::new(0.0f32);
    assert_eq!(
        send_data(&mut cache, CanData::MpptOutputVoltage(24.5)),
        Some(Outbound::MpptOutput { voltage: 24.5, current: 0.0, charge: 0 })
    );
    assert_eq!(
        send_data(&mut cache, CanData::MpptCharge(80)),
        Some(Outbound::MpptOutput { voltage: 24.5, current: 0.0, charge: 80 })
    );
    assert_eq!(
        send_data(&mut cache, CanData::MpptOutputCurrent(3.25)),
        Some(Outbound::MpptOutput { voltage: 24.5, current: 3.25, charge: 80 })
    );
    assert_eq!(
        send_data(&mut cache, CanData::MpptInputCurrent(1.5)),
        Some(Outbound::MpptInput { voltage: 0.0, current: 1.5 })
    );
    assert_eq!(
        send_data(&mut cache, CanData::ImdStatus(true)),
        Some(Outbound::Imd { resistance: 0.0, status: true })
    );
    assert_eq!(
        send_data(&mut cache, CanData::ImdResistance(122.0)),
        Some(Outbound::Imd { resistance: 122.0, status: true })
    );
    assert_eq!(send_data(&mut cache, CanData::ContactorBitset(0b101)), Some(Outbound::Contactors(0b101)));
    assert_eq!(
        send_data(&mut cache, CanData::Temperature(20 * 16)),
        Some(Outbound::AuxBatteryTemperature(20 * 16))
    );
    let before = cache;
    assert_eq!(send_data(&mut cache, CanData::AuxBatteryTemperature(21.0)), None);
    assert_eq!(cache, before);
    assert_eq!(cache.mppt_output_voltage, 24.5);
    assert_eq!(cache.mppt_charge, 80);
}
