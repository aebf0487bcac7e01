use exo_rs::h2_pcb::can as h2;
use exo_rs::tasks::can::{
    reader_event, CanEvent, CockpitCommand, CockpitState, DashboardCommand, DashboardMessage,
    TargetModule, CAN_TIMEOUT,
};
use exo_rs::tasks::cockpit::{Cockpit, Input, Led, State};
use exo_rs::telemetry_battery::can_frames::{
    decode_dashboard_state, CurrentState, DashboardState, ErrorType, WarningType,
};
use exo_rs::telemetry_battery::fault::Latch;
use exo_rs::telemetry_battery::temperature::TemperatureAlarms;

#[test]
fn telemetry_codes() {
    assert_eq!(ErrorType::BatteryFault.code(), 0x3000);
    assert_eq!(ErrorType::Overtemperature.code(), 0x3001);
    assert_eq!(ErrorType::PowerSwitchFault.code(), 0x3002);
    assert_eq!(WarningType::LowCharge.code(), 0x3300);
    assert_eq!(WarningType::TemperatureWarning.code(), 0x3301);
    assert_eq!(CurrentState::Idle.raw(), 0);
    assert_eq!(CurrentState::Running.raw(), 2);
}

#[test]
fn dashboard_state_decoding() {
    assert_eq!(decode_dashboard_state(1, 2), Some(DashboardState::Started));
    assert_eq!(decode_dashboard_state(1, 0), Some(DashboardState::Idle));
    assert_eq!(decode_dashboard_state(1, 7), None);
    assert_eq!(decode_dashboard_state(0, 2), None);
    assert_eq!(decode_dashboard_state(2, 2), None);
}

#[test]
fn latch_fires_on_rising_edges_only() {
    let mut l = Latch::new();
    let seen: Vec<bool> = [false, true, true, true, false, true, false, false, true]
        .iter()
        .map(|c| l.rising_edge(*c))
        .collect();
    assert_eq!(seen, vec![false, true, false, false, false, true, false, false, true]);
}

#[test]
fn battery_temperature_alarms() {
    let mut a = TemperatureAlarms::new();
    let r = a.update(45 * 16);
    assert_eq!((r.error, r.warning), (None, None));
    let r = a.update(728);
    assert_eq!((r.error, r.warning), (None, Some(WarningType::TemperatureWarning)));
    let r = a.update(900);
    assert_eq!((r.error, r.warning), (None, None));
    let r = a.update(936);
    assert_eq!((r.error, r.warning), (Some(ErrorType::Overtemperature), None));
    let r = a.update(1000);
    assert_eq!((r.error, r.warning), (None, None));
    a.update(0);
    let r = a.update(2000);
    assert_eq!(
        (r.error, r.warning),
        (Some(ErrorType::Overtemperature), Some(WarningType::TemperatureWarning))
    );
}

#[test]
fn hydrogen_board_codes() {
    assert_eq!(h2::ErrorType::PlaqueTempSensorMissing.code(), 0);
    assert_eq!(h2::ErrorType::Actuator3InvalidPosition.code(), 12);
    assert_eq!(h2::WarningType::Manometer2PressureLow.code(), 5);
    assert_eq!(h2::BoatState::Running.code(), 2);
}

#[test]
fn dashboard_events() {
    assert_eq!(reader_event(DashboardMessage::State(2)), Some(CanEvent::DashboardState(2)));
    assert_eq!(
        reader_event(DashboardMessage::Command {
            target: TargetModule::CockpitEcu,
            command: DashboardCommand::ForceShutdown
        }),
        Some(CanEvent::ForceShutdown)
    );
    assert_eq!(
        reader_event(DashboardMessage::Command {
            target: TargetModule::Broadcast,
            command: DashboardCommand::ForceShutdown
        }),
        Some(CanEvent::ForceShutdown)
    );
    assert_eq!(
        reader_event(DashboardMessage::Command {
            target: TargetModule::Other,
            command: DashboardCommand::ForceShutdown
        }),
        None
    );
    assert_eq!(
        reader_event(DashboardMessage::Command {
            target: TargetModule::CockpitEcu,
            command: DashboardCommand::Other
        }),
        None
    );
    assert_eq!(reader_event(DashboardMessage::OtherProcedure), None);
    assert_eq!(reader_event(DashboardMessage::CriticalError), Some(CanEvent::CriticalError));
}

fn wait(green: bool, red: bool, elapsed_ms: u64) -> Input {
    Input::Timeout { button_green: green, button_red: red, elapsed_ms }
}

#[test]
fn cockpit_start_and_stop() {
    let mut c = Cockpit::new();
    let t = c.begin();
    assert_eq!((t.green, t.yellow, t.red, t.wait_ms), (Led::Off, Led::Off, Led::On, 50));
    assert_eq!(c.handle(wait(false, true, 0)).command, None);
    let e = c.handle(wait(true, false, 0));
    assert_eq!(e.command, Some(CockpitCommand::Start));
    assert!(e.record_command_time);
    assert_eq!((e.green, e.yellow, e.red), (Led::Off, Led::On, Led::Off));
    assert_eq!(c.state, State::Starting);
    let t = c.begin();
    assert_eq!(t.wait_ms, 300);
    let e = c.handle(wait(false, false, 300));
    assert_eq!((e.green, e.yellow, e.red), (Led::Off, Led::On, Led::Off));
    // another state is ignored
    let e = c.handle(Input::Event(CanEvent::DashboardState(1)));
    assert_eq!(e.confirm, None);
    let e = c.handle(Input::Event(CanEvent::DashboardState(DashboardState::Started.raw())));
    assert_eq!(e.confirm, Some(CockpitState::Running));
    assert_eq!(e.yellow, Led::Off);
    assert_eq!(c.state, State::Running);
    let t = c.begin();
    assert_eq!((t.green, t.yellow, t.red, t.wait_ms), (Led::On, Led::Off, Led::Off, 50));
    let e = c.handle(wait(false, true, 0));
    assert_eq!(e.command, Some(CockpitCommand::Shutdown));
    assert_eq!((e.green, e.yellow, e.red), (Led::Off, Led::On, Led::Off));
    assert_eq!(c.state, State::ShuttingDown);
    let e = c.handle(wait(false, false, 600));
    assert_eq!((e.green, e.yellow, e.red), (Led::Off, Led::On, Led::Off));
    let e = c.handle(Input::Event(CanEvent::DashboardState(0)));
    assert_eq!(e.confirm, Some(CockpitState::Idle));
    assert_eq!(e.yellow, Led::Off);
    assert_eq!(c, Cockpit { state: State::Idle, error_flag: false });
}

#[test]
fn cockpit_start_timeout_faults() {
    let mut c = Cockpit::new();
    c.begin();
    c.handle(wait(true, false, 0));
    c.begin();
    let e = c.handle(wait(false, false, 10_000));
    assert_eq!(e.error, None);
    let e = c.handle(wait(false, false, 10_001));
    assert_eq!(e.error, Some(CAN_TIMEOUT));
    assert!(c.error_flag);
    let t = c.begin();
    assert_eq!(c.state, State::Fault);
    assert_eq!((t.green, t.yellow, t.red, t.wait_ms), (Led::Off, Led::Off, Led::Toggle, 10));
    let e = c.handle(Input::Event(CanEvent::DashboardState(2)));
    assert_eq!(e.confirm, None);
    c.begin();
    assert_eq!(c.state, State::Fault);
}

#[test]
fn cockpit_shutdown_timeout_ends_idle_then_faults() {
    let mut c = Cockpit { state: State::Running, error_flag: false };
    c.handle(wait(false, true, 0));
    let e = c.handle(wait(false, false, 10_001));
    assert_eq!(e.error, Some(CAN_TIMEOUT));
    assert_eq!(e.yellow, Led::Off);
    assert_eq!(c, Cockpit { state: State::Idle, error_flag: true });
    c.begin();
    assert_eq!(c.state, State::Fault);
}

#[test]
fn cockpit_critical_error_and_force_shutdown() {
    let mut c = Cockpit { state: State::Running, error_flag: false };
    let e = c.handle(Input::Event(CanEvent::ForceShutdown));
    assert_eq!((e.green, e.yellow, e.red), (Led::Off, Led::Off, Led::Off));
    assert_eq!(c.state, State::Idle);
    c.handle(Input::Event(CanEvent::CriticalError));
    assert!(c.error_flag);
    c.begin();
    assert_eq!(c.state, State::Fault);
    // a critical error during a shutdown waits for the shutdown to end
    let mut d = Cockpit { state: State::ShuttingDown, error_flag: false };
    d.handle(Input::Event(CanEvent::CriticalError));
    assert!(!d.error_flag);
    assert_eq!(d.state, State::ShuttingDown);
}
