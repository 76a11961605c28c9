use framework_tool_tui::app::{App, AppEvent};
use framework_tool_tui::config::Config;
use framework_tool_tui::framework::fingerprint::Fingerprint;
use framework_tool_tui::framework::info::FrameworkInfo;
use framework_tool_tui::framework::HwError;
use framework_tool_tui::tui::StatusMessage;

fn new_app() -> App {
    App::new(
        Fingerprint::percentage(),
        FrameworkInfo::default(),
        Config::default(),
    )
}

#[test]
fn quit_stops_the_loop() {
    let mut app = new_app();
    assert!(app.running);
    app.handle_event(AppEvent::Quit, Ok(()));
    assert!(!app.running);
}

#[test]
fn successful_charge_limit_write_is_mirrored_into_the_snapshot() {
    let mut app = new_app();
    app.handle_event(AppEvent::SetMaxChargeLimit(80), Ok(()));
    assert_eq!(app.info.max_charge_limit, Some(80));
    assert!(app.tui.error_message.is_none());
    assert!(app.running);
}

#[test]
fn failed_charge_limit_write_becomes_a_message_and_the_loop_continues() {
    let mut app = new_app();
    app.handle_event(
        AppEvent::SetMaxChargeLimit(80),
        Err(HwError::Other("charge limit rejected".to_string())),
    );
    assert_eq!(app.info.max_charge_limit, None);
    assert_eq!(
        app.tui.error_message,
        Some(StatusMessage::Hardware("charge limit rejected".to_string()))
    );
    assert!(app.running);
}

#[test]
fn outdated_firmware_gets_the_dedicated_fingerprint_message() {
    let mut app = new_app();
    app.handle_event(
        AppEvent::SetFingerprintBrightness(55),
        Err(HwError::FirmwareUpdateRequired),
    );
    assert_eq!(
        app.tui.error_message,
        Some(StatusMessage::FingerprintNeedsBiosUpdate)
    );
    assert_eq!(
        app.tui.error_message.as_ref().unwrap().text(),
        "Couldn't set fingerprint brightness. Please, update your BIOS."
    );
    assert_eq!(app.info.fp_brightness_percentage, None);
    assert!(app.running);
}

#[test]
fn successful_fingerprint_write_is_mirrored_into_the_snapshot() {
    let mut app = new_app();
    app.handle_event(AppEvent::SetFingerprintBrightness(55), Ok(()));
    assert_eq!(app.info.fp_brightness_percentage, Some(55));
    assert!(app.tui.error_message.is_none());
}

#[test]
fn other_fingerprint_failure_is_shown_as_reported() {
    let mut app = new_app();
    app.handle_event(
        AppEvent::SetFingerprintBrightness(55),
        Err(HwError::Other("bus timeout".to_string())),
    );
    assert_eq!(
        app.tui.error_message,
        Some(StatusMessage::Hardware("bus timeout".to_string()))
    );
    assert_eq!(app.tui.error_message.as_ref().unwrap().text(), "bus timeout");
}

#[test]
fn keyboard_brightness_is_fire_and_forget() {
    let mut app = new_app();
    app.handle_event(AppEvent::SetKeyboardBrightness(35), Ok(()));
    assert_eq!(app.info.kb_brightness_percentage, Some(35));
    assert!(app.tui.error_message.is_none());
}

#[test]
fn tick_interval_change_is_recorded_in_the_configuration() {
    let mut app = new_app();
    assert_eq!(app.config.tick_interval_ms, 1000);
    app.handle_event(AppEvent::SetTickInterval(250), Ok(()));
    assert_eq!(app.config.tick_interval_ms, 250);
}

#[test]
fn a_new_snapshot_replaces_the_whole_value() {
    let mut app = new_app();
    let mut info = FrameworkInfo::default();
    info.charge_percentage = Some(73);
    info.is_charging = true;
    info.is_ac_connected = true;
    app.set_info(info);
    assert_eq!(app.info.charge_percentage, Some(73));
    assert!(app.info.is_charging);
}
