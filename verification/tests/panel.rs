use legion_control::battery::BatteryStatus;
use legion_control::errors::{ControlError, Setting};
use legion_control::gui::{
    action_report, perform_refresh, DeviceState, GuiAction, GuiUpdate, LegionControlApp,
};
use legion_control::models::{LaptopModel, Series};
use legion_control::power::PowerProfile;

fn legion() -> LaptopModel {
    LaptopModel {
        manufacturer: "LENOVO".to_string(),
        model_name: "Legion 5".to_string(),
        series: Series::Legion,
        bios_version: "GKCN".to_string(),
        supported: true,
    }
}

fn state(name: &str, supported: bool) -> DeviceState {
    DeviceState {
        device_name: name.to_string(),
        bios_version: "B1".to_string(),
        supported,
        battery_percent: Some(80),
        battery_charging: Some(true),
        conservation_mode: Some(false),
        rapid_charge: None,
        power_profile: Some(PowerProfile::Quiet),
    }
}

fn text_of(update: Option<GuiUpdate>) -> (bool, String) {
    match update {
        Some(GuiUpdate::ActionComplete(text)) => (true, text),
        Some(GuiUpdate::Error(text)) => (false, text),
        _ => panic!("no report"),
    }
}

#[test]
fn new_panel() {
    let app = LegionControlApp::new();
    assert_eq!(app.device_name, "Detecting...");
    assert_eq!(app.bios_version, "");
    assert!(!app.supported);
    assert_eq!(app.battery_percent, None);
    assert_eq!(app.battery_charging, None);
    assert_eq!(app.conservation_mode, None);
    assert_eq!(app.rapid_charge, None);
    assert_eq!(app.power_profile, None);
    assert_eq!(app.status_message, "Initializing...");
    assert_eq!(app.last_error, None);
    assert!(!app.show_sensitive);
    assert!(!app.is_busy);
    assert!(app.wants_first_refresh());
}

#[test]
fn refresh_is_requested_once_while_busy() {
    let mut app = LegionControlApp::new();
    assert_eq!(app.request_refresh(), Some(GuiAction::Refresh));
    assert!(app.is_busy);
    assert_eq!(app.status_message, "Refreshing...");
    assert!(!app.wants_first_refresh());
    assert_eq!(app.request_refresh(), None);
    assert!(app.is_busy);
    assert_eq!(app.status_message, "Refreshing...");
}

#[test]
fn refreshed_state_is_shown() {
    let mut app = LegionControlApp::new();
    app.request_refresh();
    app.apply_update(GuiUpdate::StateRefreshed(state("Legion 5", true)));
    assert!(!app.is_busy);
    assert_eq!(app.device_name, "Legion 5");
    assert_eq!(app.bios_version, "B1");
    assert!(app.supported);
    assert_eq!(app.battery_percent, Some(80));
    assert_eq!(app.battery_charging, Some(true));
    assert_eq!(app.conservation_mode, Some(false));
    assert_eq!(app.rapid_charge, None);
    assert_eq!(app.power_profile, Some(PowerProfile::Quiet));
    assert_eq!(app.status_message, "Ready");
    assert!(!app.wants_first_refresh());
}

#[test]
fn status_line_after_a_refresh() {
    let mut app = LegionControlApp::new();
    app.apply_update(GuiUpdate::StateRefreshed(state("ThinkPad", false)));
    assert_eq!(app.status_message, "Unsupported Device (Read-Only)");
    app.apply_update(GuiUpdate::StateRefreshed(state("Detection Failed", false)));
    assert_eq!(app.status_message, "Error: Device Detection Failed");
    app.apply_update(GuiUpdate::StateRefreshed(state("Detection Failed", true)));
    assert_eq!(app.status_message, "Ready");
}

#[test]
fn error_update_is_kept_and_ends_the_wait() {
    let mut app = LegionControlApp::new();
    app.action_sent(GuiAction::SetConservation(true));
    assert!(app.is_busy);
    app.apply_update(GuiUpdate::Error("Failed to set Conservation Mode: x".to_string()));
    assert!(!app.is_busy);
    assert_eq!(app.status_message, "Error");
    assert_eq!(app.last_error, Some("Failed to set Conservation Mode: x".to_string()));
    assert_eq!(app.device_name, "Detecting...");
    app.apply_update(GuiUpdate::ActionComplete("Rapid Charge: ON".to_string()));
    assert_eq!(app.status_message, "Rapid Charge: ON");
    assert_eq!(app.last_error, Some("Failed to set Conservation Mode: x".to_string()));
}

#[test]
fn panel_waits_for_all_but_lighting_reports() {
    for (action, busy) in [
        (GuiAction::Refresh, true),
        (GuiAction::SetConservation(false), true),
        (GuiAction::SetRapidCharge(true), true),
        (GuiAction::SetProfile(PowerProfile::Balanced), true),
        (GuiAction::SetLightingOwner(true), true),
        (GuiAction::SetBrightness(1), false),
        (GuiAction::SetStaticColor(1, 2, 3), false),
    ] {
        let mut app = LegionControlApp::new();
        app.action_sent(action);
        assert_eq!(app.is_busy, busy);
    }
    let mut app = LegionControlApp::new();
    app.action_sent(GuiAction::Refresh);
    app.action_sent(GuiAction::SetBrightness(0));
    assert!(app.is_busy);
}

#[test]
fn sensitive_fields_toggle() {
    let mut app = LegionControlApp::new();
    app.toggle_sensitive();
    assert!(app.show_sensitive);
    app.apply_update(GuiUpdate::ActionComplete("x".to_string()));
    assert!(app.show_sensitive);
    app.toggle_sensitive();
    assert!(!app.show_sensitive);
}

#[test]
fn which_actions_open_the_lock_and_refresh() {
    for (action, gated, refreshes) in [
        (GuiAction::Refresh, false, false),
        (GuiAction::SetConservation(true), true, true),
        (GuiAction::SetRapidCharge(false), true, true),
        (GuiAction::SetProfile(PowerProfile::Quiet), true, true),
        (GuiAction::SetLightingOwner(true), false, false),
        (GuiAction::SetBrightness(2), true, false),
        (GuiAction::SetStaticColor(0, 0, 255), true, false),
    ] {
        assert_eq!(action.opens_gate(), gated);
        assert_eq!(action.refreshes_after(), refreshes);
    }
}

#[test]
fn reports_of_success() {
    let ok = Ok(());
    for (action, text) in [
        (GuiAction::SetConservation(true), "Conservation Mode: ON"),
        (GuiAction::SetConservation(false), "Conservation Mode: OFF"),
        (GuiAction::SetRapidCharge(true), "Rapid Charge: ON"),
        (GuiAction::SetRapidCharge(false), "Rapid Charge: OFF"),
        (GuiAction::SetProfile(PowerProfile::Performance), "Profile set to Performance"),
        (GuiAction::SetProfile(PowerProfile::Balanced), "Profile set to Balanced"),
        (GuiAction::SetProfile(PowerProfile::Quiet), "Profile set to Quiet"),
        (GuiAction::SetLightingOwner(true), "Lighting Control: APP"),
        (GuiAction::SetLightingOwner(false), "Lighting Control: FIRMWARE"),
        (GuiAction::SetBrightness(0), "Brightness set to 0"),
        (GuiAction::SetBrightness(255), "Brightness set to 255"),
        (GuiAction::SetStaticColor(1, 2, 3), "Static Color Applied"),
    ] {
        assert_eq!(text_of(action_report(action, &ok)), (true, text.to_string()));
    }
}

#[test]
fn reports_of_failure() {
    let locked = Err(ControlError::WriteLocked(Setting::RapidCharge));
    let failed = Err(ControlError::TransportFailure("boom".to_string()));
    for (action, text) in [
        (GuiAction::SetConservation(true), "Failed to set Conservation Mode: boom"),
        (GuiAction::SetRapidCharge(true), "Failed to set Rapid Charge: boom"),
        (GuiAction::SetProfile(PowerProfile::Quiet), "Failed to set Profile: boom"),
        (GuiAction::SetLightingOwner(true), "Failed to set ownership: boom"),
        (GuiAction::SetBrightness(1), "Lighting Error: boom"),
        (GuiAction::SetStaticColor(1, 2, 3), "Lighting Error: boom"),
    ] {
        assert_eq!(text_of(action_report(action, &failed)), (false, text.to_string()));
    }
    assert_eq!(
        text_of(action_report(GuiAction::SetRapidCharge(true), &locked)),
        (false, "Failed to set Rapid Charge: Write operations are locked: Rapid Charge".to_string())
    );
}

#[test]
fn refresh_has_no_report() {
    assert!(action_report(GuiAction::Refresh, &Ok(())).is_none());
    assert!(action_report(
        GuiAction::Refresh,
        &Err(ControlError::TransportFailure("x".to_string()))
    )
    .is_none());
}

#[test]
fn refresh_gathers_the_readings() {
    let found = perform_refresh(
        Ok(legion()),
        Some(BatteryStatus { charge_percent: 55, is_charging: false }),
        Some(true),
        None,
        Some(PowerProfile::Balanced),
    );
    assert_eq!(found.device_name, "Legion 5");
    assert_eq!(found.bios_version, "GKCN");
    assert!(found.supported);
    assert_eq!(found.battery_percent, Some(55));
    assert_eq!(found.battery_charging, Some(false));
    assert_eq!(found.conservation_mode, Some(true));
    assert_eq!(found.rapid_charge, None);
    assert_eq!(found.power_profile, Some(PowerProfile::Balanced));
}

#[test]
fn refresh_shows_a_failed_resolution_in_place_of_the_name() {
    let found = perform_refresh(
        Err(ControlError::TransportFailure("manufacturer: denied".to_string())),
        None,
        None,
        Some(false),
        None,
    );
    assert_eq!(found.device_name, "Error: manufacturer: denied");
    assert_eq!(found.bios_version, "");
    assert!(!found.supported);
    assert_eq!(found.battery_percent, None);
    assert_eq!(found.battery_charging, None);
    assert_eq!(found.conservation_mode, None);
    assert_eq!(found.rapid_charge, Some(false));
    assert_eq!(found.power_profile, None);
}
