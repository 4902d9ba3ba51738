//! The state behind the control panel, without its widgets.
//!
//! The panel sends actions to a worker and takes updates back. What the
//! panel shows after an update, which action a request leads to, and what
//! the worker reports for an action are decided here; drawing, threads and
//! channels are the caller's part.

use vstd::prelude::*;
use crate::battery::BatteryStatus;
use crate::errors::{message_of, ControlError};
use crate::models::LaptopModel;
use crate::power::PowerProfile;
use crate::text::{join, decimal_digits, push_decimal};

verus! {

/// What one refresh found.
#[derive(Debug, Clone)]
pub struct DeviceState {
    pub device_name: String,
    pub bios_version: String,
    pub supported: bool,
    pub battery_percent: Option<u16>,
    pub battery_charging: Option<bool>,
    pub conservation_mode: Option<bool>,
    pub rapid_charge: Option<bool>,
    pub power_profile: Option<PowerProfile>,
}

/// What the worker reports to the panel.
#[derive(Debug, Clone)]
pub enum GuiUpdate {
    StateRefreshed(DeviceState),
    Error(String),
    ActionComplete(String),
}

/// What the panel asks of the worker.
#[derive(Debug, Clone, Copy, PartialEq, Eq, Structural)]
pub enum GuiAction {
    Refresh,
    SetConservation(bool),
    SetRapidCharge(bool),
    SetProfile(PowerProfile),
    SetLightingOwner(bool),
    SetBrightness(u8),
    SetStaticColor(u8, u8, u8),
}

/// The state of the control panel.
#[derive(Debug, Clone)]
pub struct LegionControlApp {
    pub device_name: String,
    pub bios_version: String,
    pub supported: bool,
    pub battery_percent: Option<u16>,
    pub battery_charging: Option<bool>,
    pub conservation_mode: Option<bool>,
    pub rapid_charge: Option<bool>,
    pub power_profile: Option<PowerProfile>,
    pub status_message: String,
    pub last_error: Option<String>,
    /// Model and firmware version are hidden until the user asks for them.
    pub show_sensitive: bool,
    pub is_busy: bool,
}

/// "ON" or "OFF".
pub open spec fn on_off(on: bool) -> Seq<char> {
    if on {
        "ON"@
    } else {
        "OFF"@
    }
}

/// The name of a profile as a report gives it.
pub open spec fn profile_name(profile: PowerProfile) -> Seq<char> {
    match profile {
        PowerProfile::Performance => "Performance"@,
        PowerProfile::Balanced => "Balanced"@,
        PowerProfile::Quiet => "Quiet"@,
        PowerProfile::Unknown => "Unknown"@,
    }
}

/// The report of an action that succeeded. A refresh is answered by the
/// refreshed state and has no report of its own.
pub open spec fn success_text(action: GuiAction) -> Seq<char> {
    match action {
        GuiAction::Refresh => Seq::<char>::empty(),
        GuiAction::SetConservation(on) => "Conservation Mode: "@ + on_off(on),
        GuiAction::SetRapidCharge(on) => "Rapid Charge: "@ + on_off(on),
        GuiAction::SetProfile(profile) => "Profile set to "@ + profile_name(profile),
        GuiAction::SetLightingOwner(app) => "Lighting Control: "@ + if app {
            "APP"@
        } else {
            "FIRMWARE"@
        },
        GuiAction::SetBrightness(level) => "Brightness set to "@ + decimal_digits(level as nat),
        GuiAction::SetStaticColor(_, _, _) => "Static Color Applied"@,
    }
}

/// What the report of a failed action begins with.
pub open spec fn failure_head(action: GuiAction) -> Seq<char> {
    match action {
        GuiAction::Refresh => Seq::<char>::empty(),
        GuiAction::SetConservation(_) => "Failed to set Conservation Mode: "@,
        GuiAction::SetRapidCharge(_) => "Failed to set Rapid Charge: "@,
        GuiAction::SetProfile(_) => "Failed to set Profile: "@,
        GuiAction::SetLightingOwner(_) => "Failed to set ownership: "@,
        GuiAction::SetBrightness(_) => "Lighting Error: "@,
        GuiAction::SetStaticColor(_, _, _) => "Lighting Error: "@,
    }
}

/// Whether the worker opens the write gate for an action.
pub open spec fn is_gated_write(action: GuiAction) -> bool {
    action is SetConservation || action is SetRapidCharge || action is SetProfile
        || action is SetBrightness || action is SetStaticColor
}

/// Whether the worker refreshes the state after an action.
pub open spec fn is_followed_by_refresh(action: GuiAction) -> bool {
    action is SetConservation || action is SetRapidCharge || action is SetProfile
}

/// Whether the panel waits for the worker after sending an action.
pub open spec fn makes_busy(action: GuiAction) -> bool {
    !(action is SetBrightness || action is SetStaticColor)
}

/// The status line after a refresh.
pub open spec fn status_after_refresh(supported: bool, device_name: Seq<char>) -> Seq<char> {
    if supported {
        "Ready"@
    } else if device_name == "Detection Failed"@ {
        "Error: Device Detection Failed"@
    } else {
        "Unsupported Device (Read-Only)"@
    }
}

/// Whether `state` is what a refresh reports for the given readings.
pub open spec fn is_refreshed_state(
    identity: Result<LaptopModel, ControlError>,
    battery: Option<BatteryStatus>,
    conservation_mode: Option<bool>,
    rapid_charge: Option<bool>,
    power_profile: Option<PowerProfile>,
    state: DeviceState,
) -> bool {
    &&& match identity {
        Ok(model) => state.device_name == model.model_name && state.bios_version
            == model.bios_version && state.supported == model.supported,
        Err(error) => state.device_name@ == "Error: "@ + message_of(error)
            && state.bios_version@ == Seq::<char>::empty() && !state.supported,
    }
    &&& state.battery_percent == match battery {
        Some(status) => Some(status.charge_percent),
        None => None,
    }
    &&& state.battery_charging == match battery {
        Some(status) => Some(status.is_charging),
        None => None,
    }
    &&& state.conservation_mode == conservation_mode
    &&& state.rapid_charge == rapid_charge
    &&& state.power_profile == power_profile
}

/// Whether `report` is the worker's report of an action and its outcome.
/// A refresh has none.
pub open spec fn is_action_report(
    action: GuiAction,
    outcome: Result<(), ControlError>,
    report: Option<GuiUpdate>,
) -> bool {
    if action is Refresh {
        report is None
    } else {
        match outcome {
            Ok(_) => report matches Some(GuiUpdate::ActionComplete(text)) && text@
                == success_text(action),
            Err(error) => report matches Some(GuiUpdate::Error(text)) && text@ == failure_head(
                action,
            ) + message_of(error),
        }
    }
}

/// Whether `after` is the panel that `before` becomes on `update`.
pub open spec fn is_updated(
    before: LegionControlApp,
    update: GuiUpdate,
    after: LegionControlApp,
) -> bool {
    &&& !after.is_busy
    &&& after.show_sensitive == before.show_sensitive
    &&& match update {
        GuiUpdate::StateRefreshed(state) => {
            &&& after.device_name == state.device_name
            &&& after.bios_version == state.bios_version
            &&& after.supported == state.supported
            &&& after.battery_percent == state.battery_percent
            &&& after.battery_charging == state.battery_charging
            &&& after.conservation_mode == state.conservation_mode
            &&& after.rapid_charge == state.rapid_charge
            &&& after.power_profile == state.power_profile
            &&& after.last_error == before.last_error
            &&& after.status_message@ == status_after_refresh(
                state.supported,
                state.device_name@,
            )
        },
        GuiUpdate::Error(text) => {
            &&& same_readings(before, after)
            &&& after.last_error == Some(text)
            &&& after.status_message@ == "Error"@
        },
        GuiUpdate::ActionComplete(text) => {
            &&& same_readings(before, after)
            &&& after.last_error == before.last_error
            &&& after.status_message == text
        },
    }
}

/// The two panels show the same readings of the device.
pub open spec fn same_readings(a: LegionControlApp, b: LegionControlApp) -> bool {
    &&& a.device_name == b.device_name
    &&& a.bios_version == b.bios_version
    &&& a.supported == b.supported
    &&& a.battery_percent == b.battery_percent
    &&& a.battery_charging == b.battery_charging
    &&& a.conservation_mode == b.conservation_mode
    &&& a.rapid_charge == b.rapid_charge
    &&& a.power_profile == b.power_profile
}

impl GuiAction {
    /// Whether the worker opens the write gate before it carries out the
    /// action.
    pub fn opens_gate(&self) -> (gated: bool)
        ensures
            gated == is_gated_write(*self),
    {
        match self {
            GuiAction::SetConservation(_) => true,
            GuiAction::SetRapidCharge(_) => true,
            GuiAction::SetProfile(_) => true,
            GuiAction::SetBrightness(_) => true,
            GuiAction::SetStaticColor(_, _, _) => true,
            _ => false,
        }
    }

    /// Whether the worker reads the state anew after the action.
    pub fn refreshes_after(&self) -> (refreshes: bool)
        ensures
            refreshes == is_followed_by_refresh(*self),
    {
        match self {
            GuiAction::SetConservation(_) => true,
            GuiAction::SetRapidCharge(_) => true,
            GuiAction::SetProfile(_) => true,
            _ => false,
        }
    }
}

fn on_off_text(on: bool) -> (text: &'static str)
    ensures
        text@ == on_off(on),
{
    if on {
        "ON"
    } else {
        "OFF"
    }
}

fn profile_text(profile: PowerProfile) -> (text: &'static str)
    ensures
        text@ == profile_name(profile),
{
    match profile {
        PowerProfile::Performance => "Performance",
        PowerProfile::Balanced => "Balanced",
        PowerProfile::Quiet => "Quiet",
        PowerProfile::Unknown => "Unknown",
    }
}

/// The worker's report of an action and its outcome: a line of success,
/// or the failure with the setting it belongs to. A refresh has none.
pub fn action_report(action: GuiAction, outcome: &Result<(), ControlError>) -> (report: Option<
    GuiUpdate,
>)
    ensures
        is_action_report(action, *outcome, report),
{
    if let GuiAction::Refresh = action {
        return None;
    }
    match outcome {
        Ok(_) => {
            let text = match action {
                GuiAction::Refresh => String::new(),
                GuiAction::SetConservation(on) => join("Conservation Mode: ", on_off_text(on)),
                GuiAction::SetRapidCharge(on) => join("Rapid Charge: ", on_off_text(on)),
                GuiAction::SetProfile(profile) => join("Profile set to ", profile_text(profile)),
                GuiAction::SetLightingOwner(app) => join(
                    "Lighting Control: ",
                    if app {
                        "APP"
                    } else {
                        "FIRMWARE"
                    },
                ),
                GuiAction::SetBrightness(level) => {
                    let mut text = "Brightness set to ".to_string();
                    push_decimal(&mut text, level as u32);
                    text
                },
                GuiAction::SetStaticColor(_, _, _) => "Static Color Applied".to_string(),
            };
            Some(GuiUpdate::ActionComplete(text))
        },
        Err(error) => {
            let head = match action {
                GuiAction::Refresh => "",
                GuiAction::SetConservation(_) => "Failed to set Conservation Mode: ",
                GuiAction::SetRapidCharge(_) => "Failed to set Rapid Charge: ",
                GuiAction::SetProfile(_) => "Failed to set Profile: ",
                GuiAction::SetLightingOwner(_) => "Failed to set ownership: ",
                GuiAction::SetBrightness(_) => "Lighting Error: ",
                GuiAction::SetStaticColor(_, _, _) => "Lighting Error: ",
            };
            let detail = error.message();
            Some(GuiUpdate::Error(join(head, detail.as_str())))
        },
    }
}

/// The state that a refresh reports, from what the reads returned. A
/// failed resolution shows its error in place of the model name.
pub fn perform_refresh(
    identity: Result<LaptopModel, ControlError>,
    battery: Option<BatteryStatus>,
    conservation_mode: Option<bool>,
    rapid_charge: Option<bool>,
    power_profile: Option<PowerProfile>,
) -> (state: DeviceState)
    ensures
        is_refreshed_state(
            identity,
            battery,
            conservation_mode,
            rapid_charge,
            power_profile,
            state,
        ),
{
    let mut state = DeviceState {
        device_name: "Unknown".to_string(),
        bios_version: String::new(),
        supported: false,
        battery_percent: None,
        battery_charging: None,
        conservation_mode,
        rapid_charge,
        power_profile,
    };
    match identity {
        Ok(device) => {
            state.device_name = device.model_name;
            state.bios_version = device.bios_version;
            state.supported = device.supported;
        },
        Err(error) => {
            let detail = error.message();
            state.device_name = join("Error: ", detail.as_str());
        },
    }
    if let Some(status) = battery {
        state.battery_percent = Some(status.charge_percent);
        state.battery_charging = Some(status.is_charging);
    }
    state
}

impl LegionControlApp {
    /// The panel before the first refresh.
    pub fn new() -> (app: Self)
        ensures
            app.device_name@ == "Detecting..."@,
            app.bios_version@ == Seq::<char>::empty(),
            !app.supported,
            app.battery_percent is None,
            app.battery_charging is None,
            app.conservation_mode is None,
            app.rapid_charge is None,
            app.power_profile is None,
            app.status_message@ == "Initializing..."@,
            app.last_error is None,
            !app.show_sensitive,
            !app.is_busy,
    {
        LegionControlApp {
            device_name: "Detecting...".to_string(),
            bios_version: String::new(),
            supported: false,
            battery_percent: None,
            battery_charging: None,
            conservation_mode: None,
            rapid_charge: None,
            power_profile: None,
            status_message: "Initializing...".to_string(),
            last_error: None,
            show_sensitive: false,
            is_busy: false,
        }
    }

    /// Whether the panel has never been refreshed and is free to ask.
    pub fn wants_first_refresh(&self) -> (wanted: bool)
        ensures
            wanted == (self.device_name@ == "Detecting..."@ && !self.is_busy),
    {
        self.device_name == "Detecting...".to_string() && !self.is_busy
    }

    /// Asks for a refresh unless the worker is busy: the action to send,
    /// if any. A busy panel is left as it is.
    pub fn request_refresh(&mut self) -> (action: Option<GuiAction>)
        ensures
            old(self).is_busy ==> action is None && *final(self) == *old(self),
            !old(self).is_busy ==> {
                &&& action == Some(GuiAction::Refresh)
                &&& final(self).is_busy
                &&& final(self).status_message@ == "Refreshing..."@
                &&& same_readings(*old(self), *final(self))
                &&& final(self).last_error == old(self).last_error
                &&& final(self).show_sensitive == old(self).show_sensitive
            },
    {
        if !self.is_busy {
            self.status_message = "Refreshing...".to_string();
            self.is_busy = true;
            Some(GuiAction::Refresh)
        } else {
            None
        }
    }

    /// Notes that an action was sent to the worker. The panel waits for
    /// every action but the lighting reports, which are not answered by a
    /// new state.
    pub fn action_sent(&mut self, action: GuiAction)
        ensures
            final(self).is_busy == (old(self).is_busy || makes_busy(action)),
            same_readings(*old(self), *final(self)),
            final(self).status_message == old(self).status_message,
            final(self).last_error == old(self).last_error,
            final(self).show_sensitive == old(self).show_sensitive,
    {
        match action {
            GuiAction::SetBrightness(_) => {},
            GuiAction::SetStaticColor(_, _, _) => {},
            _ => {
                self.is_busy = true;
            },
        }
    }

    /// Takes an update from the worker into the panel.
    pub fn apply_update(&mut self, update: GuiUpdate)
        ensures
            is_updated(*old(self), update, *final(self)),
    {
        self.is_busy = false;
        match update {
            GuiUpdate::StateRefreshed(state) => {
                self.status_message = if state.supported {
                    "Ready".to_string()
                } else if state.device_name == "Detection Failed".to_string() {
                    "Error: Device Detection Failed".to_string()
                } else {
                    "Unsupported Device (Read-Only)".to_string()
                };
                self.device_name = state.device_name;
                self.bios_version = state.bios_version;
                self.supported = state.supported;
                self.battery_percent = state.battery_percent;
                self.battery_charging = state.battery_charging;
                self.conservation_mode = state.conservation_mode;
                self.rapid_charge = state.rapid_charge;
                self.power_profile = state.power_profile;
            },
            GuiUpdate::Error(text) => {
                self.last_error = Some(text);
                self.status_message = "Error".to_string();
            },
            GuiUpdate::ActionComplete(text) => {
                self.status_message = text;
            },
        }
    }

    /// Shows or hides the model and the firmware version.
    pub fn toggle_sensitive(&mut self)
        ensures
            final(self).show_sensitive == !old(self).show_sensitive,
            same_readings(*old(self), *final(self)),
            final(self).is_busy == old(self).is_busy,
            final(self).status_message == old(self).status_message,
            final(self).last_error == old(self).last_error,
    {
        self.show_sensitive = !self.show_sensitive;
    }
}

} // verus!
