//! The failures that the control layer reports.

use vstd::prelude::*;
use crate::text::join;

verus! {

/// A logical setting that can be written.
#[derive(Debug, Clone, Copy, PartialEq, Eq, Structural)]
pub enum Setting {
    ConservationMode,
    RapidCharge,
    PowerProfile,
    Brightness,
    StaticColor,
}

/// Why an operation did not succeed. No failure is fatal: each belongs to
/// one call, and the caller may retry or report the value as unknown.
#[derive(Debug, Clone, PartialEq, Eq)]
pub enum ControlError {
    /// A device or a setting is absent; expected on unsupported hardware.
    /// The text names what was looked for.
    NotFound(String),
    /// The write gate was closed when the named setting was to be written.
    WriteLocked(Setting),
    /// A query or a device call failed, or its reply had an unexpected
    /// shape. The text says which and why.
    TransportFailure(String),
    /// The value asked for cannot be written to the named setting.
    NotSettable(Setting),
}

/// The display name of a setting.
pub open spec fn setting_name(setting: Setting) -> Seq<char> {
    match setting {
        Setting::ConservationMode => "Conservation Mode"@,
        Setting::RapidCharge => "Rapid Charge"@,
        Setting::PowerProfile => "Power Profile"@,
        Setting::Brightness => "Brightness"@,
        Setting::StaticColor => "Static Color"@,
    }
}

/// The text that [`ControlError::message`] gives for an error.
pub open spec fn message_of(error: ControlError) -> Seq<char> {
    match error {
        ControlError::NotFound(what) => "Not found: "@ + what@,
        ControlError::WriteLocked(setting) => "Write operations are locked: "@ + setting_name(
            setting,
        ),
        ControlError::TransportFailure(detail) => detail@,
        ControlError::NotSettable(setting) => "Unsupported value for "@ + setting_name(setting),
    }
}

impl Setting {
    /// The display name of the setting.
    pub fn name(&self) -> (name: &'static str)
        ensures
            name@ == setting_name(*self),
    {
        match self {
            Setting::ConservationMode => "Conservation Mode",
            Setting::RapidCharge => "Rapid Charge",
            Setting::PowerProfile => "Power Profile",
            Setting::Brightness => "Brightness",
            Setting::StaticColor => "Static Color",
        }
    }
}

impl ControlError {
    /// A line of text for the user, naming the setting or transport.
    pub fn message(&self) -> (text: String)
        ensures
            text@ == message_of(*self),
    {
        match self {
            ControlError::NotFound(what) => join("Not found: ", what.as_str()),
            ControlError::WriteLocked(setting) => join(
                "Write operations are locked: ",
                setting.name(),
            ),
            ControlError::TransportFailure(detail) => detail.clone(),
            ControlError::NotSettable(setting) => join("Unsupported value for ", setting.name()),
        }
    }
}

} // verus!
