//! The thermal and performance profile.

use vstd::prelude::*;
use crate::errors::{ControlError, Setting};
use crate::guards::GlobalWriteLock;
use crate::query::{fan_mode_write, WmiQueryHandler};

verus! {

/// A fan-curve and power-limit preset of the firmware.
#[derive(Debug, Clone, Copy, PartialEq, Eq, Structural)]
pub enum PowerProfile {
    Performance,
    Balanced,
    Quiet,
    Unknown,
}

/// The power mode as the generic interface reports it.
#[derive(Debug, Clone, Copy, PartialEq, Eq, Structural)]
pub enum PowerMode {
    Performance,
    Balanced,
    Quiet,
    Unknown,
}

/// One fan-mode write: the mode number and the script that sets it.
#[derive(Debug, Clone, PartialEq, Eq)]
pub struct FanModeWrite {
    pub mode: u32,
    pub script: String,
}

/// The fan mode number of a profile. `Unknown` has none: it can be read
/// but not set.
pub open spec fn mode_of(profile: PowerProfile) -> Option<u32> {
    match profile {
        PowerProfile::Quiet => Some(1u32),
        PowerProfile::Balanced => Some(2u32),
        PowerProfile::Performance => Some(3u32),
        PowerProfile::Unknown => None,
    }
}

/// The profile that a fan mode number stands for.
pub open spec fn profile_of(mode: u32) -> PowerProfile {
    if mode == 3 {
        PowerProfile::Performance
    } else if mode == 2 {
        PowerProfile::Balanced
    } else if mode == 1 {
        PowerProfile::Quiet
    } else {
        PowerProfile::Unknown
    }
}

/// The display text of a profile.
pub open spec fn label_of(profile: PowerProfile) -> Seq<char> {
    match profile {
        PowerProfile::Performance => "Performance (Red)"@,
        PowerProfile::Balanced => "Balanced (White)"@,
        PowerProfile::Quiet => "Quiet (Blue)"@,
        PowerProfile::Unknown => "Unknown"@,
    }
}

/// What [`set_power_profile`] owes for a gate and a profile.
pub open spec fn is_profile_request(
    allowed: bool,
    profile: PowerProfile,
    request: Result<FanModeWrite, ControlError>,
) -> bool {
    if !allowed {
        request == Err::<FanModeWrite, ControlError>(
            ControlError::WriteLocked(Setting::PowerProfile),
        )
    } else {
        match mode_of(profile) {
            None => request == Err::<FanModeWrite, ControlError>(
                ControlError::NotSettable(Setting::PowerProfile),
            ),
            Some(mode) => request matches Ok(write) && write.mode == mode && write.script@
                == fan_mode_write(mode),
        }
    }
}

impl PowerProfile {
    /// The display text of the profile, with the colour of its indicator.
    pub fn label(&self) -> (text: &'static str)
        ensures
            text@ == label_of(*self),
    {
        match self {
            PowerProfile::Performance => "Performance (Red)",
            PowerProfile::Balanced => "Balanced (White)",
            PowerProfile::Quiet => "Quiet (Blue)",
            PowerProfile::Unknown => "Unknown",
        }
    }

    /// The fan mode number of the profile, if it can be set.
    pub fn mode(&self) -> (mode: Option<u32>)
        ensures
            mode == mode_of(*self),
    {
        match self {
            PowerProfile::Quiet => Some(1),
            PowerProfile::Balanced => Some(2),
            PowerProfile::Performance => Some(3),
            PowerProfile::Unknown => None,
        }
    }
}

/// The power mode of the generic interface, which reports none.
pub fn get_power_mode() -> (mode: PowerMode)
    ensures
        mode == PowerMode::Unknown,
{
    PowerMode::Unknown
}

/// The profile in force, from the outcome of the fan-mode read; nothing
/// where the read failed.
pub fn get_power_profile(reading: &Result<u32, ControlError>) -> (profile: Option<PowerProfile>)
    ensures
        profile == match *reading {
            Ok(mode) => Some(profile_of(mode)),
            Err(_) => None,
        },
{
    match reading {
        Ok(mode) => Some(
            if *mode == 3 {
                PowerProfile::Performance
            } else if *mode == 2 {
                PowerProfile::Balanced
            } else if *mode == 1 {
                PowerProfile::Quiet
            } else {
                PowerProfile::Unknown
            },
        ),
        Err(_) => None,
    }
}

/// The fan-mode write that sets a profile, or the refusal of a closed
/// gate, or of a profile that cannot be set. The lock is consulted first.
pub fn set_power_profile(gate: &GlobalWriteLock, profile: PowerProfile) -> (request: Result<
    FanModeWrite,
    ControlError,
>)
    ensures
        is_profile_request(gate.allowed(), profile, request),
        !gate.allowed() ==> request == Err::<FanModeWrite, ControlError>(
            ControlError::WriteLocked(Setting::PowerProfile),
        ),
        gate.allowed() && profile != PowerProfile::Unknown ==> request is Ok,
{
    if !gate.is_write_allowed() {
        return Err(ControlError::WriteLocked(Setting::PowerProfile));
    }
    match profile.mode() {
        None => Err(ControlError::NotSettable(Setting::PowerProfile)),
        Some(mode) => {
            let adapter = WmiQueryHandler {  };
            Ok(FanModeWrite { mode, script: adapter.set_thermal_mode(mode) })
        },
    }
}

/// A profile that can be set is read back from its own mode number.
pub proof fn law_profile_round_trip(profile: PowerProfile)
    requires
        profile != PowerProfile::Unknown,
    ensures
        mode_of(profile) matches Some(mode) && profile_of(mode) == profile,
{
}

} // verus!
