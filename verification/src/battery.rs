//! Battery: charge status, conservation mode and rapid charge.
//!
//! Reads take what a query returned and never fail: whatever went wrong,
//! the value is reported as absent. Writes consult the write gate first
//! and, if it is open, hand back the one device command to issue.

use vstd::prelude::*;
use crate::energy::{
    conservation_value, is_command, rapid_charge_value, ControlRequest, EnergyDriver,
};
use crate::errors::{ControlError, Setting};
use crate::guards::GlobalWriteLock;
use crate::query::{read_switch, setting_in, switch_of, BatteryRecord};

verus! {

/// The status number that the battery table gives while on mains power.
pub const STATUS_ON_AC: u16 = 2;

/// Charge and charging state of the battery.
#[derive(Debug, Clone, Copy, PartialEq, Eq, Structural)]
pub struct BatteryStatus {
    pub charge_percent: u16,
    pub is_charging: bool,
}

/// The status that a battery row stands for.
pub open spec fn status_of(record: BatteryRecord) -> BatteryStatus {
    BatteryStatus {
        charge_percent: record.estimated_charge_remaining,
        is_charging: record.battery_status == 2,
    }
}

/// The key of conservation mode in the settings table.
pub open spec fn conservation_key() -> Seq<char> {
    "ConservationMode"@
}

/// The key of rapid charge in the settings table.
pub open spec fn rapid_charge_key() -> Seq<char> {
    "RapidCharge"@
}

/// What a switch reads as from the outcome of the table query: the value
/// of the first row under the key, if the query succeeded and the row says
/// `Enable` or `Disable`.
pub open spec fn switch_reading(table: Result<Vec<String>, ControlError>, key: Seq<char>) -> Option<
    bool,
> {
    match table {
        Err(_) => None,
        Ok(rows) => match setting_in(rows@, key) {
            None => None,
            Some(value) => switch_of(value),
        },
    }
}

/// The status of the first battery, or nothing where the query failed or
/// found no battery.
pub fn get_battery_status(reading: &Result<Vec<BatteryRecord>, ControlError>) -> (status: Option<
    BatteryStatus,
>)
    ensures
        status == match *reading {
            Ok(rows) => if rows@.len() > 0 {
                Some(status_of(rows@[0]))
            } else {
                None
            },
            Err(_) => None,
        },
{
    match reading {
        Ok(rows) => {
            if rows.len() > 0 {
                let record = rows[0];
                Some(
                    BatteryStatus {
                        charge_percent: record.estimated_charge_remaining,
                        is_charging: record.battery_status == STATUS_ON_AC,
                    },
                )
            } else {
                None
            }
        },
        Err(_) => None,
    }
}

/// Whether conservation mode is on, from the outcome of the table query.
pub fn get_conservation_mode(table: &Result<Vec<String>, ControlError>) -> (enabled: Option<bool>)
    ensures
        enabled == switch_reading(*table, conservation_key()),
{
    match table {
        Ok(rows) => match read_switch(rows, "ConservationMode") {
            Ok(on) => Some(on),
            Err(_) => None,
        },
        Err(_) => None,
    }
}

/// Whether rapid charge is on, from the outcome of the table query.
pub fn get_rapid_charge(table: &Result<Vec<String>, ControlError>) -> (enabled: Option<bool>)
    ensures
        enabled == switch_reading(*table, rapid_charge_key()),
{
    match table {
        Ok(rows) => match read_switch(rows, "RapidCharge") {
            Ok(on) => Some(on),
            Err(_) => None,
        },
        Err(_) => None,
    }
}

/// The command that switches conservation mode, or the refusal of a
/// closed gate. Nothing is handed out to send while the lock is closed.
pub fn set_conservation_mode(gate: &GlobalWriteLock, enable: bool) -> (request: Result<
    ControlRequest,
    ControlError,
>)
    ensures
        !gate.allowed() ==> request == Err::<ControlRequest, ControlError>(
            ControlError::WriteLocked(Setting::ConservationMode),
        ),
        gate.allowed() ==> (request matches Ok(command) && is_command(
            command,
            0x831020F8,
            conservation_value(enable),
        )),
{
    if !gate.is_write_allowed() {
        return Err(ControlError::WriteLocked(Setting::ConservationMode));
    }
    let driver = EnergyDriver {  };
    Ok(driver.set_conservation_mode(enable))
}

/// The command that switches rapid charge, or the refusal of a closed
/// gate. Nothing is handed out to send while the lock is closed.
pub fn set_rapid_charge(gate: &GlobalWriteLock, enable: bool) -> (request: Result<
    ControlRequest,
    ControlError,
>)
    ensures
        !gate.allowed() ==> request == Err::<ControlRequest, ControlError>(
            ControlError::WriteLocked(Setting::RapidCharge),
        ),
        gate.allowed() ==> (request matches Ok(command) && is_command(
            command,
            0x831020F8,
            rapid_charge_value(enable),
        )),
{
    if !gate.is_write_allowed() {
        return Err(ControlError::WriteLocked(Setting::RapidCharge));
    }
    let driver = EnergyDriver {  };
    Ok(driver.set_rapid_charge(enable))
}

} // verus!
