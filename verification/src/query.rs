//! The structured-query adapter: what is read from the management-data
//! provider, and what is asked of it through the scripting host.
//!
//! Queries and the scripting host are run by the caller. This module picks
//! the value out of the rows that a query returned, builds the one-line
//! script for a provider method, and judges what the host printed.

use vstd::prelude::*;
use crate::errors::ControlError;
use crate::text::{
    contains, decimal_digits, eq_ignoring_ascii_case, find_first, first_from, from_chars,
    has_substring, join, parse_u32, parsed_u32, push_decimal, same_ignoring_ascii_case,
    slice_chars, to_chars, trim, trimmed,
};

verus! {

/// A row of the computer-system-product table.
#[derive(Debug, Clone)]
pub struct ComputerSystemProduct {
    pub vendor: String,
    pub name: String,
    pub version: String,
}

/// A row of the firmware table.
#[derive(Debug, Clone)]
pub struct BiosRecord {
    pub smbios_bios_version: String,
}

/// A row of the battery table.
#[derive(Debug, Clone, Copy, PartialEq, Eq, Structural)]
pub struct BatteryRecord {
    pub estimated_charge_remaining: u16,
    pub battery_status: u16,
}

/// Whether the text of a session error reports that the thread's session
/// was already initialised in another mode. That conflict is recovered
/// from by using the session that exists.
pub open spec fn is_mode_conflict(error_text: Seq<char>) -> bool {
    has_substring(error_text, "0x80010106"@) || has_substring(error_text, "RPC_E_CHANGED_MODE"@)
}

/// Whether a session error is the mode conflict, after which the caller
/// goes on with the session that the thread already has. Any other error
/// fails the call.
pub fn is_session_mode_conflict(error_text: &str) -> (conflict: bool)
    ensures
        conflict == is_mode_conflict(error_text@),
{
    contains(error_text, "0x80010106") || contains(error_text, "RPC_E_CHANGED_MODE")
}

/// The text that marks a failure in what the scripting host printed.
pub open spec fn error_marker() -> Seq<char> {
    "Exception"@
}

/// The one-line script that calls a method of the vendor's control class
/// with one argument.
pub open spec fn method_call(method: Seq<char>, argument: Seq<char>) -> Seq<char> {
    "(Get-WmiObject -Namespace root\\WMI -Class LENOVO_GAMEZONE_DATA)."@ + method + "("@
        + argument + ")"@
}

/// The script that sets the fan mode.
pub open spec fn fan_mode_write(mode: u32) -> Seq<char> {
    method_call("SetSmartFanMode"@, decimal_digits(mode as nat))
}

/// The script that reads the fan mode.
pub open spec fn fan_mode_read() -> Seq<char> {
    method_call("GetSmartFanMode"@, Seq::<char>::empty()) + ".Data"@
}

/// Whether a run of the scripting host succeeded: it exited with success
/// and printed no error marker.
pub open spec fn run_succeeded(exit_ok: bool, stdout: Seq<char>) -> bool {
    exit_ok && !has_substring(stdout, error_marker())
}

/// What a fan-mode write comes to, given how the scripting host ended.
pub open spec fn is_write_outcome(
    exit_ok: bool,
    stdout: Seq<char>,
    stderr: Seq<char>,
    outcome: Result<(), ControlError>,
) -> bool {
    if run_succeeded(exit_ok, stdout) {
        outcome is Ok
    } else {
        outcome matches Err(ControlError::TransportFailure(text)) && text@
            == "Thermal Mode Write failed: "@ + stderr
    }
}

/// What a fan-mode read comes to, given how the scripting host ended.
pub open spec fn is_read_outcome(
    exit_ok: bool,
    stdout: Seq<char>,
    outcome: Result<u32, ControlError>,
) -> bool {
    if !run_succeeded(exit_ok, stdout) {
        outcome matches Err(ControlError::TransportFailure(text)) && text@
            == "Failed to read thermal mode"@
    } else {
        match parsed_u32(trimmed(stdout)) {
            Some(mode) => outcome == Ok::<u32, ControlError>(mode),
            None => outcome matches Err(ControlError::TransportFailure(text)) && text@
                == "Invalid integer from WMI: "@ + trimmed(stdout),
        }
    }
}

/// The one-line script that calls a method of the vendor's control class
/// with one argument.
pub fn method_call_script(method: &str, argument: &str) -> (script: String)
    ensures
        script@ == method_call(method@, argument@),
{
    let mut script = String::new();
    script.push_str("(Get-WmiObject -Namespace root\\WMI -Class LENOVO_GAMEZONE_DATA).");
    script.push_str(method);
    script.push_str("(");
    script.push_str(argument);
    script.push_str(")");
    script
}

/// The script that reads the fan mode.
pub fn thermal_mode_query() -> (script: String)
    ensures
        script@ == fan_mode_read(),
{
    let mut script = method_call_script("GetSmartFanMode", "");
    script.push_str(".Data");
    proof {
        reveal_strlit("");
        assert(""@ =~= Seq::<char>::empty());
    }
    script
}

/// Judges a run of the scripting host: success is a successful exit and
/// no error marker in what it printed.
pub fn script_succeeded(exit_ok: bool, stdout: &str) -> (ok: bool)
    ensures
        ok == run_succeeded(exit_ok, stdout@),
{
    exit_ok && !contains(stdout, "Exception")
}

/// The result of a fan-mode write, from how the scripting host ended.
pub fn thermal_write_outcome(exit_ok: bool, stdout: &str, stderr: &str) -> (outcome: Result<
    (),
    ControlError,
>)
    ensures
        is_write_outcome(exit_ok, stdout@, stderr@, outcome),
{
    if script_succeeded(exit_ok, stdout) {
        Ok(())
    } else {
        Err(ControlError::TransportFailure(join("Thermal Mode Write failed: ", stderr)))
    }
}

/// The key of a settings row: the text before its first comma.
pub open spec fn row_key(row: Seq<char>) -> Seq<char> {
    row.subrange(0, first_from(row, ',', 0))
}

/// The value of a settings row: the text after its first comma.
pub open spec fn row_value(row: Seq<char>) -> Seq<char> {
    row.subrange(first_from(row, ',', 0) + 1, row.len() as int)
}

/// Whether a row is a setting under the given key: it holds a comma, and
/// its key is the given one but for the case of ASCII letters.
pub open spec fn row_has_key(row: Seq<char>, key: Seq<char>) -> bool {
    first_from(row, ',', 0) < row.len() && same_ignoring_ascii_case(row_key(row), key)
}

/// The position of the first row under the key at or after `from`, or the
/// number of rows where there is none.
pub open spec fn first_row_with(rows: Seq<String>, key: Seq<char>, from: int) -> int
    decreases rows.len() - from,
{
    if from < 0 || from >= rows.len() {
        rows.len() as int
    } else if row_has_key(rows[from]@, key) {
        from
    } else {
        first_row_with(rows, key, from + 1)
    }
}

/// The value that the table holds under a key: that of the first row under
/// it.
pub open spec fn setting_in(rows: Seq<String>, key: Seq<char>) -> Option<Seq<char>> {
    let at = first_row_with(rows, key, 0);
    if at < rows.len() {
        Some(row_value(rows[at]@))
    } else {
        None
    }
}

/// What a switch reads as, from the value in the table.
pub open spec fn switch_of(value: Seq<char>) -> Option<bool> {
    if value == "Enable"@ {
        Some(true)
    } else if value == "Disable"@ {
        Some(false)
    } else {
        None
    }
}

/// Whether `outcome` is what [`read_switch`] owes for the table and key.
pub open spec fn is_switch_reading(
    rows: Seq<String>,
    key: Seq<char>,
    outcome: Result<bool, ControlError>,
) -> bool {
    match setting_in(rows, key) {
        None => outcome matches Err(ControlError::NotFound(what)) && what@ == key,
        Some(value) => match switch_of(value) {
            Some(on) => outcome == Ok::<bool, ControlError>(on),
            None => outcome matches Err(ControlError::TransportFailure(text)) && text@
                == "Unexpected setting value: "@ + value,
        },
    }
}

/// The value of the first row under `key`. A table without such a row
/// holds no such setting, which is an error and no default.
pub fn find_setting(rows: &Vec<String>, key: &str) -> (found: Result<String, ControlError>)
    ensures
        match setting_in(rows@, key@) {
            Some(value) => found matches Ok(text) && text@ == value,
            None => found matches Err(ControlError::NotFound(what)) && what@ == key@,
        },
{
    let wanted = to_chars(key);
    let mut i: usize = 0;
    while i < rows.len()
        invariant
            i <= rows@.len(),
            wanted@ == key@,
            first_row_with(rows@, key@, 0) == first_row_with(rows@, key@, i as int),
        decreases rows@.len() - i,
    {
        let row = to_chars(rows[i].as_str());
        let comma = find_first(&row, ',');
        if comma < row.len() {
            let name = slice_chars(&row, 0, comma);
            if eq_ignoring_ascii_case(&name, &wanted) {
                let value = slice_chars(&row, comma + 1, row.len());
                return Ok(from_chars(&value));
            }
        }
        i += 1;
    }
    let what = from_chars(&wanted);
    Err(ControlError::NotFound(what))
}

/// Reads an on/off setting from the table: `Enable` is on, `Disable` is
/// off, and any other value is a reply of unexpected shape.
pub fn read_switch(rows: &Vec<String>, key: &str) -> (outcome: Result<bool, ControlError>)
    ensures
        is_switch_reading(rows@, key@, outcome),
{
    match find_setting(rows, key) {
        Err(error) => Err(error),
        Ok(value) => {
            if value == "Enable".to_string() {
                Ok(true)
            } else if value == "Disable".to_string() {
                Ok(false)
            } else {
                Err(
                    ControlError::TransportFailure(
                        join("Unexpected setting value: ", value.as_str()),
                    ),
                )
            }
        },
    }
}

/// The structured-query adapter. It holds no session of its own: the
/// caller runs each query and each script and hands in what came back.
#[derive(Debug, Clone, Copy, PartialEq, Eq, Structural)]
pub struct WmiQueryHandler {}

impl WmiQueryHandler {
    /// The adapter, given how the caller's attempt to open a session ended.
    /// A thread whose session already runs in another mode keeps that
    /// session and the adapter works through it; any other failure to open
    /// one is the adapter's failure.
    pub fn new(session: Result<(), String>) -> (handler: Result<Self, ControlError>)
        ensures
            match session {
                Ok(_) => handler is Ok,
                Err(text) => if is_mode_conflict(text@) {
                    handler is Ok
                } else {
                    handler == Err::<Self, ControlError>(ControlError::TransportFailure(text))
                },
            },
    {
        match session {
            Ok(_) => Ok(WmiQueryHandler {  }),
            Err(text) => {
                if is_session_mode_conflict(text.as_str()) {
                    Ok(WmiQueryHandler {  })
                } else {
                    Err(ControlError::TransportFailure(text))
                }
            },
        }
    }

    /// The first row's vendor.
    pub fn get_manufacturer(&self, rows: &Vec<ComputerSystemProduct>) -> (vendor: Result<
        String,
        ControlError,
    >)
        ensures
            rows@.len() > 0 ==> vendor == Ok::<String, ControlError>(rows@[0].vendor),
            rows@.len() == 0 ==> (vendor matches Err(ControlError::NotFound(what)) && what@
                == "Vendor"@),
    {
        if rows.len() > 0 {
            Ok(rows[0].vendor.clone())
        } else {
            Err(ControlError::NotFound("Vendor".to_string()))
        }
    }

    /// The first row's product name.
    pub fn get_model(&self, rows: &Vec<ComputerSystemProduct>) -> (name: Result<
        String,
        ControlError,
    >)
        ensures
            rows@.len() > 0 ==> name == Ok::<String, ControlError>(rows@[0].name),
            rows@.len() == 0 ==> (name matches Err(ControlError::NotFound(what)) && what@
                == "Name"@),
    {
        if rows.len() > 0 {
            Ok(rows[0].name.clone())
        } else {
            Err(ControlError::NotFound("Name".to_string()))
        }
    }

    /// The first row's firmware version.
    pub fn get_bios_version(&self, rows: &Vec<BiosRecord>) -> (version: Result<
        String,
        ControlError,
    >)
        ensures
            rows@.len() > 0 ==> version == Ok::<String, ControlError>(
                rows@[0].smbios_bios_version,
            ),
            rows@.len() == 0 ==> (version matches Err(ControlError::NotFound(what)) && what@
                == "BIOS Version"@),
    {
        if rows.len() > 0 {
            Ok(rows[0].smbios_bios_version.clone())
        } else {
            Err(ControlError::NotFound("BIOS Version".to_string()))
        }
    }

    /// The first battery's charge, in percent, and its status number.
    pub fn get_battery_info(&self, rows: &Vec<BatteryRecord>) -> (info: Result<
        (u16, u16),
        ControlError,
    >)
        ensures
            rows@.len() > 0 ==> info == Ok::<(u16, u16), ControlError>(
                (rows@[0].estimated_charge_remaining, rows@[0].battery_status),
            ),
            rows@.len() == 0 ==> (info matches Err(ControlError::NotFound(what)) && what@
                == "battery"@),
    {
        if rows.len() > 0 {
            Ok((rows[0].estimated_charge_remaining, rows[0].battery_status))
        } else {
            Err(ControlError::NotFound("battery".to_string()))
        }
    }

    /// The script that sets the fan mode to `mode`.
    pub fn set_thermal_mode(&self, mode: u32) -> (script: String)
        ensures
            script@ == fan_mode_write(mode),
    {
        let mut argument = String::new();
        push_decimal(&mut argument, mode);
        assert(Seq::<char>::empty() + decimal_digits(mode as nat) =~= decimal_digits(mode as nat));
        method_call_script("SetSmartFanMode", argument.as_str())
    }

    /// The fan mode that the scripting host printed. Anything but a number is
    /// a reply of unexpected shape and counts as a failed transport.
    pub fn get_thermal_mode(&self, exit_ok: bool, stdout: &str) -> (outcome: Result<
        u32,
        ControlError,
    >)
        ensures
            is_read_outcome(exit_ok, stdout@, outcome),
    {
        if !script_succeeded(exit_ok, stdout) {
            return Err(ControlError::TransportFailure("Failed to read thermal mode".to_string()));
        }
        let printed = to_chars(stdout);
        let inner = trim(&printed);
        match parse_u32(&inner) {
            Some(mode) => Ok(mode),
            None => {
                let shown = from_chars(&inner);
                Err(
                    ControlError::TransportFailure(
                        join("Invalid integer from WMI: ", shown.as_str()),
                    ),
                )
            },
        }
    }

    /// Whether conservation mode is on, from the rows of the settings table.
    pub fn get_conservation_mode(&self, rows: &Vec<String>) -> (enabled: Result<
        bool,
        ControlError,
    >)
        ensures
            is_switch_reading(rows@, "ConservationMode"@, enabled),
    {
        read_switch(rows, "ConservationMode")
    }

    /// Whether rapid charge is on, from the rows of the settings table.
    pub fn get_rapid_charge(&self, rows: &Vec<String>) -> (enabled: Result<bool, ControlError>)
        ensures
            is_switch_reading(rows@, "RapidCharge"@, enabled),
    {
        read_switch(rows, "RapidCharge")
    }
}

} // verus!
