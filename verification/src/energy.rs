//! The raw device-control channel for battery charge modes.
//!
//! A command is one control code and a buffer of four bytes that holds a
//! number, least significant byte first. The device answers with four bytes
//! that carry no meaning: a command succeeded if the call did. Opening the
//! device, issuing the call and releasing the handle are the caller's part.

use vstd::prelude::*;
use crate::errors::ControlError;

verus! {

/// The control code shared by all charge-mode commands.
pub const IOCTL_ENERGY_BATTERY_CHARGE_MODE: u32 = 0x831020F8;

/// Turns conservation mode on.
pub const CONSERVATION_ENABLE: u32 = 0x3;

/// Turns conservation mode off.
pub const CONSERVATION_DISABLE: u32 = 0x5;

/// Turns rapid charge on.
pub const RAPID_CHARGE_ENABLE: u32 = 0x7;

/// Turns rapid charge off.
pub const RAPID_CHARGE_DISABLE: u32 = 0x8;

/// Length, in bytes, of the input and of the output buffer.
pub const BUFFER_LENGTH: usize = 4;

/// One command for the device: the control code and the input buffer.
#[derive(Debug, Clone, PartialEq, Eq)]
pub struct ControlRequest {
    pub control_code: u32,
    pub input: Vec<u8>,
}

/// The four bytes of a number, least significant first.
pub open spec fn le_bytes(value: u32) -> Seq<u8> {
    seq![
        (value % 256) as u8,
        ((value / 256) % 256) as u8,
        ((value / 65536) % 256) as u8,
        ((value / 16777216) % 256) as u8,
    ]
}

/// The number that four bytes hold, least significant first.
pub open spec fn le_value(bytes: Seq<u8>) -> nat
    recommends
        bytes.len() == 4,
{
    (bytes[0] + bytes[1] * 256 + bytes[2] * 65536 + bytes[3] * 16777216) as nat
}

/// The number that switches conservation mode.
pub open spec fn conservation_value(enable: bool) -> u32 {
    if enable {
        0x3
    } else {
        0x5
    }
}

/// The number that switches rapid charge.
pub open spec fn rapid_charge_value(enable: bool) -> u32 {
    if enable {
        0x7
    } else {
        0x8
    }
}

/// Whether a request is the command that carries `value` under `code`.
pub open spec fn is_command(request: ControlRequest, code: u32, value: u32) -> bool {
    request.control_code == code && request.input@ == le_bytes(value)
}

/// The charge-mode device, once the caller has found it present.
#[derive(Debug, Clone, Copy, PartialEq, Eq, Structural)]
pub struct EnergyDriver {}

impl EnergyDriver {
    /// The driver for a device that the caller tried to open. An absent
    /// device is the expected state of unsupported hardware and is
    /// reported as not found.
    pub fn new(device_present: bool) -> (driver: Result<Self, ControlError>)
        ensures
            device_present ==> driver == Ok::<Self, ControlError>(EnergyDriver {  }),
            !device_present ==> (driver matches Err(ControlError::NotFound(what)) && what@
                == "EnergyDrv"@),
    {
        if device_present {
            Ok(EnergyDriver {  })
        } else {
            Err(ControlError::NotFound("EnergyDrv".to_string()))
        }
    }

    /// The command that switches conservation mode.
    pub fn set_conservation_mode(&self, enable: bool) -> (request: ControlRequest)
        ensures
            is_command(request, 0x831020F8, conservation_value(enable)),
    {
        let value: u32 = if enable {
            CONSERVATION_ENABLE
        } else {
            CONSERVATION_DISABLE
        };
        self.send_command(IOCTL_ENERGY_BATTERY_CHARGE_MODE, value)
    }

    /// The command that switches rapid charge.
    pub fn set_rapid_charge(&self, enable: bool) -> (request: ControlRequest)
        ensures
            is_command(request, 0x831020F8, rapid_charge_value(enable)),
    {
        let value: u32 = if enable {
            RAPID_CHARGE_ENABLE
        } else {
            RAPID_CHARGE_DISABLE
        };
        self.send_command(IOCTL_ENERGY_BATTERY_CHARGE_MODE, value)
    }

    /// The command that carries `input_val` under `control_code`.
    pub fn send_command(&self, control_code: u32, input_val: u32) -> (request: ControlRequest)
        ensures
            is_command(request, control_code, input_val),
            request.input@.len() == 4,
    {
        let mut input: Vec<u8> = Vec::with_capacity(BUFFER_LENGTH);
        input.push((input_val % 256) as u8);
        input.push(((input_val / 256) % 256) as u8);
        input.push(((input_val / 65536) % 256) as u8);
        input.push(((input_val / 16777216) % 256) as u8);
        assert(input@ =~= le_bytes(input_val));
        ControlRequest { control_code, input }
    }
}

/// What a command comes to once the call has returned: it succeeded if the
/// call did, whatever the device wrote to the output buffer; a failed call
/// is reported with what the system said of it.
pub fn command_outcome(call: Result<Vec<u8>, String>) -> (outcome: Result<(), ControlError>)
    ensures
        outcome == match call {
            Ok(_) => Ok::<(), ControlError>(()),
            Err(detail) => Err::<(), ControlError>(ControlError::TransportFailure(detail)),
        },
{
    match call {
        Ok(_) => Ok(()),
        Err(detail) => Err(ControlError::TransportFailure(detail)),
    }
}

/// The input buffer of a command holds the number it was built from.
pub proof fn law_buffer_holds_value(value: u32)
    ensures
        le_bytes(value).len() == 4,
        le_value(le_bytes(value)) == value,
{
}

} // verus!
