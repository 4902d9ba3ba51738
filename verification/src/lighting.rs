//! Keyboard backlight: the feature report, the choice of device, and the
//! order of delivery attempts.
//!
//! The report is a fixed layout of 33 bytes. Whether the device takes its
//! first byte as a report number or as data is not known, so delivery tries
//! the bare report first and, if the device rejects it, once more with a
//! zero byte in front. Sending is the caller's part.

use vstd::prelude::*;
use crate::errors::{ControlError, Setting};
use crate::guards::GlobalWriteLock;

verus! {

/// USB vendor number of the keyboard controller.
pub const VENDOR_ID: u16 = 0x048D;

/// Product number of the controller, with its low byte cleared.
pub const PRODUCT_ID_MASKED: u16 = 0xC900;

/// The bits of a product number that are compared.
pub const PRODUCT_ID_MASK: u16 = 0xFF00;

/// Length of the feature report.
pub const DESCRIPTOR_LENGTH: usize = 33;

/// First marker byte of the report.
pub const HEADER_0: u8 = 0xCC;

/// Second marker byte of the report.
pub const HEADER_1: u8 = 0x16;

/// The effect number of a static colour.
pub const EFFECT_STATIC: u8 = 1;

/// The brightness number of the brightest level.
pub const BRIGHTNESS_HIGH: u8 = 2;

/// A colour.
#[derive(Debug, Clone, Copy, PartialEq, Eq, Structural)]
pub struct Rgb {
    pub r: u8,
    pub g: u8,
    pub b: u8,
}

/// The lighting state that one report carries. The marker bytes, the
/// padding and the reserved bytes are not fields: they are the same in
/// every report.
#[derive(Debug, Clone, Copy, PartialEq, Eq, Structural)]
pub struct LenovoRgbKeyboardState {
    pub effect: u8,
    pub speed: u8,
    pub brightness: u8,
    pub zone1_rgb: Rgb,
    pub zone2_rgb: Rgb,
    pub zone3_rgb: Rgb,
    pub zone4_rgb: Rgb,
    pub wave_ltr: u8,
    pub wave_rtl: u8,
}

/// A HID device as enumeration lists it.
#[derive(Debug, Clone, Copy, PartialEq, Eq, Structural)]
pub struct HidCandidate {
    pub vendor_id: u16,
    pub product_id: u16,
}

/// Which delivery attempt is under way.
#[derive(Debug, Clone, Copy, PartialEq, Eq, Structural)]
pub enum Attempt {
    /// The bare report.
    Bare,
    /// The report with a zero byte in front.
    Prefixed,
}

/// What follows a delivery attempt.
#[derive(Debug, Clone, PartialEq, Eq)]
pub enum DeliveryStep {
    /// Send these bytes as a feature report, as the given attempt.
    Send { report: Vec<u8>, attempt: Attempt },
    /// The device accepted the report.
    Done,
    /// Both attempts were rejected.
    Failed(ControlError),
}

/// The state that a new report starts from: static blue at full brightness.
pub open spec fn default_state() -> LenovoRgbKeyboardState {
    let blue = Rgb { r: 0, g: 0, b: 255 };
    LenovoRgbKeyboardState {
        effect: 1,
        speed: 1,
        brightness: 2,
        zone1_rgb: blue,
        zone2_rgb: blue,
        zone3_rgb: blue,
        zone4_rgb: blue,
        wave_ltr: 0,
        wave_rtl: 0,
    }
}

/// The 33 bytes of the report that carries `state`.
pub open spec fn frame_of(state: LenovoRgbKeyboardState) -> Seq<u8> {
    seq![
        0xCCu8, 0x16u8,
        state.effect, state.speed, state.brightness,
        state.zone1_rgb.r, state.zone1_rgb.g, state.zone1_rgb.b,
        state.zone2_rgb.r, state.zone2_rgb.g, state.zone2_rgb.b,
        state.zone3_rgb.r, state.zone3_rgb.g, state.zone3_rgb.b,
        state.zone4_rgb.r, state.zone4_rgb.g, state.zone4_rgb.b,
        0u8,
        state.wave_ltr, state.wave_rtl,
        0u8, 0u8, 0u8, 0u8, 0u8, 0u8, 0u8, 0u8, 0u8, 0u8, 0u8, 0u8, 0u8,
    ]
}

/// The state of a static colour: every zone the same, full brightness.
pub open spec fn static_color_state(r: u8, g: u8, b: u8) -> LenovoRgbKeyboardState {
    let colour = Rgb { r, g, b };
    LenovoRgbKeyboardState {
        zone1_rgb: colour,
        zone2_rgb: colour,
        zone3_rgb: colour,
        zone4_rgb: colour,
        ..default_state()
    }
}

/// The state of an effect at a brightness, with the colours of the default.
pub open spec fn effect_state(effect: u8, brightness: u8) -> LenovoRgbKeyboardState {
    LenovoRgbKeyboardState { effect, brightness, ..default_state() }
}

/// The colour that a report holds for a zone, zones counted from 0.
pub open spec fn zone_in(frame: Seq<u8>, zone: int) -> Rgb
    recommends
        frame.len() == 33,
        0 <= zone < 4,
{
    Rgb { r: frame[5 + 3 * zone], g: frame[6 + 3 * zone], b: frame[7 + 3 * zone] }
}

/// Whether a listed device is the keyboard controller: the vendor number
/// must be equal, the product number is compared without its low byte.
pub open spec fn is_lighting_device(device: HidCandidate) -> bool {
    device.vendor_id == 0x048D && (device.product_id & 0xFF00) == 0xC900
}

/// The report with a zero byte in front.
pub open spec fn prefixed(frame: Seq<u8>) -> Seq<u8> {
    seq![0u8] + frame
}

/// The step that follows an attempt to send `frame`.
pub open spec fn is_step_after(
    frame: Seq<u8>,
    attempt: Attempt,
    outcome: Result<(), String>,
    step: DeliveryStep,
) -> bool {
    match outcome {
        Ok(_) => step == DeliveryStep::Done,
        Err(detail) => match attempt {
            Attempt::Bare => step matches DeliveryStep::Send { report, attempt: next }
                && report@ == prefixed(frame) && next == Attempt::Prefixed,
            Attempt::Prefixed => step == DeliveryStep::Failed(
                ControlError::TransportFailure(detail),
            ),
        },
    }
}

impl Default for LenovoRgbKeyboardState {
    fn default() -> (state: Self)
        ensures
            state == default_state(),
    {
        let blue = Rgb { r: 0, g: 0, b: 255 };
        LenovoRgbKeyboardState {
            effect: EFFECT_STATIC,
            speed: 1,
            brightness: BRIGHTNESS_HIGH,
            zone1_rgb: blue,
            zone2_rgb: blue,
            zone3_rgb: blue,
            zone4_rgb: blue,
            wave_ltr: 0,
            wave_rtl: 0,
        }
    }
}

impl LenovoRgbKeyboardState {
    /// The report that carries this state.
    pub fn to_bytes(&self) -> (frame: Vec<u8>)
        ensures
            frame@ == frame_of(*self),
            frame@.len() == 33,
            frame@[0] == 0xCC,
            frame@[1] == 0x16,
    {
        let mut frame: Vec<u8> = Vec::with_capacity(DESCRIPTOR_LENGTH);
        frame.push(HEADER_0);
        frame.push(HEADER_1);
        frame.push(self.effect);
        frame.push(self.speed);
        frame.push(self.brightness);
        frame.push(self.zone1_rgb.r);
        frame.push(self.zone1_rgb.g);
        frame.push(self.zone1_rgb.b);
        frame.push(self.zone2_rgb.r);
        frame.push(self.zone2_rgb.g);
        frame.push(self.zone2_rgb.b);
        frame.push(self.zone3_rgb.r);
        frame.push(self.zone3_rgb.g);
        frame.push(self.zone3_rgb.b);
        frame.push(self.zone4_rgb.r);
        frame.push(self.zone4_rgb.g);
        frame.push(self.zone4_rgb.b);
        frame.push(0);
        frame.push(self.wave_ltr);
        frame.push(self.wave_rtl);
        let mut i: usize = 20;
        while i < DESCRIPTOR_LENGTH
            invariant
                20 <= i <= 33,
                frame@.len() == i,
                frame@.subrange(0, 20) == frame_of(*self).subrange(0, 20),
                forall|k: int| 20 <= k < i ==> frame@[k] == 0,
            decreases 33 - i,
        {
            frame.push(0);
            assert(frame@.subrange(0, 20) =~= frame_of(*self).subrange(0, 20));
            i += 1;
        }
        assert(frame@ =~= frame_of(*self)) by {
            assert forall|k: int| 0 <= k < 33 implies frame@[k] == frame_of(*self)[k] by {
                if k < 20 {
                    assert(frame@.subrange(0, 20)[k] == frame_of(*self).subrange(0, 20)[k]);
                }
            }
        }
        frame
    }
}

/// The keyboard backlight facade. It holds no device: each request is
/// complete in itself.
#[derive(Debug, Clone, Copy, PartialEq, Eq, Structural)]
pub struct LightingController {}

impl LightingController {
    pub fn new() -> (controller: Self) {
        LightingController {  }
    }

    /// The first listed device that is the keyboard controller. There may
    /// be several candidates; the first is taken.
    pub fn find_device(devices: &Vec<HidCandidate>) -> (found: Result<usize, ControlError>)
        ensures
            match found {
                Ok(index) => index < devices@.len() && is_lighting_device(devices@[index as int])
                    && forall|k: int| 0 <= k < index ==> !is_lighting_device(devices@[k]),
                Err(error) => {
                    &&& forall|k: int|
                        0 <= k < devices@.len() ==> !is_lighting_device(devices@[k])
                    &&& error matches ControlError::NotFound(what) && what@
                        == "Lighting device"@
                },
            },
    {
        let mut i: usize = 0;
        while i < devices.len()
            invariant
                i <= devices@.len(),
                forall|k: int| 0 <= k < i ==> !is_lighting_device(devices@[k]),
            decreases devices@.len() - i,
        {
            let device = devices[i];
            if device.vendor_id == VENDOR_ID && (device.product_id & PRODUCT_ID_MASK)
                == PRODUCT_ID_MASKED {
                return Ok(i);
            }
            i += 1;
        }
        Err(ControlError::NotFound("Lighting device".to_string()))
    }

    /// The report that sets every zone to one colour at full brightness,
    /// or the refusal of a closed gate.
    pub fn set_static_color(&self, gate: &GlobalWriteLock, r: u8, g: u8, b: u8) -> (request:
        Result<Vec<u8>, ControlError>)
        ensures
            !gate.allowed() ==> request == Err::<Vec<u8>, ControlError>(
                ControlError::WriteLocked(Setting::StaticColor),
            ),
            gate.allowed() ==> (request matches Ok(frame) && frame@ == frame_of(
                static_color_state(r, g, b),
            )),
    {
        if !gate.is_write_allowed() {
            return Err(ControlError::WriteLocked(Setting::StaticColor));
        }
        let colour = Rgb { r, g, b };
        let mut state = LenovoRgbKeyboardState::default();
        state.effect = EFFECT_STATIC;
        state.brightness = BRIGHTNESS_HIGH;
        state.zone1_rgb = colour;
        state.zone2_rgb = colour;
        state.zone3_rgb = colour;
        state.zone4_rgb = colour;
        Ok(state.to_bytes())
    }

    /// The report that sets the brightness of the static effect: 0 is off,
    /// 1 low, 2 high. The level is written to the report as it is given.
    pub fn set_brightness(&self, gate: &GlobalWriteLock, level: u8) -> (request: Result<
        Vec<u8>,
        ControlError,
    >)
        ensures
            !gate.allowed() ==> request == Err::<Vec<u8>, ControlError>(
                ControlError::WriteLocked(Setting::Brightness),
            ),
            gate.allowed() ==> (request matches Ok(frame) && frame@ == frame_of(
                effect_state(1, level),
            )),
    {
        self.set_effect_params(gate, EFFECT_STATIC, level)
    }

    /// The report that selects an effect and a brightness, with the colours
    /// of the default state.
    pub fn set_effect_params(&self, gate: &GlobalWriteLock, effect: u8, brightness: u8) -> (request:
        Result<Vec<u8>, ControlError>)
        ensures
            !gate.allowed() ==> request == Err::<Vec<u8>, ControlError>(
                ControlError::WriteLocked(Setting::Brightness),
            ),
            gate.allowed() ==> (request matches Ok(frame) && frame@ == frame_of(
                effect_state(effect, brightness),
            )),
    {
        if !gate.is_write_allowed() {
            return Err(ControlError::WriteLocked(Setting::Brightness));
        }
        let mut state = LenovoRgbKeyboardState::default();
        state.effect = effect;
        state.brightness = brightness;
        Ok(state.to_bytes())
    }
}

/// Reads the colour of a zone back from a report; zones are counted from 0.
/// There is a colour exactly for a report of 33 bytes and a zone below 4.
pub fn read_zone(frame: &Vec<u8>, zone: usize) -> (colour: Option<Rgb>)
    ensures
        colour == if frame@.len() == 33 && zone < 4 {
            Some(zone_in(frame@, zone as int))
        } else {
            None
        },
{
    if frame.len() != DESCRIPTOR_LENGTH || zone >= 4 {
        return None;
    }
    let at: usize = 5 + 3 * zone;
    Some(Rgb { r: frame[at], g: frame[at + 1], b: frame[at + 2] })
}

/// The first step of a delivery: send the bare report.
pub fn begin_delivery(frame: &Vec<u8>) -> (step: DeliveryStep)
    ensures
        step matches DeliveryStep::Send { report, attempt } && report@ == frame@ && attempt
            == Attempt::Bare,
{
    DeliveryStep::Send { report: frame.clone(), attempt: Attempt::Bare }
}

/// The step that follows an attempt. A rejected bare report is followed by
/// one attempt with a zero byte in front; a rejected second attempt ends the
/// delivery with the device's complaint. There is no third attempt.
pub fn after_attempt(frame: &Vec<u8>, attempt: Attempt, outcome: Result<(), String>) -> (step:
    DeliveryStep)
    ensures
        is_step_after(frame@, attempt, outcome, step),
        attempt == Attempt::Prefixed ==> !(step is Send),
{
    match outcome {
        Ok(_) => DeliveryStep::Done,
        Err(detail) => match attempt {
            Attempt::Bare => {
                let mut report: Vec<u8> = Vec::with_capacity(DESCRIPTOR_LENGTH + 1);
                report.push(0);
                let mut i: usize = 0;
                while i < frame.len()
                    invariant
                        i <= frame@.len(),
                        report@ == seq![0u8] + frame@.subrange(0, i as int),
                    decreases frame@.len() - i,
                {
                    report.push(frame[i]);
                    assert(report@ =~= seq![0u8] + frame@.subrange(0, i + 1));
                    i += 1;
                }
                assert(frame@.subrange(0, frame@.len() as int) == frame@);
                DeliveryStep::Send { report, attempt: Attempt::Prefixed }
            },
            Attempt::Prefixed => DeliveryStep::Failed(ControlError::TransportFailure(detail)),
        },
    }
}

/// A report of a static colour is 33 bytes long, begins with the two marker
/// bytes and holds the colour in each of its four zones, so that reading a
/// zone back gives the colour that was set; with the zero byte in front it
/// is 34 bytes long and the report follows the zero unchanged.
pub proof fn law_static_color_round_trip(r: u8, g: u8, b: u8)
    ensures
        frame_of(static_color_state(r, g, b)).len() == 33,
        frame_of(static_color_state(r, g, b))[0] == 0xCC,
        frame_of(static_color_state(r, g, b))[1] == 0x16,
        forall|zone: int|
            0 <= zone < 4 ==> #[trigger] zone_in(frame_of(static_color_state(r, g, b)), zone)
                == (Rgb { r, g, b }),
        prefixed(frame_of(static_color_state(r, g, b))).len() == 34,
        prefixed(frame_of(static_color_state(r, g, b)))[0] == 0,
        prefixed(frame_of(static_color_state(r, g, b))).subrange(1, 34) == frame_of(
            static_color_state(r, g, b),
        ),
{
    let frame = frame_of(static_color_state(r, g, b));
    assert forall|zone: int| 0 <= zone < 4 implies #[trigger] zone_in(frame, zone) == (Rgb {
        r,
        g,
        b,
    }) by {
        if zone == 0 {
        } else if zone == 1 {
        } else if zone == 2 {
        } else {
            assert(zone == 3);
        }
    }
    assert(prefixed(frame).subrange(1, 34) =~= frame);
}

} // verus!
