use legion_control::errors::{ControlError, Setting};
use legion_control::guards::GlobalWriteLock;
use legion_control::lighting::{
    after_attempt, begin_delivery, read_zone, Attempt, DeliveryStep, HidCandidate,
    LenovoRgbKeyboardState, LightingController, Rgb,
};

fn open_lock() -> GlobalWriteLock {
    let mut lock = GlobalWriteLock::new();
    lock.request_write_access();
    lock
}

/// Stands for the keyboard controller: accepts a report only if it has
/// the length it expects, and keeps what it was sent.
struct FakeDevice {
    accepts_length: Option<usize>,
    received: Vec<Vec<u8>>,
}

impl FakeDevice {
    fn send(&mut self, report: &[u8]) -> Result<(), String> {
        self.received.push(report.to_vec());
        if self.accepts_length == Some(report.len()) {
            Ok(())
        } else {
            Err(format!("rejected {} bytes", report.len()))
        }
    }
}

fn deliver(frame: &Vec<u8>, device: &mut FakeDevice) -> Result<(), ControlError> {
    let mut step = begin_delivery(frame);
    loop {
        match step {
            DeliveryStep::Send { report, attempt } => {
                let outcome = device.send(&report);
                step = after_attempt(frame, attempt, outcome);
            }
            DeliveryStep::Done => return Ok(()),
            DeliveryStep::Failed(error) => return Err(error),
        }
    }
}

#[test]
fn default_state_is_static_blue_at_full_brightness() {
    let state = LenovoRgbKeyboardState::default();
    let blue = Rgb { r: 0, g: 0, b: 255 };
    assert_eq!(state.effect, 1);
    assert_eq!(state.speed, 1);
    assert_eq!(state.brightness, 2);
    assert_eq!(state.zone1_rgb, blue);
    assert_eq!(state.zone2_rgb, blue);
    assert_eq!(state.zone3_rgb, blue);
    assert_eq!(state.zone4_rgb, blue);
    assert_eq!(state.wave_ltr, 0);
    assert_eq!(state.wave_rtl, 0);
}

#[test]
fn default_frame_bytes() {
    let frame = LenovoRgbKeyboardState::default().to_bytes();
    let mut expected = vec![
        0xCC, 0x16, 1, 1, 2, 0, 0, 255, 0, 0, 255, 0, 0, 255, 0, 0, 255, 0, 0, 0,
    ];
    expected.extend_from_slice(&[0u8; 13]);
    assert_eq!(frame.len(), 33);
    assert_eq!(frame, expected);
}

#[test]
fn frame_places_every_field() {
    let state = LenovoRgbKeyboardState {
        effect: 3,
        speed: 4,
        brightness: 1,
        zone1_rgb: Rgb { r: 10, g: 11, b: 12 },
        zone2_rgb: Rgb { r: 20, g: 21, b: 22 },
        zone3_rgb: Rgb { r: 30, g: 31, b: 32 },
        zone4_rgb: Rgb { r: 40, g: 41, b: 42 },
        wave_ltr: 1,
        wave_rtl: 1,
    };
    let frame = state.to_bytes();
    let mut expected = vec![
        0xCC, 0x16, 3, 4, 1, 10, 11, 12, 20, 21, 22, 30, 31, 32, 40, 41, 42, 0, 1, 1,
    ];
    expected.extend_from_slice(&[0u8; 13]);
    assert_eq!(frame, expected);
    assert_eq!(read_zone(&frame, 0), Some(Rgb { r: 10, g: 11, b: 12 }));
    assert_eq!(read_zone(&frame, 1), Some(Rgb { r: 20, g: 21, b: 22 }));
    assert_eq!(read_zone(&frame, 2), Some(Rgb { r: 30, g: 31, b: 32 }));
    assert_eq!(read_zone(&frame, 3), Some(Rgb { r: 40, g: 41, b: 42 }));
}

#[test]
fn static_color_frame_holds_the_colour_in_all_four_zones() {
    let lock = open_lock();
    let lights = LightingController::new();
    for (r, g, b) in [(0u8, 0u8, 0u8), (255, 255, 255), (1, 2, 3), (255, 0, 128), (0xCC, 0x16, 0)] {
        let frame = lights.set_static_color(&lock, r, g, b).unwrap();
        assert_eq!(frame.len(), 33);
        assert_eq!(&frame[0..2], &[0xCC, 0x16]);
        assert_eq!(frame[2], 1);
        assert_eq!(frame[3], 1);
        assert_eq!(frame[4], 2);
        for zone in 0..4 {
            assert_eq!(&frame[5 + 3 * zone..8 + 3 * zone], &[r, g, b]);
            assert_eq!(read_zone(&frame, zone), Some(Rgb { r, g, b }));
        }
        assert!(frame[17..].iter().all(|byte| *byte == 0));
    }
}

#[test]
fn read_zone_needs_a_whole_report_and_a_zone_below_four() {
    let frame = LenovoRgbKeyboardState::default().to_bytes();
    assert_eq!(read_zone(&frame, 4), None);
    assert_eq!(read_zone(&frame, usize::MAX), None);
    assert_eq!(read_zone(&frame[..32].to_vec(), 0), None);
    assert_eq!(read_zone(&Vec::new(), 0), None);
    let mut longer = frame.clone();
    longer.push(0);
    assert_eq!(read_zone(&longer, 0), None);
}

#[test]
fn brightness_frame_keeps_the_default_colours() {
    let lock = open_lock();
    let lights = LightingController::new();
    for level in [0u8, 1, 2] {
        let frame = lights.set_brightness(&lock, level).unwrap();
        assert_eq!(frame.len(), 33);
        assert_eq!(&frame[0..5], &[0xCC, 0x16, 1, 1, level]);
        for zone in 0..4 {
            assert_eq!(read_zone(&frame, zone), Some(Rgb { r: 0, g: 0, b: 255 }));
        }
    }
}

#[test]
fn brightness_level_is_written_as_given() {
    let lock = open_lock();
    let frame = LightingController::new().set_brightness(&lock, 200).unwrap();
    assert_eq!(frame[4], 200);
}

#[test]
fn effect_params_frame() {
    let lock = open_lock();
    let frame = LightingController::new().set_effect_params(&lock, 4, 1).unwrap();
    assert_eq!(&frame[0..5], &[0xCC, 0x16, 4, 1, 1]);
    assert_eq!(frame.len(), 33);
}

#[test]
fn lighting_writes_are_refused_by_a_closed_lock() {
    let lock = GlobalWriteLock::new();
    let lights = LightingController::new();
    assert_eq!(
        lights.set_static_color(&lock, 1, 2, 3),
        Err(ControlError::WriteLocked(Setting::StaticColor))
    );
    assert_eq!(
        lights.set_brightness(&lock, 2),
        Err(ControlError::WriteLocked(Setting::Brightness))
    );
    assert_eq!(
        lights.set_effect_params(&lock, 1, 2),
        Err(ControlError::WriteLocked(Setting::Brightness))
    );
}

#[test]
fn first_matching_device_is_chosen() {
    let devices = vec![
        HidCandidate { vendor_id: 0x046D, product_id: 0xC900 },
        HidCandidate { vendor_id: 0x048D, product_id: 0xC800 },
        HidCandidate { vendor_id: 0x048D, product_id: 0xC965 },
        HidCandidate { vendor_id: 0x048D, product_id: 0xC900 },
    ];
    assert_eq!(LightingController::find_device(&devices), Ok(2));
}

#[test]
fn product_number_is_matched_without_its_low_byte() {
    for low in [0x00u16, 0x01, 0x7F, 0xFF] {
        let devices = vec![HidCandidate { vendor_id: 0x048D, product_id: 0xC900 | low }];
        assert_eq!(LightingController::find_device(&devices), Ok(0));
    }
    for product_id in [0xC800u16, 0xCA00, 0x4900, 0x00C9, 0xC8FF] {
        let devices = vec![HidCandidate { vendor_id: 0x048D, product_id }];
        assert_eq!(
            LightingController::find_device(&devices),
            Err(ControlError::NotFound("Lighting device".to_string()))
        );
    }
}

#[test]
fn no_device_is_not_found() {
    assert_eq!(
        LightingController::find_device(&Vec::new()),
        Err(ControlError::NotFound("Lighting device".to_string()))
    );
    let others = vec![HidCandidate { vendor_id: 0x048E, product_id: 0xC900 }];
    assert_eq!(
        LightingController::find_device(&others),
        Err(ControlError::NotFound("Lighting device".to_string()))
    );
}

#[test]
fn accepted_bare_report_is_sent_once() {
    let frame = LenovoRgbKeyboardState::default().to_bytes();
    let mut device = FakeDevice { accepts_length: Some(33), received: Vec::new() };
    assert_eq!(deliver(&frame, &mut device), Ok(()));
    assert_eq!(device.received, vec![frame]);
}

#[test]
fn rejected_bare_report_is_sent_again_with_a_zero_in_front() {
    let lock = open_lock();
    let frame = LightingController::new().set_static_color(&lock, 7, 8, 9).unwrap();
    let mut device = FakeDevice { accepts_length: Some(34), received: Vec::new() };
    assert_eq!(deliver(&frame, &mut device), Ok(()));
    assert_eq!(device.received.len(), 2);
    assert_eq!(device.received[0], frame);
    assert_eq!(device.received[1].len(), 34);
    assert_eq!(device.received[1][0], 0);
    assert_eq!(&device.received[1][1..], &frame[..]);
}

#[test]
fn delivery_gives_up_after_the_second_rejection() {
    let frame = LenovoRgbKeyboardState::default().to_bytes();
    let mut device = FakeDevice { accepts_length: None, received: Vec::new() };
    assert_eq!(
        deliver(&frame, &mut device),
        Err(ControlError::TransportFailure("rejected 34 bytes".to_string()))
    );
    assert_eq!(device.received.len(), 2);
}

#[test]
fn delivery_steps() {
    let frame = vec![1u8, 2, 3];
    assert_eq!(
        begin_delivery(&frame),
        DeliveryStep::Send { report: vec![1, 2, 3], attempt: Attempt::Bare }
    );
    assert_eq!(after_attempt(&frame, Attempt::Bare, Ok(())), DeliveryStep::Done);
    assert_eq!(after_attempt(&frame, Attempt::Prefixed, Ok(())), DeliveryStep::Done);
    assert_eq!(
        after_attempt(&frame, Attempt::Bare, Err("no".to_string())),
        DeliveryStep::Send { report: vec![0, 1, 2, 3], attempt: Attempt::Prefixed }
    );
    assert_eq!(
        after_attempt(&frame, Attempt::Prefixed, Err("no".to_string())),
        DeliveryStep::Failed(ControlError::TransportFailure("no".to_string()))
    );
}
