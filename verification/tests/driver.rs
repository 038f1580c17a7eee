use arducam_mega::{
    ArducamMega, BrightnessLevel, CameraControl, CameraType, ColorEffect, ControlValue, Error,
    Format, Level, LogEntry, RegisterAddress, Resolution, ScriptBus, ScriptDelay,
    SharpnessLevel, WhiteBalanceMode,
};

fn harness(responses: Vec<Vec<u8>>) -> ArducamMega<ScriptBus, ScriptDelay> {
    ArducamMega::new(ScriptBus::new(responses), ScriptDelay::new())
}

const IDLE: [u8; 3] = [0x00, 0x00, 0x02];

fn idle_poll() -> LogEntry {
    LogEntry::Transfer(vec![0x44], IDLE.to_vec())
}

#[test]
fn read_reg_returns_third_byte() {
    let mut cam = harness(vec![vec![0x00, 0x00, 0x01]]);
    assert_eq!(cam.read_reg(RegisterAddress::FifoSize1).unwrap(), 0x01);
    let (bus, _) = cam.into_parts();
    assert_eq!(
        bus.log,
        vec![LogEntry::Transfer(vec![0x45], vec![0x00, 0x00, 0x01])]
    );
}

#[test]
fn write_reg_transforms_addr() {
    let mut cam = harness(vec![]);
    cam.write_reg(RegisterAddress::FifoSize1, 0x02).unwrap();
    let (bus, _) = cam.into_parts();
    assert_eq!(bus.log, vec![LogEntry::Write(vec![0xc5, 0x02])]);
}

#[test]
fn reset_sends_correct_data() {
    let mut cam = harness(vec![IDLE.to_vec()]);
    cam.reset().unwrap();
    let (bus, _) = cam.into_parts();
    assert_eq!(
        bus.log,
        vec![LogEntry::Write(vec![0x87, 0x40]), idle_poll()]
    );
}

#[test]
fn wait_idle_returns_immediately_if_idle() {
    let mut cam = harness(vec![IDLE.to_vec()]);
    cam.wait_idle().unwrap();
    let (bus, delay) = cam.into_parts();
    assert_eq!(bus.log, vec![idle_poll()]);
    assert!(delay.log.is_empty());
}

#[test]
fn wait_idle_waits_until_idle() {
    let busy = vec![0x00, 0x00, 0x01];
    let mut cam = harness(vec![
        busy.clone(),
        busy.clone(),
        busy.clone(),
        vec![0x01, 0x01, 0x02],
    ]);
    cam.wait_idle().unwrap();
    let (bus, delay) = cam.into_parts();
    assert_eq!(
        bus.log,
        vec![
            LogEntry::Transfer(vec![0x44], vec![0x00, 0x00, 0x01]),
            LogEntry::Transfer(vec![0x44], vec![0x00, 0x00, 0x01]),
            LogEntry::Transfer(vec![0x44], vec![0x00, 0x00, 0x01]),
            LogEntry::Transfer(vec![0x44], vec![0x01, 0x01, 0x02]),
        ]
    );
    assert_eq!(delay.log, vec![500, 500, 500]);
}

#[test]
fn get_camera_type_reads_a_register_and_returns_an_enum() {
    let mut cam = harness(vec![
        vec![0x00, 0x00, 0x81],
        vec![0x00, 0x00, 0x82],
        vec![0x00, 0x00, 0x33],
    ]);
    assert_eq!(cam.get_camera_type().unwrap(), CameraType::OV5640);
    assert_eq!(cam.get_camera_type().unwrap(), CameraType::OV3640);
    assert_eq!(cam.get_camera_type().unwrap(), CameraType::Unknown(0x33));
    let (bus, _) = cam.into_parts();
    assert_eq!(bus.log.len(), 3);
}

#[test]
fn set_auto_focus_writes_a_register() {
    let mut cam = harness(vec![IDLE.to_vec()]);
    cam.set_auto_focus(0x33).unwrap();
    let (bus, _) = cam.into_parts();
    assert_eq!(
        bus.log,
        vec![LogEntry::Write(vec![0xa9, 0x33]), idle_poll()]
    );
}

#[test]
fn set_format_writes_a_register() {
    let mut cam = harness(vec![IDLE.to_vec()]);
    cam.set_format(Format::default()).unwrap();
    let (bus, _) = cam.into_parts();
    assert_eq!(
        bus.log,
        vec![LogEntry::Write(vec![0xa0, 0x01]), idle_poll()]
    );
}

#[test]
fn set_resolution_writes_a_register() {
    let mut cam = harness(vec![IDLE.to_vec()]);
    cam.set_resolution(Resolution::Hd).unwrap();
    let (bus, _) = cam.into_parts();
    assert_eq!(
        bus.log,
        vec![LogEntry::Write(vec![0xa1, 0x84]), idle_poll()]
    );
}

#[test]
fn set_debug_device_address_writes_a_register() {
    let mut cam = harness(vec![IDLE.to_vec()]);
    cam.set_debug_device_address(0x33).unwrap();
    let (bus, _) = cam.into_parts();
    assert_eq!(
        bus.log,
        vec![LogEntry::Write(vec![0x8a, 0x33]), idle_poll()]
    );
}

#[test]
fn clear_fifo_writes_a_register() {
    let mut cam = harness(vec![]);
    cam.clear_fifo().unwrap();
    let (bus, _) = cam.into_parts();
    assert_eq!(bus.log, vec![LogEntry::Write(vec![0x84, 0x01])]);
}

#[test]
fn capture_finished_detects_unfinished() {
    let mut cam = harness(vec![vec![0x00, 0x00, 0xfb]]);
    assert!(!cam.capture_finished().unwrap());
}

#[test]
fn capture_finished_detects_finished() {
    let mut cam = harness(vec![vec![0x00, 0x00, 0x04]]);
    assert!(cam.capture_finished().unwrap());
}

#[test]
fn capture_no_block_clears_fifo_and_writes_reg() {
    let mut cam = harness(vec![]);
    cam.capture_noblock().unwrap();
    let (bus, _) = cam.into_parts();
    assert_eq!(
        bus.log,
        vec![
            LogEntry::Write(vec![0x84, 0x01]),
            LogEntry::Write(vec![0x84, 0x02]),
        ]
    );
}

#[test]
fn capture_returns_instantly_after_capture_finishes() {
    let mut cam = harness(vec![vec![0x00, 0x00, 0x04]]);
    cam.capture().unwrap();
    let (bus, delay) = cam.into_parts();
    assert_eq!(
        bus.log,
        vec![
            LogEntry::Write(vec![0x84, 0x01]),
            LogEntry::Write(vec![0x84, 0x02]),
            LogEntry::Transfer(vec![0x44], vec![0x00, 0x00, 0x04]),
        ]
    );
    assert!(delay.log.is_empty());
}

#[test]
fn capture_blocks_until_capture_finished() {
    let unfinished = vec![0x00, 0x00, 0x00];
    let mut cam = harness(vec![
        unfinished.clone(),
        unfinished.clone(),
        unfinished.clone(),
        vec![0x00, 0x00, 0x04],
    ]);
    cam.capture().unwrap();
    let (bus, delay) = cam.into_parts();
    assert_eq!(bus.log.len(), 6);
    assert_eq!(delay.log, vec![500, 500, 500]);
}

#[test]
fn read_fifo_length_reads_three_regs() {
    let mut cam = harness(vec![
        vec![0x00, 0x00, 0xab],
        vec![0x00, 0x00, 0xbc],
        vec![0x00, 0x00, 0xcd],
    ]);
    assert_eq!(cam.read_fifo_length().unwrap(), 13483179);
    let (bus, _) = cam.into_parts();
    assert_eq!(
        bus.log,
        vec![
            LogEntry::Transfer(vec![0x45], vec![0x00, 0x00, 0xab]),
            LogEntry::Transfer(vec![0x46], vec![0x00, 0x00, 0xbc]),
            LogEntry::Transfer(vec![0x47], vec![0x00, 0x00, 0xcd]),
        ]
    );
}

#[test]
fn read_fifo_byte_reads_a_register() {
    let mut cam = harness(vec![vec![0x00, 0x00, 0x33]]);
    assert_eq!(cam.read_fifo_byte().unwrap(), 0x33);
    let (bus, _) = cam.into_parts();
    assert_eq!(
        bus.log,
        vec![LogEntry::Transfer(vec![0x3d], vec![0x00, 0x00, 0x33])]
    );
}

#[test]
fn read_fifo_full_skips_first_two_bytes() {
    let mut buffer = vec![0u8; 2];
    let mut cam = harness(vec![vec![0x00, 0x00, 0x33, 0x01]]);
    cam.read_fifo_full(&mut buffer).unwrap();
    assert_eq!(buffer, [0x33, 0x01]);
    let (bus, _) = cam.into_parts();
    assert_eq!(
        bus.log,
        vec![
            LogEntry::Start,
            LogEntry::Transfer(vec![0x3c], vec![0x00, 0x00, 0x33, 0x01]),
            LogEntry::End,
        ]
    );
}

#[test]
fn read_fifo_full_skips_first_two_bytes_on_long_transfers() {
    let mut buffer = vec![0u8; 126];
    let mut cam = harness(vec![vec![0x11; 65], vec![0x22; 65]]);
    cam.read_fifo_full(&mut buffer).unwrap();
    assert_eq!(
        buffer.iter().map(|i| *i as u32).sum::<u32>(),
        63 * 0x11 + 63 * 0x22
    );
    let (bus, _) = cam.into_parts();
    assert_eq!(bus.log.len(), 4);
    assert_eq!(bus.log[0], LogEntry::Start);
    assert_eq!(bus.log[1], LogEntry::Transfer(vec![0x3c], vec![0x11; 65]));
    assert_eq!(bus.log[2], LogEntry::Transfer(vec![0x3c], vec![0x22; 65]));
    assert_eq!(bus.log[3], LogEntry::End);
}

#[test]
fn read_fifo_full_hands_partial_reads() {
    let mut buffer = vec![0u8; 100];
    let mut cam = harness(vec![vec![0x11; 65], vec![0x22; 39]]);
    cam.read_fifo_full(&mut buffer).unwrap();
    assert_eq!(
        buffer.iter().map(|i| *i as u32).sum::<u32>(),
        63 * 0x11 + 37 * 0x22
    );
}

#[test]
fn set_auto_camera_control_writes_a_register() {
    let mut cam = harness(vec![IDLE.to_vec()]);
    cam.set_auto_camera_control(CameraControl::Exposure, ControlValue::Enable)
        .unwrap();
    let (bus, _) = cam.into_parts();
    assert_eq!(
        bus.log,
        vec![LogEntry::Write(vec![0xaa, 0x81]), idle_poll()]
    );
}

#[test]
fn enable_auto_white_balance_writes_a_register() {
    let mut cam = harness(vec![IDLE.to_vec()]);
    cam.enable_auto_white_balance().unwrap();
    let (bus, _) = cam.into_parts();
    assert_eq!(
        bus.log,
        vec![LogEntry::Write(vec![0xaa, 0x82]), idle_poll()]
    );
}

#[test]
fn disable_auto_white_balance_writes_a_register() {
    let mut cam = harness(vec![IDLE.to_vec()]);
    cam.disable_auto_white_balance().unwrap();
    let (bus, _) = cam.into_parts();
    assert_eq!(
        bus.log,
        vec![LogEntry::Write(vec![0xaa, 0x02]), idle_poll()]
    );
}

#[test]
fn enable_auto_iso_writes_a_register() {
    let mut cam = harness(vec![IDLE.to_vec()]);
    cam.enable_auto_iso().unwrap();
    let (bus, _) = cam.into_parts();
    assert_eq!(
        bus.log,
        vec![LogEntry::Write(vec![0xaa, 0x80]), idle_poll()]
    );
}

#[test]
fn disable_auto_iso_writes_a_register() {
    let mut cam = harness(vec![IDLE.to_vec()]);
    cam.disable_auto_iso().unwrap();
    let (bus, _) = cam.into_parts();
    assert_eq!(
        bus.log,
        vec![LogEntry::Write(vec![0xaa, 0x00]), idle_poll()]
    );
}

#[test]
fn enable_auto_exposure_writes_a_register() {
    let mut cam = harness(vec![IDLE.to_vec()]);
    cam.enable_auto_exposure().unwrap();
    let (bus, _) = cam.into_parts();
    assert_eq!(
        bus.log,
        vec![LogEntry::Write(vec![0xaa, 0x81]), idle_poll()]
    );
}

#[test]
fn disable_auto_exposure_writes_a_register() {
    let mut cam = harness(vec![IDLE.to_vec()]);
    cam.disable_auto_exposure().unwrap();
    let (bus, _) = cam.into_parts();
    assert_eq!(
        bus.log,
        vec![LogEntry::Write(vec![0xaa, 0x01]), idle_poll()]
    );
}

#[test]
fn set_white_balance_mode_disables_autowb_and_writes_a_reg() {
    let mut cam = harness(vec![IDLE.to_vec(), IDLE.to_vec()]);
    cam.set_white_balance_mode(WhiteBalanceMode::Home).unwrap();
    let (bus, _) = cam.into_parts();
    assert_eq!(
        bus.log,
        vec![
            LogEntry::Write(vec![0xaa, 0x02]),
            idle_poll(),
            LogEntry::Write(vec![0xa6, 0x04]),
            idle_poll(),
        ]
    );
}

#[test]
fn enable_low_power_mode_writes_a_reg() {
    let mut cam = harness(vec![]);
    cam.enable_low_power_mode().unwrap();
    let (bus, _) = cam.into_parts();
    assert_eq!(bus.log, vec![LogEntry::Write(vec![0x82, 0x07])]);
}

#[test]
fn disable_low_power_mode_writes_a_reg() {
    let mut cam = harness(vec![]);
    cam.disable_low_power_mode().unwrap();
    let (bus, _) = cam.into_parts();
    assert_eq!(bus.log, vec![LogEntry::Write(vec![0x82, 0x05])]);
}

#[test]
fn set_brightness_bias_writes_a_reg() {
    let mut cam = harness(vec![IDLE.to_vec()]);
    cam.set_brightness_bias(BrightnessLevel::PlusTwo).unwrap();
    let (bus, _) = cam.into_parts();
    assert_eq!(
        bus.log,
        vec![LogEntry::Write(vec![0xa2, 0x03]), idle_poll()]
    );
}

#[test]
fn set_contrast_writes_a_reg() {
    let mut cam = harness(vec![IDLE.to_vec()]);
    cam.set_contrast(Level::PlusTwo).unwrap();
    let (bus, _) = cam.into_parts();
    assert_eq!(
        bus.log,
        vec![LogEntry::Write(vec![0xa3, 0x03]), idle_poll()]
    );
}

#[test]
fn set_saturation_writes_a_reg() {
    let mut cam = harness(vec![IDLE.to_vec()]);
    cam.set_saturation(Level::PlusTwo).unwrap();
    let (bus, _) = cam.into_parts();
    assert_eq!(
        bus.log,
        vec![LogEntry::Write(vec![0xa4, 0x03]), idle_poll()]
    );
}

#[test]
fn set_exposure_writes_a_reg() {
    let mut cam = harness(vec![IDLE.to_vec()]);
    cam.set_exposure(Level::PlusTwo).unwrap();
    let (bus, _) = cam.into_parts();
    assert_eq!(
        bus.log,
        vec![LogEntry::Write(vec![0xa5, 0x03]), idle_poll()]
    );
}

#[test]
fn set_color_effect_writes_a_reg() {
    let mut cam = harness(vec![IDLE.to_vec()]);
    cam.set_color_effect(ColorEffect::BlackWhite).unwrap();
    let (bus, _) = cam.into_parts();
    assert_eq!(
        bus.log,
        vec![LogEntry::Write(vec![0xa7, 0x03]), idle_poll()]
    );
}

#[test]
fn set_sharpness_writes_a_reg() {
    let mut cam = harness(vec![IDLE.to_vec()]);
    cam.set_sharpness(SharpnessLevel::Three).unwrap();
    let (bus, _) = cam.into_parts();
    assert_eq!(
        bus.log,
        vec![LogEntry::Write(vec![0xa8, 0x03]), idle_poll()]
    );
}

#[test]
fn transport_failure_is_reported_as_spi_error() {
    let mut cam = harness(vec![]);
    assert!(matches!(
        cam.read_reg(RegisterAddress::SensorState),
        Err(Error::Spi(_))
    ));
}

#[test]
fn timing_failure_is_reported_as_delay_error() {
    let busy = vec![0x00, 0x00, 0x01];
    let mut cam = ArducamMega::new(
        ScriptBus::new(vec![busy.clone(), busy.clone()]),
        ScriptDelay::with_budget(1),
    );
    assert!(matches!(cam.wait_idle(), Err(Error::Delay(_))));
    let (bus, delay) = cam.into_parts();
    assert_eq!(bus.log.len(), 2);
    assert_eq!(delay.log, vec![500]);
}

#[test]
fn bounded_retry_reports_poll_limit() {
    let busy = vec![0x00, 0x00, 0x01];
    let mut cam = ArducamMega::with_poll_limit(
        ScriptBus::new(vec![busy.clone(), busy.clone()]),
        ScriptDelay::new(),
        2,
    );
    assert!(matches!(cam.wait_idle(), Err(Error::PollLimitReached)));
    let (bus, delay) = cam.into_parts();
    assert_eq!(bus.log.len(), 2);
    assert_eq!(delay.log, vec![500, 500]);
}

#[test]
fn read_fifo_full_places_terminal_bytes_from_second_transfer() {
    let mut terminal = vec![0x50u8; 39];
    terminal[0] = 0x01;
    terminal[1] = 0x02;
    for (k, byte) in terminal.iter_mut().enumerate().skip(2) {
        *byte = k as u8;
    }
    let mut buffer = vec![0u8; 100];
    let mut cam = harness(vec![vec![0x11; 65], terminal.clone()]);
    cam.read_fifo_full(&mut buffer).unwrap();
    assert_eq!(&buffer[..63], &[0x11; 63][..]);
    assert_eq!(&buffer[63..], &terminal[2..39]);
}

#[test]
fn read_fifo_full_supports_empty_destination() {
    let mut buffer: Vec<u8> = Vec::new();
    let mut cam = harness(vec![vec![0x00, 0x00]]);
    cam.read_fifo_full(&mut buffer).unwrap();
    assert!(buffer.is_empty());
    let (bus, _) = cam.into_parts();
    assert_eq!(
        bus.log,
        vec![
            LogEntry::Start,
            LogEntry::Transfer(vec![0x3c], vec![0x00, 0x00]),
            LogEntry::End,
        ]
    );
}

#[test]
fn read_fifo_full_closes_transaction_on_failure() {
    let mut buffer = vec![0u8; 100];
    let mut cam = harness(vec![vec![0x11; 65]]);
    assert!(matches!(
        cam.read_fifo_full(&mut buffer),
        Err(Error::Spi(_))
    ));
    assert_eq!(&buffer[..63], &[0x11; 63][..]);
    assert_eq!(&buffer[63..], &[0u8; 37][..]);
    let (bus, _) = cam.into_parts();
    assert_eq!(bus.log.len(), 3);
    assert_eq!(bus.log[0], LogEntry::Start);
    assert_eq!(bus.log[2], LogEntry::End);
}
