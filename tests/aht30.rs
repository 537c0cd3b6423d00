use embedded_sensors::sensor::aht30::{
    calc_crc8, decode_frame, init_command, measure_command, Error, RawSample, Status, WorkingMode,
};

#[test]
fn status_from_bits() {
    let s = Status::from(0b0001_1100);
    assert!(s.cmp_interrupt);
    assert!(s.calibration_enabled);
    assert!(s.crc_ok);
    assert_eq!(s.mode, WorkingMode::NOR);
    assert!(!s.is_busy);

    let s = Status::from(0b1000_0000);
    assert!(!s.cmp_interrupt);
    assert!(!s.calibration_enabled);
    assert!(!s.crc_ok);
    assert!(s.is_busy);
}

#[test]
fn status_mode_bits() {
    assert_eq!(Status::from(0b0000_0000).mode, WorkingMode::NOR);
    assert_eq!(Status::from(0b0100_0000).mode, WorkingMode::CMD);
    assert_eq!(Status::from(0b0110_0000).mode, WorkingMode::CMD);
    assert_eq!(Status::from(0b0010_0000).mode, WorkingMode::CYC);
    assert_eq!(Status::from(0b1010_1111).mode, WorkingMode::CYC);
    assert_eq!(Status::from(0b1101_0000).mode, WorkingMode::CMD);
}

#[test]
fn crc8_check_values() {
    assert_eq!(calc_crc8(&[0xBE, 0xEF]), 0x92);
    assert_eq!(calc_crc8(&[]), 0xFF);
    assert_eq!(calc_crc8(&[0x1C, 0x6B, 0x2A, 0x45, 0xE1, 0x9C]), 0x2B);
}

#[test]
fn decode_frame_valid() {
    let frame = [0x1C, 0x6B, 0x2A, 0x45, 0xE1, 0x9C, 0x2B];
    match decode_frame::<()>(&frame) {
        Ok(sample) => {
            assert_eq!(sample, RawSample { humidity: 438948, temperature: 385436 })
        }
        Err(_) => panic!("a valid frame was refused"),
    }
}

#[test]
fn decode_frame_bad_crc() {
    let frame = [0x1C, 0x6B, 0x2A, 0x45, 0xE1, 0x9C, 0x2C];
    assert!(matches!(decode_frame::<()>(&frame), Err(Error::Crc)));
}

#[test]
fn decode_frame_busy() {
    let mut frame = [0x9C, 0x6B, 0x2A, 0x45, 0xE1, 0x9C, 0x00];
    frame[6] = calc_crc8(&frame[0..6]);
    assert!(matches!(decode_frame::<()>(&frame), Err(Error::Busy)));
}

#[test]
fn aht30_commands() {
    assert_eq!(init_command(), [0xBE, 0x08, 0x00]);
    assert_eq!(measure_command(), [0xAC, 0x33, 0x00]);
}
