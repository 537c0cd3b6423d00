use embedded_sensors::sensor::button::{
    classify, next_state, shift_sample, startup_step, Startup, INIT_ATTEMPTS,
};
use embedded_sensors::sensor::dht11::{bit_value, decode, set_bit, Error, Reading};
use embedded_sensors::sensor::hx711::{push_bit, to_signed, ChannelGain};
use embedded_sensors::sensor::pin::{is_active, Level};

#[test]
fn level_opposite() {
    assert_eq!(Level::High.opposite(), Level::Low);
    assert_eq!(Level::Low.opposite(), Level::High);
}

#[test]
fn transient_button_state() {
    assert!(is_active(true, Level::High));
    assert!(!is_active(false, Level::High));
    assert!(is_active(false, Level::Low));
    assert!(!is_active(true, Level::Low));
}

#[test]
fn antishake_window() {
    let mut w = 0u8;
    for _ in 0..8 {
        w = shift_sample(w, true);
    }
    assert_eq!(w, 0xFF);
    assert_eq!(shift_sample(0b1000_0001, false), 0b0000_0010);
    assert_eq!(shift_sample(0b1000_0001, true), 0b0000_0011);
}

#[test]
fn antishake_classify() {
    assert_eq!(classify(0xFF, Level::High), Some(true));
    assert_eq!(classify(0xFF, Level::Low), Some(false));
    assert_eq!(classify(0x00, Level::Low), Some(true));
    assert_eq!(classify(0x00, Level::High), Some(false));
    assert_eq!(classify(0x7F, Level::High), None);
    assert!(next_state(true, None));
    assert!(!next_state(true, Some(false)));
}

#[test]
fn dht11_bits() {
    assert!(bit_value(30_001));
    assert!(!bit_value(30_000));
    assert_eq!(set_bit(0, 0), 0x80);
    assert_eq!(set_bit(0x80, 7), 0x81);
}

#[test]
fn dht11_decode() {
    match decode::<()>(&[45, 0, 23, 0x85, 45 + 23 + 0x85]) {
        Ok(r) => assert_eq!(
            r,
            Reading { humidity: 45, temperature_integral: 23, temperature_tenths: 5, negative: true }
        ),
        Err(_) => panic!("a valid frame was refused"),
    }
    // the checksum wraps modulo 256
    assert!(decode::<()>(&[200, 0, 100, 0, 44]).is_ok());
    assert!(matches!(decode::<()>(&[45, 0, 23, 5, 0]), Err(Error::CheckSum)));
}

#[test]
fn hx711_sign_extension() {
    assert_eq!(to_signed(0x7F_FFFF), 8_388_607);
    assert_eq!(to_signed(0x80_0000), -8_388_608);
    assert_eq!(to_signed(0xFF_FFFF), -1);
    assert_eq!(to_signed(0xAB12_3456), 0x12_3456);
    let mut raw = 0u32;
    for bit in [true, false, true, true] {
        raw = push_bit(raw, bit);
    }
    assert_eq!(raw, 0b1011);
}

#[test]
fn hx711_gain_pulses() {
    assert_eq!(ChannelGain::ChannelA128.pulses(), 1);
    assert_eq!(ChannelGain::ChannelB32.pulses(), 2);
    assert_eq!(ChannelGain::ChannelA64.pulses(), 3);
}

#[test]
fn antishake_startup_decision() {
    assert_eq!(INIT_ATTEMPTS, 10);
    assert_eq!(startup_step(1, Some(true)), Startup::Ready(true));
    assert_eq!(startup_step(10, Some(false)), Startup::Ready(false));
    assert_eq!(startup_step(1, None), Startup::Retry);
    assert_eq!(startup_step(9, None), Startup::Retry);
    assert_eq!(startup_step(10, None), Startup::NotReady);
}
