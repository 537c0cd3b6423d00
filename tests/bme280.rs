use embedded_sensors::sensor::bme280::{
    decode_raw, Calibration, Driver, Measurement, Progress, Request, Session, DEFAULT_ADDRESS,
    HUMIDITY_FULL_SCALE,
};

const TP: [u8; 24] = [
    0x70, 0x6b, 0x43, 0x67, 0x18, 0xfc, 0x7d, 0x8e, 0x43, 0xd6, 0xd0, 0x0b, 0x27, 0x0b, 0x8c,
    0x00, 0xf9, 0xff, 0x8c, 0x3c, 0xf8, 0xc6, 0x70, 0x17,
];
const H: [u8; 7] = [75, 106, 1, 0, 19, 41, 3];

fn reference() -> Calibration {
    Calibration {
        dig_t1: 27504,
        dig_t2: 26435,
        dig_t3: -1000,
        dig_p1: 36477,
        dig_p2: -10685,
        dig_p3: 3024,
        dig_p4: 2855,
        dig_p5: 140,
        dig_p6: -7,
        dig_p7: 15500,
        dig_p8: -14600,
        dig_p9: 6000,
        dig_h1: 75,
        dig_h2: 362,
        dig_h3: 0,
        dig_h4: 313,
        dig_h5: 50,
        dig_h6: 30,
    }
}

fn reply(request: Request, status: u8, tp: &[u8; 24], h: &[u8; 7]) -> Vec<u8> {
    match request {
        Request::Read { register: 0xF3, len } => vec![status; len],
        Request::Read { register: 0x88, .. } => tp.to_vec(),
        Request::Read { register: 0xA1, .. } => vec![h[0]],
        Request::Read { register: 0xE1, .. } => h[1..7].to_vec(),
        Request::Read { len, .. } => vec![0; len],
        _ => Vec::new(),
    }
}

/// Runs a session to its end, answering each read from the fixtures; gives
/// the requests made and the final progress.
fn drive(mut session: Session, status: u8, tp: &[u8; 24], h: &[u8; 7]) -> (Vec<Request>, Progress) {
    let mut requests = Vec::new();
    loop {
        let request = session.request();
        requests.push(request);
        let bytes = reply(request, status, tp, h);
        match session.advance(&bytes) {
            Progress::Continue(next) => session = next,
            done => return (requests, done),
        }
        assert!(requests.len() < 32);
    }
}

fn ready(p: Progress) -> Driver {
    match p {
        Progress::Ready(d) => d,
        _ => panic!("session did not finish with a driver"),
    }
}

#[test]
fn calibration_parse_reference_fixture() {
    let c = Calibration::from(&TP, &H);
    assert_eq!(c.dig_t1, 27504);
    assert_eq!(c.dig_t2, 26435);
    assert_eq!(c.dig_t3, -1000);
    assert_eq!(c.dig_p1, 36477);
    assert_eq!(c.dig_p2, -10685);
    assert_eq!(c.dig_p3, 3024);
    assert_eq!(c.dig_p4, 2855);
    assert_eq!(c.dig_p5, 140);
    assert_eq!(c.dig_p6, -7);
    assert_eq!(c.dig_p7, 15500);
    assert_eq!(c.dig_p8, -14600);
    assert_eq!(c.dig_p9, 6000);
    assert_eq!(c.dig_h1, 75);
    assert_eq!(c.dig_h2, 362);
    assert_eq!(c.dig_h3, 0);
    assert_eq!(c.dig_h4, 313);
    assert_eq!(c.dig_h5, 50);
    assert_eq!(c.dig_h6, 3);
}

#[test]
fn calibration_parse_is_deterministic() {
    assert_eq!(Calibration::from(&TP, &H), Calibration::from(&TP, &H));
}

#[test]
fn calibration_parse_packed_humidity_nibbles() {
    let h = [0xFF, 0x00, 0x80, 0xFF, 0xAB, 0xCD, 0xEF];
    let c = Calibration::from(&[0u8; 24], &h);
    assert_eq!(c.dig_h1, 255);
    assert_eq!(c.dig_h2, -32768);
    assert_eq!(c.dig_h3, 255);
    assert_eq!(c.dig_h4, 0xABD);
    assert_eq!(c.dig_h5, 0xEFC);
    assert_eq!(c.dig_h6, -17);
    assert_eq!(c.dig_t1, 0);
}

#[test]
fn compensate_temperature_reference() {
    let (t, t_fine) = reference().compensate_temperature(519888).unwrap();
    assert_eq!(t_fine, 128422);
    assert_eq!(t, 2508);
    assert!((t as f64 / 100.0 - 25.08).abs() < 0.01);
}

#[test]
fn compensate_temperature_overflow_is_none() {
    let mut c = reference();
    c.dig_t1 = 0;
    c.dig_t2 = 32767;
    assert_eq!(c.compensate_temperature(0xF_FFFF), None);
}

#[test]
fn compensate_pressure_reference() {
    let p = reference().compensate_pressure(415148, 128422).unwrap();
    assert_eq!(p, 25767233);
    assert!((p as f64 / 256.0 - 100653.27).abs() < 1.0);
}

#[test]
fn compensate_pressure_zero_denominator() {
    let mut c = reference();
    c.dig_p1 = 0;
    assert_eq!(c.compensate_pressure(415148, 128422), Some(0));
    assert_eq!(c.compensate_pressure(0, 128422), Some(0));
    assert_eq!(c.compensate_pressure(0xF_FFFF, -5000), Some(0));
}

#[test]
fn compensate_pressure_overflow_is_none() {
    assert_eq!(reference().compensate_pressure(415148, i64::MIN), None);
}

#[test]
fn compensate_humidity_reference() {
    let h = reference().compensate_humidity(30000, 128422).unwrap();
    assert_eq!(h, 56317);
    let percent = h as f64 / 1024.0;
    assert!((percent - 55.0).abs() <= 1.0);
    assert!((0.0..=100.0).contains(&percent));
}

#[test]
fn compensate_humidity_clamps() {
    let c = reference();
    assert_eq!(c.compensate_humidity(0, 128422), Some(0));
    assert_eq!(c.compensate_humidity(65535, 128422), Some(HUMIDITY_FULL_SCALE));
    assert_eq!(HUMIDITY_FULL_SCALE, 100 * 1024);
}

#[test]
fn compensate_humidity_within_bounds_for_all_codes() {
    let mut extreme = reference();
    extreme.dig_h2 = 100;
    extreme.dig_h4 = 0;
    extreme.dig_h5 = 0;
    extreme.dig_h1 = 255;
    for c in [reference(), extreme] {
        for adc_h in 0..=65535 {
            if let Some(h) = c.compensate_humidity(adc_h, 128422) {
                assert!(h <= 102400);
            }
        }
    }
}

#[test]
fn compensate_humidity_overflow_is_none() {
    assert_eq!(reference().compensate_humidity(30000, i64::MAX), None);
}

#[test]
fn decode_raw_burst() {
    let burst = [0x65, 0x5a, 0xc0, 0x7e, 0xed, 0x00, 0x75, 0x30];
    assert_eq!(decode_raw(&burst), (415148, 519888, 30000));
    assert_eq!(decode_raw(&[0xFF; 8]), (0xF_FFFF, 0xF_FFFF, 0xFFFF));
}

#[test]
fn compensate_burst() {
    let burst = [0x65, 0x5a, 0xc0, 0x7e, 0xed, 0x00, 0x75, 0x30];
    let m = reference().compensate(&burst).unwrap();
    assert_eq!(
        m,
        Measurement { centi_celsius: 2508, pressure_q24_8: 25767233, humidity_q22_10: 56317 }
    );
}

#[test]
fn construction_requests_in_order() {
    let (requests, done) = drive(Session::construct(None), 0x00, &TP, &H);
    assert_eq!(
        requests,
        vec![
            Request::Wait { millis: 3 },
            Request::Read { register: 0xF3, len: 1 },
            Request::Read { register: 0x88, len: 24 },
            Request::Read { register: 0xA1, len: 1 },
            Request::Read { register: 0xE1, len: 6 },
            Request::Write { register: 0xF2, value: 0x01 },
            Request::Wait { millis: 10 },
            Request::Write { register: 0xF4, value: 0x27 },
            Request::Wait { millis: 10 },
            Request::Write { register: 0xF5, value: 0x00 },
            Request::Wait { millis: 10 },
        ]
    );
    let d = ready(done);
    assert_eq!(d.address(), DEFAULT_ADDRESS);
    assert_eq!(d.address(), 0x76);
    assert_eq!(d.calibration(), Calibration::from(&TP, &H));
}

#[test]
fn construction_uses_given_address() {
    let session = Session::construct(Some(0x77));
    assert_eq!(session.address(), 0x77);
    let d = ready(drive(session, 0x00, &TP, &H).1);
    assert_eq!(d.address(), 0x77);
}

#[test]
fn construction_fails_iff_status_bit0_set() {
    for status in 0..=255u8 {
        let (requests, done) = drive(Session::construct(None), status, &TP, &H);
        if status & 1 == 1 {
            assert!(matches!(done, Progress::Failed));
            assert_eq!(requests.len(), 2);
        } else {
            assert!(matches!(done, Progress::Ready(_)));
        }
    }
}

#[test]
fn reset_reloads_calibration() {
    let d = ready(drive(Session::construct(Some(0x77)), 0x00, &TP, &H).1);
    let tp2 = [0x11u8; 24];
    let h2 = [0x22u8, 0x33, 0x44, 0x55, 0x66, 0x77, 0x88];
    let (requests, done) = drive(d.reset(), 0x00, &tp2, &h2);
    assert_eq!(
        requests,
        vec![
            Request::Write { register: 0xE0, value: 0xB6 },
            Request::Wait { millis: 5 },
            Request::Read { register: 0x88, len: 24 },
            Request::Read { register: 0xA1, len: 1 },
            Request::Read { register: 0xE1, len: 6 },
        ]
    );
    let after = ready(done);
    assert_eq!(after.address(), 0x77);
    assert_eq!(after.calibration(), Calibration::from(&tp2, &h2));
    assert_ne!(after.calibration(), d.calibration());
}

#[test]
fn driver_measures_burst() {
    let d = ready(drive(Session::construct(None), 0x00, &TP, &H).1);
    assert_eq!(d.sample_request(), Request::Read { register: 0xF7, len: 8 });
    let burst = [0x65, 0x5a, 0xc0, 0x7e, 0xed, 0x00, 0x75, 0x30];
    let m = d.measure(&burst).unwrap();
    assert_eq!(m.centi_celsius, 2508);
    assert_eq!(m.pressure_q24_8, 25767233);
    assert_eq!(m.humidity_q22_10, 55183);
}
