//! Aosong AHT30 temperature and humidity sensor: its status byte, the CRC-8
//! that guards each measurement frame, and the frame's two 20-bit codes.
use vstd::prelude::*;

verus! {

/// The 7-bit bus address used when none is given.
pub const DEFAULT_ADDRESS: u8 = 0x38;

/// AHT30 working mode
#[derive(Clone, Copy, Debug, PartialEq, Eq, Structural)]
pub enum WorkingMode {
    /// Normal
    NOR,
    /// Cycle mode
    CYC,
    /// Command mode
    CMD,
}

/// AHT30 status
///
/// Binary bits are counted from right to left. For example, in 0b00000001,
/// the 0th bit is 1. Bits 0 and 1 are reserved.
#[derive(Clone, Copy, Debug)]
pub struct Status {
    /// Bit 2: the calibrated capacitance left the CMP interrupt window.
    pub cmp_interrupt: bool,
    /// Bit 3: calibrated output is enabled (otherwise the raw ADC output).
    pub calibration_enabled: bool,
    /// Bit 4: the OTP memory passed its integrity (CRC) check.
    pub crc_ok: bool,
    /// Bits 5 and 6: the working mode.
    pub mode: WorkingMode,
    /// Bit 7: a measurement is in progress.
    pub is_busy: bool,
}

/// Whether the bit of the given weight (1, 2, 4, ..., 128) is set.
pub open spec fn bit_set(data: u8, weight: int) -> bool {
    (data as int / weight) % 2 == 1
}

/// The working mode that bits 6 and 5 of a status byte report: 1x command
/// mode, 01 cycle mode, 00 normal mode.
pub open spec fn mode_of(data: u8) -> WorkingMode {
    if bit_set(data, 64) {
        WorkingMode::CMD
    } else if bit_set(data, 32) {
        WorkingMode::CYC
    } else {
        WorkingMode::NOR
    }
}

impl Status {
    /// Parse AHT30 status
    pub fn from(data: u8) -> (r: Self)
        ensures
            r.cmp_interrupt == bit_set(data, 4),
            r.calibration_enabled == bit_set(data, 8),
            r.crc_ok == bit_set(data, 16),
            r.mode == mode_of(data),
            r.is_busy == bit_set(data, 128),
    {
        assert(((data & 0b0000_0100) != 0) == ((data / 4) % 2 == 1)) by (bit_vector);
        assert(((data & 0b0000_1000) != 0) == ((data / 8) % 2 == 1)) by (bit_vector);
        assert(((data & 0b0001_0000) != 0) == ((data / 16) % 2 == 1)) by (bit_vector);
        assert(((data & 0b1000_0000) != 0) == ((data / 128) % 2 == 1)) by (bit_vector);
        assert(((data & 0b0100_0000) != 0) == ((data / 64) % 2 == 1)) by (bit_vector);
        assert(((data & 0b0010_0000) != 0) == ((data / 32) % 2 == 1)) by (bit_vector);
        Self {
            cmp_interrupt: (data & 0b0000_0100) != 0,
            calibration_enabled: (data & 0b0000_1000) != 0,
            crc_ok: (data & 0b0001_0000) != 0,
            mode: if (data & 0b0100_0000) != 0 {
                WorkingMode::CMD
            } else if (data & 0b0010_0000) != 0 {
                WorkingMode::CYC
            } else {
                WorkingMode::NOR
            },
            is_busy: (data & 0b1000_0000) != 0,
        }
    }
}

/// AHT30 sensor driver error; `E` is the bus's own error.
pub enum Error<E> {
    /// I2C bus raw error
    Raw(E),
    /// Sensor initialization failed
    Init,
    /// The CRC8 verification of the data failed
    Crc,
    /// Sensor busy
    Busy,
}

// CRC-8 with polynomial x^8 + x^5 + x^4 + 1 (0x31) and initial value 0xFF.

/// One bit step of the CRC register.
pub open spec fn crc8_shift(crc: u8) -> u8 {
    if crc & 0x80 != 0 {
        ((crc << 1u8) ^ 0x31) as u8
    } else {
        (crc << 1u8) as u8
    }
}

/// `n` bit steps of the CRC register.
pub open spec fn crc8_shifts(crc: u8, n: nat) -> u8
    decreases n,
{
    if n == 0 {
        crc
    } else {
        crc8_shifts(crc8_shift(crc), (n - 1) as nat)
    }
}

/// The CRC-8 of a byte string.
pub open spec fn crc8(data: Seq<u8>) -> u8
    decreases data.len(),
{
    if data.len() == 0 {
        0xFF
    } else {
        crc8_shifts(crc8(data.drop_last()) ^ data.last(), 8)
    }
}

/// Calculate the CRC8 checksum
pub fn calc_crc8(data: &[u8]) -> (r: u8)
    ensures
        r == crc8(data@),
{
    let mut crc8_sum: u8 = 0xFF;
    let mut i: usize = 0;
    while i < data.len()
        invariant
            i <= data@.len(),
            crc8_sum == crc8(data@.subrange(0, i as int)),
        decreases data@.len() - i,
    {
        let ghost prefix = data@.subrange(0, i as int + 1);
        assert(prefix.drop_last() =~= data@.subrange(0, i as int));
        crc8_sum ^= data[i];
        let ghost start = crc8_sum;
        let mut bit: u8 = 0;
        while bit < 8
            invariant
                bit <= 8,
                crc8_shifts(crc8_sum, (8 - bit) as nat) == crc8_shifts(start, 8),
            decreases 8 - bit,
        {
            if crc8_sum & 0x80 != 0 {
                crc8_sum = (crc8_sum << 1u8) ^ 0x31;
            } else {
                crc8_sum <<= 1u8;
            }
            bit += 1;
        }
        i += 1;
    }
    assert(data@.subrange(0, data@.len() as int) =~= data@);
    crc8_sum
}

/// The two codes of a measurement frame.
#[derive(Clone, Copy, Debug, PartialEq, Eq, Structural)]
pub struct RawSample {
    /// 20-bit humidity code: bytes 1 and 2 and the upper nibble of byte 3.
    pub humidity: u32,
    /// 20-bit temperature code: the lower nibble of byte 3 and bytes 4 and 5.
    pub temperature: u32,
}

pub open spec fn humidity_code(frame: Seq<u8>) -> int {
    frame[1] as int * 4096 + frame[2] as int * 16 + frame[3] as int / 16
}

pub open spec fn temperature_code(frame: Seq<u8>) -> int {
    (frame[3] as int % 16) * 65536 + frame[4] as int * 256 + frame[5] as int
}

/// Check and split a measurement frame: status byte, five data bytes and a
/// CRC-8 over the first six bytes.
///
/// A wrong checksum gives `Crc`; then a busy status gives `Busy`.
pub fn decode_frame<E>(frame: &[u8; 7]) -> (r: Result<RawSample, Error<E>>)
    ensures
        frame@[6] != crc8(frame@.subrange(0, 6)) ==> r is Err && r->Err_0 is Crc,
        frame@[6] == crc8(frame@.subrange(0, 6)) && bit_set(frame@[0], 128) ==> r is Err
            && r->Err_0 is Busy,
        frame@[6] == crc8(frame@.subrange(0, 6)) && !bit_set(frame@[0], 128) ==> r
            == Ok::<RawSample, Error<E>>(
            RawSample {
                humidity: humidity_code(frame@) as u32,
                temperature: temperature_code(frame@) as u32,
            },
        ),
{
    let received = frame[6];
    let head = [frame[0], frame[1], frame[2], frame[3], frame[4], frame[5]];
    assert(head@ =~= frame@.subrange(0, 6));
    let computed = calc_crc8(&head);
    if received != computed {
        return Err(Error::Crc);
    }
    let status = Status::from(frame[0]);
    if status.is_busy {
        return Err(Error::Busy);
    }
    let b1 = frame[1] as u32;
    let b2 = frame[2] as u32;
    let b3 = frame[3] as u32;
    let b4 = frame[4] as u32;
    let b5 = frame[5] as u32;
    let humidity = (b1 << 12u32) | (b2 << 4u32) | (b3 >> 4u32);
    let temperature = ((b3 & 0b1111) << 16u32) | (b4 << 8u32) | b5;
    assert(humidity == b1 * 4096 + b2 * 16 + b3 / 16) by (bit_vector)
        requires
            humidity == (b1 << 12u32) | (b2 << 4u32) | (b3 >> 4u32),
            b1 < 256,
            b2 < 256,
            b3 < 256,
    ;
    assert(temperature == (b3 % 16) * 65536 + b4 * 256 + b5) by (bit_vector)
        requires
            temperature == ((b3 & 0b1111) << 16u32) | (b4 << 8u32) | b5,
            b3 < 256,
            b4 < 256,
            b5 < 256,
    ;
    Ok(RawSample { humidity, temperature })
}

/// The command that starts the sensor's calibration.
pub fn init_command() -> (r: [u8; 3])
    ensures
        r@ == seq![0xBEu8, 0x08u8, 0x00u8],
{
    let r = [0xBE, 0x08, 0x00];
    assert(r@ =~= seq![0xBEu8, 0x08u8, 0x00u8]);
    r
}

/// The command that triggers a measurement.
pub fn measure_command() -> (r: [u8; 3])
    ensures
        r@ == seq![0xACu8, 0x33u8, 0x00u8],
{
    let r = [0xAC, 0x33, 0x00];
    assert(r@ =~= seq![0xACu8, 0x33u8, 0x00u8]);
    r
}

} // verus!
