//! Aosong DHT11 temperature and humidity sensor: the bits of its one-wire
//! frame and the frame's checksum.
use vstd::prelude::*;

verus! {

/// A high pulse longer than this, in nanoseconds, carries a 1 bit.
pub const ONE_BIT_NANOS: u128 = 30_000;

/// DHT11 sensor error; `E` is the pin's own error.
pub enum Error<E> {
    /// Digital I/O input error
    Input(E),
    /// Digital I/O output error
    Output(E),
    /// Sensor not ready
    NotReady,
    /// Check sum error
    CheckSum,
}

/// The bit that a high pulse of this length carries.
pub fn bit_value(high_nanos: u128) -> (r: bool)
    ensures
        r == (high_nanos > ONE_BIT_NANOS),
{
    high_nanos > ONE_BIT_NANOS
}

/// Set bit `index` of a byte, counting from the most significant bit.
pub fn set_bit(byte: u8, index: u8) -> (r: u8)
    requires
        index < 8,
    ensures
        r == byte | (1u8 << (7 - index) as u8),
{
    byte | (1u8 << (7 - index))
}

/// The fields of a frame whose checksum matched.
#[derive(Clone, Copy, Debug, PartialEq, Eq, Structural)]
pub struct Reading {
    /// Relative humidity in percent (the sensor sends no fraction).
    pub humidity: u8,
    /// Whole degrees Celsius.
    pub temperature_integral: u8,
    /// Tenths of a degree Celsius.
    pub temperature_tenths: u8,
    /// The temperature is below zero.
    pub negative: bool,
}

/// The checksum byte of a frame: the sum of its first four bytes, modulo 256.
pub open spec fn checksum_of(data: Seq<u8>) -> int {
    (data[0] as int + data[1] as int + data[2] as int + data[3] as int) % 256
}

/// Check a five-byte frame (humidity, humidity fraction, temperature,
/// temperature fraction with the sign in bit 7, checksum) and split it.
pub fn decode<E>(data: &[u8; 5]) -> (r: Result<Reading, Error<E>>)
    ensures
        data@[4] != checksum_of(data@) ==> r is Err && r->Err_0 is CheckSum,
        data@[4] == checksum_of(data@) ==> r == Ok::<Reading, Error<E>>(
            Reading {
                humidity: data@[0],
                temperature_integral: data@[2],
                temperature_tenths: (data@[3] % 128) as u8,
                negative: data@[3] >= 128,
            },
        ),
{
    let checksum = data[0].wrapping_add(data[1]).wrapping_add(data[2]).wrapping_add(data[3]);
    if checksum != data[4] {
        return Err(Error::CheckSum);
    }
    let d3 = data[3];
    assert(d3 & 0b0111_1111 == d3 % 128) by (bit_vector);
    assert((d3 & 0x80 != 0) == (d3 >= 128)) by (bit_vector);
    Ok(
        Reading {
            humidity: data[0],
            temperature_integral: data[2],
            temperature_tenths: d3 & 0b0111_1111,
            negative: d3 & 0x80 != 0,
        },
    )
}

} // verus!
