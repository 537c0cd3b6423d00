//! Avia HX711 load-cell converter: the 24-bit two's-complement code that it
//! shifts out, and the pulses that select the next channel and gain.
use vstd::prelude::*;

verus! {

/// Data bits in one conversion.
pub const DATA_BITS: u8 = 24;

/// HX711 channel and gain
#[derive(Clone, Copy, Debug, PartialEq, Eq, Structural)]
pub enum ChannelGain {
    /// Channel: A, Gain: 128
    /// - Send one pulse
    ChannelA128,
    /// Channel: B, Gain: 32
    /// - Send two pulses
    ChannelB32,
    /// Channel: A, Gain: 64
    /// - Send three pulses
    ChannelA64,
}

impl ChannelGain {
    /// The clock pulses after the data bits that select this channel and
    /// gain for the next conversion.
    pub fn pulses(self) -> (r: u8)
        ensures
            r == match self {
                ChannelGain::ChannelA128 => 1u8,
                ChannelGain::ChannelB32 => 2u8,
                ChannelGain::ChannelA64 => 3u8,
            },
    {
        match self {
            ChannelGain::ChannelA128 => 1,
            ChannelGain::ChannelB32 => 2,
            ChannelGain::ChannelA64 => 3,
        }
    }
}

/// HX711 sensor error; `I` and `O` are the input and output pins' errors.
pub enum Error<I, O> {
    /// Digital I/O input error
    Input(I),
    /// Digital I/O output error
    Output(O),
    /// Sensor not ready
    NotReady,
}

/// Shift one data bit, most significant first, into the code read so far.
pub fn push_bit(raw: u32, high: bool) -> (r: u32)
    ensures
        r == (raw as int * 2) % 0x1_0000_0000 + (if high { 1int } else { 0 }),
{
    let r = if high {
        (raw << 1u32) | 1
    } else {
        raw << 1u32
    };
    assert(((raw << 1u32) | 1) == (raw as int * 2) % 0x1_0000_0000 + 1) by (bit_vector);
    assert((raw << 1u32) == (raw as int * 2) % 0x1_0000_0000) by (bit_vector);
    r
}

/// The value of the low 24 bits of `raw` read as a two's-complement number.
pub open spec fn signed24(raw: u32) -> int {
    let low = raw as int % 0x100_0000;
    if low >= 0x80_0000 {
        low - 0x100_0000
    } else {
        low
    }
}

/// Sign-extend the 24-bit code that the converter shifted out.
pub fn to_signed(raw: u32) -> (r: i32)
    ensures
        r == signed24(raw),
{
    let low = raw & 0x00FF_FFFF;
    assert(low == raw as int % 0x100_0000) by (bit_vector)
        requires
            low == raw & 0x00FF_FFFF,
    ;
    if (low & 0x0080_0000) != 0 {
        let r = (low | 0xFF00_0000) as i32;
        assert(r == low as int - 0x100_0000) by (bit_vector)
            requires
                r == (low | 0xFF00_0000) as i32,
                low < 0x100_0000,
                low & 0x0080_0000 != 0,
        ;
        assert(low >= 0x80_0000) by (bit_vector)
            requires
                low < 0x100_0000,
                low & 0x0080_0000 != 0,
        ;
        r
    } else {
        assert(low < 0x80_0000) by (bit_vector)
            requires
                low < 0x100_0000,
                low & 0x0080_0000 == 0,
        ;
        low as i32
    }
}

} // verus!
