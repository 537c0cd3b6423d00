//! The factory calibration: eighteen coefficients parsed from two register
//! blocks of the sensor's NVM.
use vstd::prelude::*;

use crate::sensor::bits::{i16_le, le16, signed16, signed8, u16_le};

verus! {

/// Factory calibration coefficients read from the sensor's NVM.
#[derive(Clone, Copy, Debug, PartialEq, Eq, Structural)]
pub struct Calibration {
    pub dig_t1: u16,
    pub dig_t2: i16,
    pub dig_t3: i16,
    pub dig_p1: u16,
    pub dig_p2: i16,
    pub dig_p3: i16,
    pub dig_p4: i16,
    pub dig_p5: i16,
    pub dig_p6: i16,
    pub dig_p7: i16,
    pub dig_p8: i16,
    pub dig_p9: i16,
    pub dig_h1: u8,
    pub dig_h2: i16,
    pub dig_h3: u8,
    pub dig_h4: i16,
    pub dig_h5: i16,
    pub dig_h6: i8,
}

/// The coefficients that the block at 0x88..0x9F (`tp`) and the bytes at
/// 0xA1 and 0xE1..0xE6 (`h`) encode. Words are little-endian; H4 and H5 are
/// 12-bit values that share the nibbles of `h[5]`.
pub open spec fn calibration_of(tp: Seq<u8>, h: Seq<u8>) -> Calibration {
    Calibration {
        dig_t1: le16(tp[0], tp[1]) as u16,
        dig_t2: signed16(le16(tp[2], tp[3])) as i16,
        dig_t3: signed16(le16(tp[4], tp[5])) as i16,
        dig_p1: le16(tp[6], tp[7]) as u16,
        dig_p2: signed16(le16(tp[8], tp[9])) as i16,
        dig_p3: signed16(le16(tp[10], tp[11])) as i16,
        dig_p4: signed16(le16(tp[12], tp[13])) as i16,
        dig_p5: signed16(le16(tp[14], tp[15])) as i16,
        dig_p6: signed16(le16(tp[16], tp[17])) as i16,
        dig_p7: signed16(le16(tp[18], tp[19])) as i16,
        dig_p8: signed16(le16(tp[20], tp[21])) as i16,
        dig_p9: signed16(le16(tp[22], tp[23])) as i16,
        dig_h1: h[0],
        dig_h2: signed16(le16(h[1], h[2])) as i16,
        dig_h3: h[3],
        dig_h4: (h[4] as int * 16 + h[5] as int % 16) as i16,
        dig_h5: (h[6] as int * 16 + h[5] as int / 16) as i16,
        dig_h6: signed8(h[6] as int) as i8,
    }
}

impl Calibration {
    /// Parse BME280 calibration parameters.
    pub fn from(tp_calib: &[u8; 24], h_calib: &[u8; 7]) -> (r: Self)
        ensures
            r == calibration_of(tp_calib@, h_calib@),
    {
        let h4 = h_calib[4];
        let h5 = h_calib[5];
        let h6 = h_calib[6];
        let dig_h4 = ((h4 as i16) << 4u32) | ((h5 as i16) & 0x0F);
        let dig_h5 = ((h6 as i16) << 4u32) | ((h5 as i16) >> 4u32);
        assert(dig_h4 == h4 as int * 16 + h5 as int % 16) by (bit_vector)
            requires
                dig_h4 == ((h4 as i16) << 4u32) | ((h5 as i16) & 0x0F),
        ;
        assert(dig_h5 == h6 as int * 16 + h5 as int / 16) by (bit_vector)
            requires
                dig_h5 == ((h6 as i16) << 4u32) | ((h5 as i16) >> 4u32),
        ;
        assert((h6 as i8) as int == signed8(h6 as int)) by (bit_vector);
        Self {
            dig_t1: u16_le(tp_calib[0], tp_calib[1]),
            dig_t2: i16_le(tp_calib[2], tp_calib[3]),
            dig_t3: i16_le(tp_calib[4], tp_calib[5]),
            dig_p1: u16_le(tp_calib[6], tp_calib[7]),
            dig_p2: i16_le(tp_calib[8], tp_calib[9]),
            dig_p3: i16_le(tp_calib[10], tp_calib[11]),
            dig_p4: i16_le(tp_calib[12], tp_calib[13]),
            dig_p5: i16_le(tp_calib[14], tp_calib[15]),
            dig_p6: i16_le(tp_calib[16], tp_calib[17]),
            dig_p7: i16_le(tp_calib[18], tp_calib[19]),
            dig_p8: i16_le(tp_calib[20], tp_calib[21]),
            dig_p9: i16_le(tp_calib[22], tp_calib[23]),
            dig_h1: h_calib[0],
            dig_h2: i16_le(h_calib[1], h_calib[2]),
            dig_h3: h_calib[3],
            dig_h4,
            dig_h5,
            dig_h6: h6 as i8,
        }
    }
}

} // verus!
