//! Compensation of raw converter codes with the fixed-point formulas of the
//! vendor's datasheet. Each formula is exact where its machine-width steps
//! stay in range and gives `None` where one of them would overflow.
use vstd::prelude::*;

use crate::sensor::bits::{fits_i32, fits_i64, lemma_shr_i32, lemma_shr_i64};
use crate::sensor::bme280::calibration::Calibration;

verus! {

// Temperature: two terms over 32-bit signed arithmetic.

pub open spec fn temp_var1_product(c: Calibration, adc_t: int) -> int {
    (adc_t / 8 - 2 * c.dig_t1) * c.dig_t2
}

pub open spec fn temp_delta(c: Calibration, adc_t: int) -> int {
    adc_t / 16 - c.dig_t1
}

pub open spec fn temp_delta_square(c: Calibration, adc_t: int) -> int {
    temp_delta(c, adc_t) * temp_delta(c, adc_t)
}

pub open spec fn temp_var2_product(c: Calibration, adc_t: int) -> int {
    temp_delta_square(c, adc_t) / 4096 * c.dig_t3
}

/// Every product of the temperature formula fits in 32 bits.
pub open spec fn temperature_fits(c: Calibration, adc_t: int) -> bool {
    &&& fits_i32(temp_var1_product(c, adc_t))
    &&& fits_i32(temp_delta_square(c, adc_t))
    &&& fits_i32(temp_var2_product(c, adc_t))
}

/// The fine temperature, the intermediate that pressure and humidity use.
pub open spec fn t_fine_of(c: Calibration, adc_t: int) -> int {
    temp_var1_product(c, adc_t) / 2048 + temp_var2_product(c, adc_t) / 16384
}

/// Temperature in hundredths of a degree Celsius.
pub open spec fn centi_celsius_of(t_fine: int) -> int {
    (t_fine * 5 + 128) / 256
}

/// Compensated temperature and fine temperature, or `None` where a 32-bit
/// intermediate of the formula would overflow.
pub open spec fn temperature_of(c: Calibration, adc_t: int) -> Option<(i32, i64)> {
    if temperature_fits(c, adc_t) {
        Some((centi_celsius_of(t_fine_of(c, adc_t)) as i32, t_fine_of(c, adc_t) as i64))
    } else {
        None
    }
}

impl Calibration {
    /// Compensate a raw temperature code.
    ///
    /// Returns the temperature in 0.01 degC and the fine temperature; `None`
    /// where the 32-bit arithmetic of the formula would overflow.
    pub fn compensate_temperature(&self, adc_t: i32) -> (r: Option<(i32, i64)>)
        ensures
            r == temperature_of(*self, adc_t as int),
    {
        let dig_t1 = self.dig_t1 as i32;
        let dig_t2 = self.dig_t2 as i32;
        let dig_t3 = self.dig_t3 as i32;
        proof {
            lemma_shr_i32(adc_t);
        }
        let linear = ((adc_t >> 3u32) - dig_t1 * 2).checked_mul(dig_t2)?;
        let delta = (adc_t >> 4u32) - dig_t1;
        let sq = delta.checked_mul(delta)?;
        proof {
            lemma_shr_i32(linear);
            lemma_shr_i32(sq);
        }
        let quadratic = (sq >> 12u32).checked_mul(dig_t3)?;
        proof {
            lemma_shr_i32(quadratic);
        }
        let var1 = linear >> 11u32;
        let var2 = quadratic >> 14u32;
        let t_fine = (var1 as i64) + (var2 as i64);
        let scaled = t_fine * 5 + 128;
        proof {
            lemma_shr_i64(scaled);
        }
        let temperature = scaled >> 8u32;
        Some((temperature as i32, t_fine))
    }
}

// Pressure: nine steps over 64-bit signed arithmetic.

/// Rust's integer division, which rounds toward zero.
pub open spec fn div_toward_zero(a: int, b: int) -> int {
    let q = (if a < 0 { -a } else { a }) / (if b < 0 { -b } else { b });
    if (a < 0) != (b < 0) {
        -q
    } else {
        q
    }
}

pub open spec fn press_offset(t_fine: int) -> int {
    t_fine - 128000
}

pub open spec fn press_offset_square(t_fine: int) -> int {
    press_offset(t_fine) * press_offset(t_fine)
}

pub open spec fn press_quadratic(c: Calibration, t_fine: int) -> int {
    press_offset_square(t_fine) * c.dig_p3
}

pub open spec fn press_linear(c: Calibration, t_fine: int) -> int {
    press_offset(t_fine) * c.dig_p2
}

pub open spec fn press_linear_scaled(c: Calibration, t_fine: int) -> int {
    press_linear(c, t_fine) * 4096
}

pub open spec fn press_sensitivity(c: Calibration, t_fine: int) -> int {
    press_quadratic(c, t_fine) / 256 + press_linear_scaled(c, t_fine)
}

pub open spec fn press_biased(c: Calibration, t_fine: int) -> int {
    0x8000_0000_0000 + press_sensitivity(c, t_fine)
}

pub open spec fn press_scaled(c: Calibration, t_fine: int) -> int {
    press_biased(c, t_fine) * c.dig_p1
}

/// The divisor of the pressure formula.
pub open spec fn pressure_denominator(c: Calibration, t_fine: int) -> int {
    press_scaled(c, t_fine) / 0x2_0000_0000
}

/// Every step toward the divisor fits in 64 bits.
pub open spec fn denominator_fits(c: Calibration, t_fine: int) -> bool {
    &&& fits_i64(press_offset(t_fine))
    &&& fits_i64(press_offset_square(t_fine))
    &&& fits_i64(press_quadratic(c, t_fine))
    &&& fits_i64(press_linear(c, t_fine))
    &&& fits_i64(press_linear_scaled(c, t_fine))
    &&& fits_i64(press_sensitivity(c, t_fine))
    &&& fits_i64(press_biased(c, t_fine))
    &&& fits_i64(press_scaled(c, t_fine))
}

pub open spec fn press_curvature(c: Calibration, t_fine: int) -> int {
    press_offset_square(t_fine) * c.dig_p6
}

pub open spec fn press_slope(c: Calibration, t_fine: int) -> int {
    press_offset(t_fine) * c.dig_p5
}

pub open spec fn press_slope_scaled(c: Calibration, t_fine: int) -> int {
    press_slope(c, t_fine) * 0x2_0000
}

pub open spec fn press_curve_sum(c: Calibration, t_fine: int) -> int {
    press_curvature(c, t_fine) + press_slope_scaled(c, t_fine)
}

/// The offset term of the pressure formula.
pub open spec fn press_offset_term(c: Calibration, t_fine: int) -> int {
    press_curve_sum(c, t_fine) + c.dig_p4 * 0x8_0000_0000
}

pub open spec fn press_base(adc_p: int) -> int {
    1048576 - adc_p
}

pub open spec fn press_base_scaled(adc_p: int) -> int {
    press_base(adc_p) * 0x8000_0000
}

pub open spec fn press_numerator(c: Calibration, adc_p: int, t_fine: int) -> int {
    press_base_scaled(adc_p) - press_offset_term(c, t_fine)
}

pub open spec fn press_numerator_scaled(c: Calibration, adc_p: int, t_fine: int) -> int {
    press_numerator(c, adc_p, t_fine) * 3125
}

/// The uncorrected pressure, before the two final correction terms.
pub open spec fn press_quotient(c: Calibration, adc_p: int, t_fine: int) -> int {
    div_toward_zero(press_numerator_scaled(c, adc_p, t_fine), pressure_denominator(c, t_fine))
}

pub open spec fn press_root(c: Calibration, adc_p: int, t_fine: int) -> int {
    press_quotient(c, adc_p, t_fine) / 8192
}

pub open spec fn press_root_square(c: Calibration, adc_p: int, t_fine: int) -> int {
    press_root(c, adc_p, t_fine) * press_root(c, adc_p, t_fine)
}

pub open spec fn press_square_term(c: Calibration, adc_p: int, t_fine: int) -> int {
    c.dig_p9 * press_root_square(c, adc_p, t_fine)
}

pub open spec fn press_linear_term(c: Calibration, adc_p: int, t_fine: int) -> int {
    c.dig_p8 * press_quotient(c, adc_p, t_fine)
}

pub open spec fn press_partial(c: Calibration, adc_p: int, t_fine: int) -> int {
    press_quotient(c, adc_p, t_fine) + press_square_term(c, adc_p, t_fine) / 0x200_0000
}

pub open spec fn press_total(c: Calibration, adc_p: int, t_fine: int) -> int {
    press_partial(c, adc_p, t_fine) + press_linear_term(c, adc_p, t_fine) / 0x8_0000
}

/// Pressure in pascals as an unsigned Q24.8 fixed-point value.
pub open spec fn pressure_q24_8(c: Calibration, adc_p: int, t_fine: int) -> int {
    press_total(c, adc_p, t_fine) / 256 + c.dig_p7 * 16
}

/// Every step after the divisor fits in 64 bits.
pub open spec fn pressure_fits(c: Calibration, adc_p: int, t_fine: int) -> bool {
    &&& fits_i64(press_curvature(c, t_fine))
    &&& fits_i64(press_slope(c, t_fine))
    &&& fits_i64(press_slope_scaled(c, t_fine))
    &&& fits_i64(press_curve_sum(c, t_fine))
    &&& fits_i64(press_offset_term(c, t_fine))
    &&& fits_i64(press_base_scaled(adc_p))
    &&& fits_i64(press_numerator(c, adc_p, t_fine))
    &&& fits_i64(press_numerator_scaled(c, adc_p, t_fine))
    &&& fits_i64(press_quotient(c, adc_p, t_fine))
    &&& fits_i64(press_root_square(c, adc_p, t_fine))
    &&& fits_i64(press_square_term(c, adc_p, t_fine))
    &&& fits_i64(press_linear_term(c, adc_p, t_fine))
    &&& fits_i64(press_partial(c, adc_p, t_fine))
    &&& fits_i64(press_total(c, adc_p, t_fine))
    &&& fits_i64(pressure_q24_8(c, adc_p, t_fine))
}

/// Compensated pressure in Q24.8 pascals: zero where the divisor is zero,
/// `None` where a 64-bit step of the formula would overflow.
pub open spec fn pressure_of(c: Calibration, adc_p: int, t_fine: int) -> Option<i64> {
    if !denominator_fits(c, t_fine) {
        None
    } else if pressure_denominator(c, t_fine) == 0 {
        Some(0)
    } else if pressure_fits(c, adc_p, t_fine) {
        Some(pressure_q24_8(c, adc_p, t_fine) as i64)
    } else {
        None
    }
}

impl Calibration {
    /// Compensate a raw pressure code with the fine temperature of the same
    /// sample.
    ///
    /// Returns the pressure in pascals as a Q24.8 fixed-point value (divide
    /// by 256). A zero divisor gives exactly 0; `None` where the 64-bit
    /// arithmetic of the formula would overflow.
    pub fn compensate_pressure(&self, adc_p: i32, t_fine: i64) -> (r: Option<i64>)
        ensures
            r == pressure_of(*self, adc_p as int, t_fine as int),
    {
        let dig_p1 = self.dig_p1 as i64;
        let dig_p2 = self.dig_p2 as i64;
        let dig_p3 = self.dig_p3 as i64;
        let dig_p4 = self.dig_p4 as i64;
        let dig_p5 = self.dig_p5 as i64;
        let dig_p6 = self.dig_p6 as i64;
        let dig_p7 = self.dig_p7 as i64;
        let dig_p8 = self.dig_p8 as i64;
        let dig_p9 = self.dig_p9 as i64;

        // The divisor comes first, so that a zero divisor is recognised
        // whatever the remaining terms would do.
        let offset = t_fine.checked_sub(128000)?;
        let offset_sq = offset.checked_mul(offset)?;
        let quadratic = offset_sq.checked_mul(dig_p3)?;
        let linear = offset.checked_mul(dig_p2)?.checked_mul(4096)?;
        proof {
            lemma_shr_i64(quadratic);
        }
        let sensitivity = (quadratic >> 8u32).checked_add(linear)?;
        let scaled = sensitivity.checked_add(0x8000_0000_0000)?.checked_mul(dig_p1)?;
        proof {
            lemma_shr_i64(scaled);
        }
        let denominator = scaled >> 33u32;
        if denominator == 0 {
            return Some(0);
        }

        let curve = offset_sq.checked_mul(dig_p6)?.checked_add(
            offset.checked_mul(dig_p5)?.checked_mul(0x2_0000)?,
        )?;
        let offset_term = curve.checked_add(dig_p4 * 0x8_0000_0000)?;
        let base = 1048576 - (adc_p as i64);
        let numerator = base.checked_mul(0x8000_0000)?.checked_sub(offset_term)?.checked_mul(
            3125,
        )?;
        let p = numerator.checked_div(denominator)?;
        proof {
            lemma_shr_i64(p);
        }
        let root = p >> 13u32;
        let square_term = dig_p9.checked_mul(root.checked_mul(root)?)?;
        let linear_term = dig_p8.checked_mul(p)?;
        proof {
            lemma_shr_i64(square_term);
            lemma_shr_i64(linear_term);
        }
        let total = p.checked_add(square_term >> 25u32)?.checked_add(linear_term >> 19u32)?;
        proof {
            lemma_shr_i64(total);
        }
        (total >> 8u32).checked_add(dig_p7 * 16)
    }
}

// Humidity: five steps over 32-bit signed arithmetic, clamped at the end.

/// The upper bound of the humidity accumulator: 100 %RH in Q22.10, shifted
/// left by twelve bits.
pub const HUMIDITY_LIMIT: i32 = 419430400;

pub open spec fn hum_offset(t_fine: int) -> int {
    t_fine - 76800
}

pub open spec fn hum_raw_scaled(adc_h: int) -> int {
    adc_h * 16384
}

pub open spec fn hum_h4_scaled(c: Calibration) -> int {
    c.dig_h4 * 0x10_0000
}

pub open spec fn hum_h5_term(c: Calibration, t_fine: int) -> int {
    c.dig_h5 * hum_offset(t_fine)
}

pub open spec fn hum_diff(c: Calibration, adc_h: int) -> int {
    hum_raw_scaled(adc_h) - hum_h4_scaled(c)
}

pub open spec fn hum_diff2(c: Calibration, adc_h: int, t_fine: int) -> int {
    hum_diff(c, adc_h) - hum_h5_term(c, t_fine)
}

pub open spec fn hum_rounded(c: Calibration, adc_h: int, t_fine: int) -> int {
    hum_diff2(c, adc_h, t_fine) + 16384
}

pub open spec fn hum_var2(c: Calibration, adc_h: int, t_fine: int) -> int {
    hum_rounded(c, adc_h, t_fine) / 32768
}

pub open spec fn hum_h6_term(c: Calibration, t_fine: int) -> int {
    hum_offset(t_fine) * c.dig_h6
}

pub open spec fn hum_h3_term(c: Calibration, t_fine: int) -> int {
    hum_offset(t_fine) * c.dig_h3
}

pub open spec fn hum_var3_product(c: Calibration, t_fine: int) -> int {
    hum_h6_term(c, t_fine) / 1024 * (hum_h3_term(c, t_fine) / 2048 + 32768)
}

pub open spec fn hum_var3(c: Calibration, t_fine: int) -> int {
    hum_var3_product(c, t_fine) / 1024
}

pub open spec fn hum_var3_biased(c: Calibration, t_fine: int) -> int {
    hum_var3(c, t_fine) + 2097152
}

pub open spec fn hum_h2_term(c: Calibration, t_fine: int) -> int {
    hum_var3_biased(c, t_fine) * c.dig_h2
}

pub open spec fn hum_var4(c: Calibration, t_fine: int) -> int {
    (hum_h2_term(c, t_fine) + 8192) / 16384
}

pub open spec fn hum_var5(c: Calibration, adc_h: int, t_fine: int) -> int {
    hum_var2(c, adc_h, t_fine) * hum_var4(c, t_fine)
}

pub open spec fn hum_var5_square(c: Calibration, adc_h: int, t_fine: int) -> int {
    (hum_var5(c, adc_h, t_fine) / 32768) * (hum_var5(c, adc_h, t_fine) / 32768)
}

pub open spec fn hum_h1_term(c: Calibration, adc_h: int, t_fine: int) -> int {
    hum_var5_square(c, adc_h, t_fine) / 128 * c.dig_h1
}

/// The humidity accumulator before clamping, Q22.10 shifted left by twelve.
pub open spec fn hum_accumulator(c: Calibration, adc_h: int, t_fine: int) -> int {
    hum_var5(c, adc_h, t_fine) - hum_h1_term(c, adc_h, t_fine) / 16
}

/// The accumulator clamped to [0, HUMIDITY_LIMIT].
pub open spec fn hum_clamped(c: Calibration, adc_h: int, t_fine: int) -> int {
    let acc = hum_accumulator(c, adc_h, t_fine);
    if acc < 0 {
        0
    } else if acc > HUMIDITY_LIMIT {
        HUMIDITY_LIMIT as int
    } else {
        acc
    }
}

/// 100 %RH in Q22.10 fixed point.
pub const HUMIDITY_FULL_SCALE: u32 = 102400;

/// Relative humidity in percent as a Q22.10 fixed-point value (divide by
/// 1024 for %RH).
pub open spec fn humidity_q22_10(c: Calibration, adc_h: int, t_fine: int) -> int {
    hum_clamped(c, adc_h, t_fine) / 4096
}

/// Every step of the humidity formula fits in 32 bits.
pub open spec fn humidity_fits(c: Calibration, adc_h: int, t_fine: int) -> bool {
    &&& fits_i32(hum_offset(t_fine))
    &&& fits_i32(hum_raw_scaled(adc_h))
    &&& fits_i32(hum_h4_scaled(c))
    &&& fits_i32(hum_h5_term(c, t_fine))
    &&& fits_i32(hum_diff(c, adc_h))
    &&& fits_i32(hum_diff2(c, adc_h, t_fine))
    &&& fits_i32(hum_rounded(c, adc_h, t_fine))
    &&& fits_i32(hum_h6_term(c, t_fine))
    &&& fits_i32(hum_h3_term(c, t_fine))
    &&& fits_i32(hum_var3_product(c, t_fine))
    &&& fits_i32(hum_var3_biased(c, t_fine))
    &&& fits_i32(hum_h2_term(c, t_fine))
    &&& fits_i32(hum_h2_term(c, t_fine) + 8192)
    &&& fits_i32(hum_var5(c, adc_h, t_fine))
    &&& fits_i32(hum_var5_square(c, adc_h, t_fine))
    &&& fits_i32(hum_h1_term(c, adc_h, t_fine))
    &&& fits_i32(hum_accumulator(c, adc_h, t_fine))
}

/// Compensated relative humidity in Q22.10 percent, or `None` where a
/// 32-bit step of the formula would overflow.
pub open spec fn humidity_of(c: Calibration, adc_h: int, t_fine: int) -> Option<u32> {
    if humidity_fits(c, adc_h, t_fine) {
        Some(humidity_q22_10(c, adc_h, t_fine) as u32)
    } else {
        None
    }
}

impl Calibration {
    /// Compensate a raw humidity code with the fine temperature of the same
    /// sample.
    ///
    /// Returns the relative humidity in percent as a Q22.10 fixed-point
    /// value (divide by 1024), within [0, 100] %RH; `None` where the 32-bit
    /// arithmetic of the formula would overflow.
    pub fn compensate_humidity(&self, adc_h: i32, t_fine: i64) -> (r: Option<u32>)
        ensures
            r == humidity_of(*self, adc_h as int, t_fine as int),
            r matches Some(h) ==> h <= HUMIDITY_FULL_SCALE,
    {
        let dig_h1 = self.dig_h1 as i32;
        let dig_h2 = self.dig_h2 as i32;
        let dig_h3 = self.dig_h3 as i32;
        let dig_h4 = self.dig_h4 as i32;
        let dig_h5 = self.dig_h5 as i32;
        let dig_h6 = self.dig_h6 as i32;

        let offset = t_fine.checked_sub(76800)?;
        if offset < i32::MIN as i64 || offset > i32::MAX as i64 {
            return None;
        }
        let var1 = offset as i32;

        let rounded = adc_h.checked_mul(16384)?.checked_sub(dig_h4.checked_mul(0x10_0000)?)?.checked_sub(
            dig_h5.checked_mul(var1)?,
        )?.checked_add(16384)?;
        let h6_term = var1.checked_mul(dig_h6)?;
        let h3_term = var1.checked_mul(dig_h3)?;
        proof {
            lemma_shr_i32(rounded);
            lemma_shr_i32(h6_term);
            lemma_shr_i32(h3_term);
        }
        let var2 = rounded >> 15u32;
        let var3_product = (h6_term >> 10u32).checked_mul((h3_term >> 11u32) + 32768)?;
        proof {
            lemma_shr_i32(var3_product);
        }
        let var3 = var3_product >> 10u32;
        let h2_term = var3.checked_add(2097152)?.checked_mul(dig_h2)?.checked_add(8192)?;
        proof {
            lemma_shr_i32(h2_term);
        }
        let var4 = h2_term >> 14u32;
        let var5 = var2.checked_mul(var4)?;
        proof {
            lemma_shr_i32(var5);
        }
        let square = (var5 >> 15u32).checked_mul(var5 >> 15u32)?;
        proof {
            lemma_shr_i32(square);
        }
        let h1_term = (square >> 7u32).checked_mul(dig_h1)?;
        proof {
            lemma_shr_i32(h1_term);
        }
        let mut acc = var5.checked_sub(h1_term >> 4u32)?;

        acc = if acc < 0 { 0 } else { acc };
        acc = if acc > HUMIDITY_LIMIT { HUMIDITY_LIMIT } else { acc };
        proof {
            lemma_shr_i32(acc);
        }
        Some((acc >> 12u32) as u32)
    }
}

// Raw sample decoding.

/// A 20-bit converter code from its MSB, LSB and XLSB registers; the XLSB
/// holds the four lowest bits in its upper nibble.
pub open spec fn code20(msb: u8, lsb: u8, xlsb: u8) -> int {
    msb as int * 4096 + lsb as int * 16 + xlsb as int / 16
}

fn pack20(msb: u8, lsb: u8, xlsb: u8) -> (r: i32)
    ensures
        r == code20(msb, lsb, xlsb),
{
    let m = msb as i32;
    let l = lsb as i32;
    let x = xlsb as i32;
    let r = (m << 12u32) | (l << 4u32) | (x >> 4u32);
    assert(r == m * 4096 + l * 16 + x / 16) by (bit_vector)
        requires
            r == (m << 12u32) | (l << 4u32) | (x >> 4u32),
            0 <= m < 256,
            0 <= l < 256,
            0 <= x < 256,
    ;
    r
}

/// The raw pressure, temperature and humidity codes of a burst read of
/// registers 0xF7..0xFE.
pub open spec fn raw_codes_of(burst: Seq<u8>) -> (int, int, int) {
    (
        code20(burst[0], burst[1], burst[2]),
        code20(burst[3], burst[4], burst[5]),
        burst[6] as int * 256 + burst[7] as int,
    )
}

/// Split a burst read of registers 0xF7..0xFE into the raw pressure,
/// temperature and humidity codes.
pub fn decode_raw(burst: &[u8; 8]) -> (r: (i32, i32, i32))
    ensures
        (r.0 as int, r.1 as int, r.2 as int) == raw_codes_of(burst@),
        0 <= r.0 < 0x10_0000,
        0 <= r.1 < 0x10_0000,
        0 <= r.2 < 0x1_0000,
{
    let press_raw = pack20(burst[0], burst[1], burst[2]);
    let temp_raw = pack20(burst[3], burst[4], burst[5]);
    let msb = burst[6] as i32;
    let lsb = burst[7] as i32;
    let hum_raw = (msb << 8u32) | lsb;
    assert(hum_raw == msb * 256 + lsb) by (bit_vector)
        requires
            hum_raw == (msb << 8u32) | lsb,
            0 <= msb < 256,
            0 <= lsb < 256,
    ;
    (press_raw, temp_raw, hum_raw)
}

/// One compensated sample.
#[derive(Clone, Copy, Debug, PartialEq, Eq, Structural)]
pub struct Measurement {
    /// Temperature in 0.01 degC.
    pub centi_celsius: i32,
    /// Pressure in pascals, Q24.8 fixed point.
    pub pressure_q24_8: i64,
    /// Relative humidity in percent, Q22.10 fixed point, within [0, 100] %RH.
    pub humidity_q22_10: u32,
}

/// The compensated sample of a burst read: temperature first, its fine
/// temperature feeding pressure and humidity. `None` where one of the three
/// formulas would overflow its machine width.
pub open spec fn measurement_of(c: Calibration, burst: Seq<u8>) -> Option<Measurement> {
    let (adc_p, adc_t, adc_h) = raw_codes_of(burst);
    match temperature_of(c, adc_t) {
        None => None,
        Some((t, t_fine)) => match (pressure_of(c, adc_p, t_fine as int), humidity_of(c, adc_h, t_fine as int)) {
            (Some(p), Some(h)) => Some(Measurement { centi_celsius: t, pressure_q24_8: p, humidity_q22_10: h }),
            _ => None,
        },
    }
}

impl Calibration {
    /// Compensate a burst read of registers 0xF7..0xFE.
    pub fn compensate(&self, burst: &[u8; 8]) -> (r: Option<Measurement>)
        ensures
            r == measurement_of(*self, burst@),
            r matches Some(m) ==> m.humidity_q22_10 <= HUMIDITY_FULL_SCALE,
    {
        let (adc_p, adc_t, adc_h) = decode_raw(burst);
        let (temperature, t_fine) = self.compensate_temperature(adc_t)?;
        let pressure = self.compensate_pressure(adc_p, t_fine)?;
        let humidity = self.compensate_humidity(adc_h, t_fine)?;
        Some(Measurement { centi_celsius: temperature, pressure_q24_8: pressure, humidity_q22_10: humidity })
    }
}

// Laws.

/// A zero divisor gives a pressure of exactly zero, whatever the raw code.
pub proof fn lemma_zero_denominator_gives_zero(c: Calibration, adc_p: int, t_fine: int)
    requires
        denominator_fits(c, t_fine),
        pressure_denominator(c, t_fine) == 0,
    ensures
        pressure_of(c, adc_p, t_fine) == Some(0i64),
{
}

/// Compensated humidity lies within [0, 100] percent (0..=102400 in Q22.10)
/// for every raw code and calibration on which the formula stays within 32
/// bits.
pub proof fn lemma_humidity_within_bounds(c: Calibration, adc_h: int, t_fine: int)
    requires
        0 <= adc_h <= 65535,
    ensures
        humidity_of(c, adc_h, t_fine) matches Some(h) ==> h <= HUMIDITY_FULL_SCALE,
        0 <= humidity_q22_10(c, adc_h, t_fine) <= HUMIDITY_FULL_SCALE,
{
}

} // verus!
