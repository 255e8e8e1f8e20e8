//! PLL frequency decoders.
//!
//! A PLL's configuration lives in a fixed-size byte region of the dump:
//! 0x20 bytes for the simple kind, 0x30 bytes for the dithering kind.
//! Both kinds share the multiplier/divider/shift fields and a control
//! byte whose bit 0 holds `reset` and whose bit 4 holds `bypass`; the
//! dithering kind adds a 12-bit fractional multiplier component.

use vstd::prelude::*;

use crate::errors::DecodeError;

verus! {

/// An integer field split across a byte boundary: `lo` holds the low
/// eight bits and the bits of `hi` selected by `mask` sit above them.
pub open spec fn two_byte_field(lo: u8, hi: u8, mask: u8) -> int {
    lo + (hi & mask) * 0x100
}

/// Reads a field split across a byte boundary; see [`two_byte_field`].
pub fn read_two_byte_field(lo: u8, hi: u8, mask: u8) -> (r: u16)
    ensures
        r == two_byte_field(lo, hi, mask),
{
    lo as u16 + ((hi & mask) as u16) * 0x100
}

/// The multiplier field `m` of a PLL region: the low byte at offset 0
/// plus high bits (under `mask`) from the byte at offset 4.
pub open spec fn pll_m(region: Seq<u8>, mask: u8) -> int {
    two_byte_field(region[0], region[4], mask)
}

/// The divider field `p` of a PLL region: the low six bits of the byte
/// at offset 8.
pub open spec fn pll_p(region: Seq<u8>) -> int {
    (region[8] & 0x3f) as int
}

/// The shift field `s` of a PLL region: the low three bits of the byte
/// at offset 0xc.
pub open spec fn pll_s(region: Seq<u8>) -> u64 {
    (region[0x0c] & 0x07) as u64
}

/// The denominator `p * 2^s` that both PLL kinds divide by.
pub open spec fn pll_denominator(region: Seq<u8>) -> int {
    pll_p(region) * ((1u64 << pll_s(region)) as int)
}

/// The control byte of a PLL region, at offset 0x10.
pub open spec fn pll_ctl(region: Seq<u8>) -> u8 {
    region[0x10]
}

/// True when the PLL's bypass bit (control bit 4) is set.
pub open spec fn pll_bypassed(region: Seq<u8>) -> bool {
    pll_ctl(region) & 0x10 != 0
}

/// True when the PLL's reset bit (control bit 0) is set.
pub open spec fn pll_in_reset(region: Seq<u8>) -> bool {
    pll_ctl(region) & 0x01 != 0
}

/// The rate of a simple PLL, decoded from its 0x20-byte region.
///
/// Bypass wins over reset and returns the input rate; reset returns 0.
/// Otherwise the rate is `floor(inrate * m / (p * 2^s))`, which must fit
/// in 32 bits, then the optional second-stage output divider (low five
/// bits of the byte at offset 0x1c, bypassed by that byte's bit 7) is
/// applied. A zero divider (`p` or the output divider) is reported as
/// `InvalidDivider` rather than divided by.
pub open spec fn simple_pll_rate_spec(region: Seq<u8>, inrate: u32, has_outdiv: bool) -> Result<
    u32,
    DecodeError,
> {
    if region.len() != 0x20 {
        Err(DecodeError::ShapeError)
    } else if pll_bypassed(region) {
        Ok(inrate)
    } else if pll_in_reset(region) {
        Ok(0u32)
    } else if pll_p(region) == 0 {
        Err(DecodeError::InvalidDivider)
    } else {
        let base = (inrate * pll_m(region, 0x03)) / pll_denominator(region);
        if base > u32::MAX {
            Err(DecodeError::ArithmeticOverflow)
        } else if has_outdiv {
            let od_byte = region[0x1c];
            if od_byte & 0x80 != 0 {
                Ok(base as u32)
            } else if od_byte & 0x1f == 0 {
                Err(DecodeError::InvalidDivider)
            } else {
                Ok((base / ((od_byte & 0x1f) as int)) as u32)
            }
        } else {
            Ok(base as u32)
        }
    }
}

/// Decodes a simple PLL's output rate from its 0x20-byte register region.
pub fn pll_simple_rate(buf: &[u8], inrate: u32, has_outdiv: bool) -> (r: Result<u32, DecodeError>)
    ensures
        r == simple_pll_rate_spec(buf@, inrate, has_outdiv),
{
    if buf.len() != 0x20 {
        return Err(DecodeError::ShapeError);
    }
    let ctl: u8 = buf[0x10];
    if ctl & 0x10 != 0 {
        return Ok(inrate);
    }
    if ctl & 0x01 != 0 {
        return Ok(0);
    }
    let m: u64 = read_two_byte_field(buf[0], buf[4], 0x03) as u64;
    let pb: u8 = buf[8];
    let p: u64 = (pb & 0x3f) as u64;
    let sb: u8 = buf[0x0c];
    let s: u64 = (sb & 0x07) as u64;
    if p == 0 {
        return Err(DecodeError::InvalidDivider);
    }
    proof {
        assert(pb & 0x3f < 64) by (bit_vector);
        assert(sb & 0x07 < 8) by (bit_vector);
        assert(s < 8 ==> 1u64 << s >= 1 && 1u64 << s <= 128) by (bit_vector);
    }
    let pow: u64 = 1u64 << s;
    proof {
        assert(p >= 1 && p < 64 && pow >= 1 && pow <= 128 ==> 1 <= p * pow <= 8192)
            by (nonlinear_arith);
        assert(inrate as u64 <= 0xffff_ffff && m <= 0xffff ==> (inrate as u64) * m
            <= 0xffff_ffff * 0xffff) by (nonlinear_arith);
    }
    let denom: u64 = p * pow;
    let base: u64 = (inrate as u64) * m / denom;
    if base > 0xffff_ffffu64 {
        return Err(DecodeError::ArithmeticOverflow);
    }
    let rate: u32 = base as u32;
    if has_outdiv {
        let od_byte: u8 = buf[0x1c];
        if od_byte & 0x80 != 0 {
            Ok(rate)
        } else if od_byte & 0x1f == 0 {
            Err(DecodeError::InvalidDivider)
        } else {
            let outdiv: u32 = (od_byte & 0x1f) as u32;
            Ok(rate / outdiv)
        }
    } else {
        Ok(rate)
    }
}

/// The numerator of a dithering PLL before the final 1024 scaling:
/// `inrate * (m * 1024 + k)`, with `m` the 9-bit multiplier and `k` the
/// 12-bit fractional component read from offsets 0x20 and 0x24.
pub open spec fn dither_numerator(region: Seq<u8>, inrate: u32) -> int {
    inrate * (pll_m(region, 0x01) * 1024 + two_byte_field(region[0x20], region[0x24], 0x0f))
}

/// The rate of a dithering PLL, decoded from its 0x30-byte region.
///
/// Same bypass/reset priority as the simple kind. Otherwise the rate is
/// `(inrate * (m*1024 + k)) / (p * 2^s)` scaled back down by 1024 with
/// rounding to the nearest Hz: half the scale (512) is added before the
/// truncating division, so exact halves round up.
pub open spec fn dither_pll_rate_spec(region: Seq<u8>, inrate: u32) -> Result<u32, DecodeError> {
    if region.len() != 0x30 {
        Err(DecodeError::ShapeError)
    } else if pll_bypassed(region) {
        Ok(inrate)
    } else if pll_in_reset(region) {
        Ok(0u32)
    } else if pll_p(region) == 0 {
        Err(DecodeError::InvalidDivider)
    } else {
        let rate = (dither_numerator(region, inrate) / pll_denominator(region) + 512) / 1024;
        if rate > u32::MAX {
            Err(DecodeError::ArithmeticOverflow)
        } else {
            Ok(rate as u32)
        }
    }
}

/// Decodes a dithering PLL's output rate from its 0x30-byte register
/// region.
pub fn pll_dither_rate(buf: &[u8], inrate: u32) -> (r: Result<u32, DecodeError>)
    ensures
        r == dither_pll_rate_spec(buf@, inrate),
{
    if buf.len() != 0x30 {
        return Err(DecodeError::ShapeError);
    }
    let ctl: u8 = buf[0x10];
    if ctl & 0x10 != 0 {
        return Ok(inrate);
    }
    if ctl & 0x01 != 0 {
        return Ok(0);
    }
    let m: u64 = read_two_byte_field(buf[0], buf[4], 0x01) as u64;
    let pb: u8 = buf[8];
    let p: u64 = (pb & 0x3f) as u64;
    let sb: u8 = buf[0x0c];
    let s: u64 = (sb & 0x07) as u64;
    let k: u64 = read_two_byte_field(buf[0x20], buf[0x24], 0x0f) as u64;
    if p == 0 {
        return Err(DecodeError::InvalidDivider);
    }
    proof {
        assert(pb & 0x3f < 64) by (bit_vector);
        assert(sb & 0x07 < 8) by (bit_vector);
        assert(s < 8 ==> 1u64 << s >= 1 && 1u64 << s <= 128) by (bit_vector);
    }
    let pow: u64 = 1u64 << s;
    proof {
        assert(p >= 1 && p < 64 && pow >= 1 && pow <= 128 ==> 1 <= p * pow <= 8192)
            by (nonlinear_arith);
        assert(inrate as u64 <= 0xffff_ffff && m <= 0xffff && k <= 0xffff ==> (inrate as u64) * (m
            * 1024 + k) <= 0xffff_ffff * (0xffff * 1024 + 0xffff)) by (nonlinear_arith);
    }
    let denom: u64 = p * pow;
    let num: u64 = (inrate as u64) * (m * 1024 + k);
    let rate64: u64 = (num / denom + 512) / 1024;
    if rate64 > 0xffff_ffffu64 {
        return Err(DecodeError::ArithmeticOverflow);
    }
    Ok(rate64 as u32)
}

/// A bypassed simple PLL passes its input rate through unchanged, no
/// matter what the remaining fields of the region hold.
pub proof fn lemma_simple_pll_bypass(region: Seq<u8>, inrate: u32, has_outdiv: bool)
    requires
        region.len() == 0x20,
        pll_bypassed(region),
    ensures
        simple_pll_rate_spec(region, inrate, has_outdiv) == Ok::<u32, DecodeError>(inrate),
{
}

/// A simple PLL held in reset, and not bypassed, generates exactly 0 Hz,
/// no matter what the remaining fields of the region hold.
pub proof fn lemma_simple_pll_reset(region: Seq<u8>, inrate: u32, has_outdiv: bool)
    requires
        region.len() == 0x20,
        !pll_bypassed(region),
        pll_in_reset(region),
    ensures
        simple_pll_rate_spec(region, inrate, has_outdiv) == Ok::<u32, DecodeError>(0u32),
{
}

/// Dithering-PLL rounding is round-half-up: when the scaled quotient
/// lands exactly on a half (its remainder modulo 1024 is 512), the
/// decoded rate is one more than the truncated quotient.
pub proof fn lemma_dither_rounds_half_up(region: Seq<u8>, inrate: u32)
    requires
        region.len() == 0x30,
        !pll_bypassed(region),
        !pll_in_reset(region),
        pll_p(region) != 0,
        dither_numerator(region, inrate) / pll_denominator(region) % 1024 == 512,
        dither_numerator(region, inrate) / pll_denominator(region) / 1024 + 1 <= u32::MAX,
    ensures
        dither_pll_rate_spec(region, inrate) == Ok::<u32, DecodeError>(
            (dither_numerator(region, inrate) / pll_denominator(region) / 1024 + 1) as u32,
        ),
{
    let q = dither_numerator(region, inrate) / pll_denominator(region);
    vstd::arithmetic::div_mod::lemma_fundamental_div_mod(q, 1024);
    assert(q + 512 == 1024 * (q / 1024 + 1));
    vstd::arithmetic::div_mod::lemma_div_multiples_vanish(q / 1024 + 1, 1024);
}

} // verus!
