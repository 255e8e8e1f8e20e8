use clkreset::errors::DecodeError;
use clkreset::pll::pll_dither_rate;
use clkreset::pll::pll_simple_rate;

/// A simple-PLL region with the given fields. `m` must fit 9 bits, `p`
/// 6 bits, `s` 3 bits.
fn simple_region(m: u16, p: u8, s: u8, ctl: u8, outdiv_byte: u8) -> [u8; 0x20] {
    let mut region = [0u8; 0x20];
    region[0] = (m & 0xff) as u8;
    region[4] = (m >> 8) as u8;
    region[8] = p;
    region[0x0c] = s;
    region[0x10] = ctl;
    region[0x1c] = outdiv_byte;
    region
}

/// A dithering-PLL region with the given fields. `m` must fit 9 bits,
/// `k` 12 bits.
fn dither_region(m: u16, p: u8, s: u8, k: u16, ctl: u8) -> [u8; 0x30] {
    let mut region = [0u8; 0x30];
    region[0] = (m & 0xff) as u8;
    region[4] = (m >> 8) as u8;
    region[8] = p;
    region[0x0c] = s;
    region[0x10] = ctl;
    region[0x20] = (k & 0xff) as u8;
    region[0x24] = (k >> 8) as u8;
    region
}

#[test]
fn simple_bypass_returns_input() {
    // Bypass bit set: the input rate passes through whatever the other
    // fields hold, even a zero divider.
    let region = simple_region(256, 0, 7, 0x10, 0);
    assert_eq!(pll_simple_rate(&region, 24_000_000, true), Ok(24_000_000));
    // Bypass wins even when reset is set too.
    let region = simple_region(3, 1, 0, 0x11, 0);
    assert_eq!(pll_simple_rate(&region, 48_000_000, false), Ok(48_000_000));
}

#[test]
fn simple_reset_returns_zero() {
    let region = simple_region(256, 1, 0, 0x01, 0);
    assert_eq!(pll_simple_rate(&region, 24_000_000, false), Ok(0));
}

#[test]
fn simple_exact_rate() {
    // 24 MHz * 100 / (1 * 2^0) = 2.4 GHz, still within 32 bits.
    let region = simple_region(100, 1, 0, 0, 0);
    assert_eq!(pll_simple_rate(&region, 24_000_000, false), Ok(2_400_000_000));
    // 24 MHz * 300 / (3 * 2^2) = 600 MHz.
    let region = simple_region(300, 3, 2, 0, 0);
    assert_eq!(pll_simple_rate(&region, 24_000_000, false), Ok(600_000_000));
}

#[test]
fn simple_overflow_is_reported() {
    // 24 MHz * 256 = 6,144,000,000 Hz does not fit in 32 bits.
    let region = simple_region(256, 1, 0, 0, 0);
    assert_eq!(
        pll_simple_rate(&region, 24_000_000, false),
        Err(DecodeError::ArithmeticOverflow)
    );
}

#[test]
fn simple_wrong_region_length() {
    let short = [0u8; 0x1f];
    assert_eq!(
        pll_simple_rate(&short, 24_000_000, false),
        Err(DecodeError::ShapeError)
    );
    let long = [0u8; 0x30];
    assert_eq!(
        pll_simple_rate(&long, 24_000_000, false),
        Err(DecodeError::ShapeError)
    );
}

#[test]
fn simple_zero_main_divider() {
    let region = simple_region(100, 0, 0, 0, 0);
    assert_eq!(
        pll_simple_rate(&region, 24_000_000, false),
        Err(DecodeError::InvalidDivider)
    );
}

#[test]
fn simple_output_divider_divides() {
    // Main stage gives 2.4 GHz; output divider 3 truncates to 800 MHz.
    let region = simple_region(100, 1, 0, 0, 3);
    assert_eq!(pll_simple_rate(&region, 24_000_000, true), Ok(800_000_000));
    // Without the output-divider stage the same region gives 2.4 GHz.
    assert_eq!(pll_simple_rate(&region, 24_000_000, false), Ok(2_400_000_000));
}

#[test]
fn simple_output_divider_bypassed() {
    // Bit 7 of the output-divider byte bypasses it, even with value 0.
    let region = simple_region(100, 1, 0, 0, 0x80);
    assert_eq!(pll_simple_rate(&region, 24_000_000, true), Ok(2_400_000_000));
}

#[test]
fn simple_zero_output_divider() {
    let region = simple_region(100, 1, 0, 0, 0);
    assert_eq!(
        pll_simple_rate(&region, 24_000_000, true),
        Err(DecodeError::InvalidDivider)
    );
}

#[test]
fn dither_bypass_and_reset() {
    let region = dither_region(256, 0, 0, 4095, 0x10);
    assert_eq!(pll_dither_rate(&region, 24_000_000), Ok(24_000_000));
    let region = dither_region(256, 1, 0, 0, 0x11);
    assert_eq!(pll_dither_rate(&region, 24_000_000), Ok(24_000_000));
    let region = dither_region(256, 1, 0, 0, 0x01);
    assert_eq!(pll_dither_rate(&region, 24_000_000), Ok(0));
}

#[test]
fn dither_exact_rate() {
    // 24 MHz * (100*1024 + 0) / 1 / 1024 = 2.4 GHz, no fraction.
    let region = dither_region(100, 1, 0, 0, 0);
    assert_eq!(pll_dither_rate(&region, 24_000_000), Ok(2_400_000_000));
}

#[test]
fn dither_rounds_half_up() {
    // m = 0, k = 512, p = 1, s = 0, input 1 Hz: the scaled quotient is
    // 512, exactly half of 1024, so the rate rounds up to 1 Hz ...
    let region = dither_region(0, 1, 0, 512, 0);
    assert_eq!(pll_dither_rate(&region, 1), Ok(1));
    // ... while one below the half, k = 511, truncates to 0 Hz.
    let region = dither_region(0, 1, 0, 511, 0);
    assert_eq!(pll_dither_rate(&region, 1), Ok(0));
}

#[test]
fn dither_wrong_region_length() {
    let short = [0u8; 0x2f];
    assert_eq!(
        pll_dither_rate(&short, 24_000_000),
        Err(DecodeError::ShapeError)
    );
    let long = [0u8; 0x20];
    assert_eq!(
        pll_dither_rate(&long, 24_000_000),
        Err(DecodeError::ShapeError)
    );
}

#[test]
fn dither_zero_main_divider() {
    let region = dither_region(100, 0, 0, 0, 0);
    assert_eq!(
        pll_dither_rate(&region, 24_000_000),
        Err(DecodeError::InvalidDivider)
    );
}

#[test]
fn dither_overflow_is_reported() {
    // 24 MHz * (256*1024 + 0) / 1 / 1024 = 6,144,000,000 Hz.
    let region = dither_region(256, 1, 0, 0, 0);
    assert_eq!(
        pll_dither_rate(&region, 24_000_000),
        Err(DecodeError::ArithmeticOverflow)
    );
}
