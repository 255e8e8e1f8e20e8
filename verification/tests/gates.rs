use clkreset::gates::axigate_is_on;
use clkreset::gates::clkgen_rate;

const SOURCES: [u32; 5] = [100_000_000, 200_000_000, 300_000_000, 400_000_000, 24_000_000];

#[test]
fn clkgen_is_pure() {
    // Two decodes of identical inputs give identical results.
    let first = clkgen_rate(0x05, Some(0x04), &SOURCES, false);
    let second = clkgen_rate(0x05, Some(0x04), &SOURCES, false);
    assert_eq!(first, second);
}

#[test]
fn clkgen_divides_selected_source() {
    // ctl 0x05: on (bit 0), mux 2; divider 4: 300 MHz / 4 = 75 MHz.
    let r = clkgen_rate(0x05, Some(0x04), &SOURCES, false);
    assert!(r.on);
    assert_eq!(r.rate, 75_000_000);
    assert!(!r.mux_warning);
    assert!(!r.div_warning);
}

#[test]
fn clkgen_no_divider_byte_passes_through() {
    // mux 4 selects the crystal entry; no divider control byte.
    let r = clkgen_rate(0x08, None, &SOURCES, false);
    assert!(!r.on);
    assert_eq!(r.rate, 24_000_000);
    assert!(!r.div_warning);
}

#[test]
fn clkgen_divider_zero_yields_zero_with_warning() {
    let r = clkgen_rate(0x01, Some(0x00), &SOURCES, false);
    assert!(r.on);
    assert_eq!(r.rate, 0);
    assert!(r.div_warning);
}

#[test]
fn clkgen_divider_one_yields_zero_with_warning() {
    let r = clkgen_rate(0x01, Some(0x01), &SOURCES, false);
    assert_eq!(r.rate, 0);
    assert!(r.div_warning);
}

#[test]
fn clkgen_divider_uses_low_five_bits() {
    // 0xe2 masks down to divider 2: 100 MHz / 2.
    let r = clkgen_rate(0x01, Some(0xe2), &SOURCES, false);
    assert_eq!(r.rate, 50_000_000);
    assert!(!r.div_warning);
}

#[test]
fn clkgen_static_bypass_ignores_divider() {
    // Statically bypassed gates keep the selected rate even with a
    // divider field of 0.
    let r = clkgen_rate(0x03, Some(0x00), &SOURCES, true);
    assert!(r.on);
    assert_eq!(r.rate, 200_000_000);
    assert!(!r.div_warning);
}

#[test]
fn clkgen_mux_out_of_range_yields_zero_with_warning() {
    // mux values 5..=7 select no known source.
    for mux in 5u8..8 {
        let r = clkgen_rate(mux << 1, Some(0x04), &SOURCES, false);
        assert_eq!(r.rate, 0);
        assert!(r.mux_warning);
    }
}

#[test]
fn axigate_single_bit() {
    assert!(axigate_is_on(0x10, 4));
    assert!(!axigate_is_on(0x10, 3));
}

#[test]
fn axigate_bit_independence() {
    for bit in 0u8..8 {
        assert_eq!(axigate_is_on(0x10, bit), bit == 4);
        assert!(!axigate_is_on(0x00, bit));
        assert!(axigate_is_on(0xff, bit));
        assert_eq!(axigate_is_on(0xaa, bit), bit % 2 == 1);
        assert_eq!(axigate_is_on(0x55, bit), bit % 2 == 0);
    }
}
