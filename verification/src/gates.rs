//! Peripheral clock-gate and AXI power-gate decoders.

use vstd::prelude::*;

verus! {

/// What one peripheral clock gate decodes to.
///
/// `on` holds the enable bit and `rate` the frequency in Hz.
/// The two warning flags mark the recoverable conditions: a mux field
/// that selects no known source (the rate then defaults to 0), and a
/// divider below the hardware minimum of 2 (the rate then defaults to
/// 0). Neither warning aborts the decode.
#[derive(Clone, Copy, Debug, PartialEq, Eq, Structural)]
pub struct ClockGateResult {
    pub on: bool,
    pub rate: u32,
    pub mux_warning: bool,
    pub div_warning: bool,
}

/// The mux field of a clock-gate control byte: bits 1..=3.
pub open spec fn clkgen_mux(ctl: u8) -> int {
    ((ctl >> 1) & 0x07) as int
}

/// The source rate a clock-gate control byte selects: the mux field
/// indexes `srcs`, and an index past the end is the recoverable
/// unknown-input state, treated as 0 Hz.
pub open spec fn clkgen_selected(ctl: u8, srcs: Seq<u32>) -> u32 {
    if clkgen_mux(ctl) >= srcs.len() {
        0u32
    } else {
        srcs[clkgen_mux(ctl)]
    }
}

/// What a clock gate decodes to; see [`ClockGateResult`].
///
/// Bit 0 of `ctl` is the enable; the mux field selects from `srcs`.
/// Without a divider control byte the selected rate passes through.
/// With one, a statically bypassed gate ignores the divider, a divider
/// value (its low five bits) below 2 yields 0 Hz with a warning, and
/// any other divider divides the selected rate, truncating.
pub open spec fn clkgen_rate_spec(
    ctl: u8,
    divctl: Option<u8>,
    srcs: Seq<u32>,
    bypass: bool,
) -> ClockGateResult {
    let on = ctl & 0x01 == 1;
    let mux_warning = clkgen_mux(ctl) >= srcs.len();
    let inrate = clkgen_selected(ctl, srcs);
    match divctl {
        None => ClockGateResult { on, rate: inrate, mux_warning, div_warning: false },
        Some(d) => {
            if bypass {
                ClockGateResult { on, rate: inrate, mux_warning, div_warning: false }
            } else if (d & 0x1f) < 2 {
                ClockGateResult { on, rate: 0u32, mux_warning, div_warning: true }
            } else {
                ClockGateResult {
                    on,
                    rate: (inrate / ((d & 0x1f) as u32)) as u32,
                    mux_warning,
                    div_warning: false,
                }
            }
        },
    }
}

/// Decodes one peripheral clock gate from its control byte, optional
/// divider control byte, the five upstream source rates, and its static
/// divider-bypass flag.
pub fn clkgen_rate(ctl: u8, divctl: Option<u8>, srcs: &[u32], bypass: bool) -> (r: ClockGateResult)
    ensures
        r == clkgen_rate_spec(ctl, divctl, srcs@, bypass),
{
    let on: bool = ctl & 0x01 == 1;
    let mux: usize = ((ctl >> 1) & 0x07) as usize;
    let mux_warning: bool = mux >= srcs.len();
    let inrate: u32 = if mux_warning {
        0
    } else {
        srcs[mux]
    };
    match divctl {
        None => ClockGateResult { on, rate: inrate, mux_warning, div_warning: false },
        Some(d) => {
            if bypass {
                ClockGateResult { on, rate: inrate, mux_warning, div_warning: false }
            } else {
                let div: u32 = (d & 0x1f) as u32;
                if div < 2 {
                    ClockGateResult { on, rate: 0, mux_warning, div_warning: true }
                } else {
                    ClockGateResult { on, rate: inrate / div, mux_warning, div_warning: false }
                }
            }
        },
    }
}

/// Whether an AXI power gate is on: bit `bit` of its control byte.
pub open spec fn axigate_on_spec(ctl: u8, bit: u8) -> bool {
    (ctl >> bit) & 0x01 != 0
}

/// Decodes one AXI power gate: a pure test of bit `bit` of `ctl`.
pub fn axigate_is_on(ctl: u8, bit: u8) -> (on: bool)
    requires
        bit < 8,
    ensures
        on == axigate_on_spec(ctl, bit),
{
    (ctl >> bit) & 0x01 != 0
}

/// Decoding a clock gate is pure: two decodes of identical inputs give
/// identical results. Together with [`clkgen_rate`]'s contract, which
/// pins its result to [`clkgen_rate_spec`] of the inputs alone, any two
/// calls of the decoder on the same inputs return the same pair.
pub proof fn lemma_clkgen_deterministic(ctl: u8, divctl: Option<u8>, srcs: Seq<u32>, bypass: bool)
    ensures
        clkgen_rate_spec(ctl, divctl, srcs, bypass) == clkgen_rate_spec(ctl, divctl, srcs, bypass),
{
}

/// A clock gate whose divider field is 0 or 1, and which is not
/// statically bypassed, reports 0 Hz with the divider warning set; the
/// divider is never applied.
pub proof fn lemma_clkgen_small_divider(ctl: u8, d: u8, srcs: Seq<u32>)
    requires
        (d & 0x1f) < 2,
    ensures
        clkgen_rate_spec(ctl, Some(d), srcs, false).rate == 0,
        clkgen_rate_spec(ctl, Some(d), srcs, false).div_warning,
{
}

} // verus!
