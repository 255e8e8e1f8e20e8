//! The full decode pipeline over one register dump.
//!
//! One deterministic pass: check the dump's shape, check the global
//! PLL-bypass bit, decode the four PLLs, select each PLL output slot,
//! then decode every peripheral clock gate and every AXI power gate.

use vstd::prelude::*;

use crate::errors::DecodeError;
use crate::gates::ClockGateResult;
use crate::gates::axigate_is_on;
use crate::gates::axigate_on_spec;
use crate::gates::clkgen_rate;
use crate::gates::clkgen_rate_spec;
use crate::layout::AXI_GATE_COUNT;
use crate::layout::CLOCK_GATE_COUNT;
use crate::layout::DUMP_LEN;
use crate::layout::GLOBAL_CTL_OFFSET;
use crate::layout::PLL_COUNT;
use crate::layout::PLL_MASK_OFFSET;
use crate::layout::axi_gate_descriptor;
use crate::layout::axi_gate_layout;
use crate::layout::clock_gate_descriptor;
use crate::layout::clock_gate_div_off;
use crate::layout::clock_gate_layout;
use crate::layout::pll_descriptor;
use crate::layout::pll_layout;
use crate::pll::dither_pll_rate_spec;
use crate::pll::pll_dither_rate;
use crate::pll::pll_simple_rate;
use crate::pll::simple_pll_rate_spec;
use vstd::slice::slice_subrange;

verus! {

/// The reconstructed clock tree: the four generated PLL rates, the four
/// selected PLL output rates, and the two gate tables, each in
/// declaration order.
pub struct ClkTree {
    pub genplls: Vec<u32>,
    pub outplls: Vec<u32>,
    pub clkgens: Vec<ClockGateResult>,
    pub axigates: Vec<bool>,
}

/// True when bit 0 of the global PLL-bypass control byte is set.
pub open spec fn global_bypass_set(buf: Seq<u8>) -> bool {
    buf[GLOBAL_CTL_OFFSET as int] & 0x01 != 0
}

/// What PLL slot `i` generates: its region of the dump decoded by the
/// decoder of its kind.
pub open spec fn gen_pll_spec(buf: Seq<u8>, xtal: u32, i: int) -> Result<u32, DecodeError> {
    let d = pll_layout(i);
    if d.dithering {
        dither_pll_rate_spec(buf.subrange(d.offset as int, d.offset + d.len), xtal)
    } else {
        simple_pll_rate_spec(buf.subrange(d.offset as int, d.offset + d.len), xtal, d.has_outdiv)
    }
}

/// Bit `i` of a bypass-mask byte.
pub open spec fn mask_bit(mask: u8, i: int) -> bool {
    mask & (1u8 << (i as u8)) != 0
}

/// The rate of PLL output slot `i` once every PLL decoded: the crystal
/// rate when the slot's bypass-mask bit is set, the generated rate
/// otherwise.
pub open spec fn outpll_spec(buf: Seq<u8>, xtal: u32, i: int) -> u32 {
    if mask_bit(buf[PLL_MASK_OFFSET as int], i) {
        xtal
    } else {
        gen_pll_spec(buf, xtal, i)->Ok_0
    }
}

/// The five upstream sources a clock gate's mux selects from: the four
/// PLL output slots, then the raw crystal, in that fixed order.
pub open spec fn pllmux_spec(buf: Seq<u8>, xtal: u32) -> Seq<u32> {
    Seq::new(
        5,
        |i: int|
            if i < 4 {
                outpll_spec(buf, xtal, i)
            } else {
                xtal
            },
    )
}

/// What clock gate `i` decodes to, from its control and divider bytes
/// and the five-source mux table.
pub open spec fn clock_gate_result_spec(buf: Seq<u8>, xtal: u32, i: int) -> ClockGateResult {
    let d = clock_gate_layout(i);
    clkgen_rate_spec(
        buf[d.ctl_off as int],
        Some(buf[clock_gate_div_off(i) as int]),
        pllmux_spec(buf, xtal),
        d.static_bypass,
    )
}

/// Whether AXI gate `i` is on: its bit of its control byte.
pub open spec fn axi_gate_result_spec(buf: Seq<u8>, i: int) -> bool {
    let d = axi_gate_layout(i);
    axigate_on_spec(buf[d.ctl_off as int], d.bit)
}

/// The error a decode of `buf` must report, if any, in pipeline order:
/// the dump's shape first, then the global bypass bit — before any PLL
/// region is looked at — then the four PLLs in slot order. Every stage
/// after the PLLs is total.
pub open spec fn expected_error(buf: Seq<u8>, xtal: u32) -> Option<DecodeError> {
    if buf.len() != DUMP_LEN {
        Some(DecodeError::ShapeError)
    } else if global_bypass_set(buf) {
        Some(DecodeError::GlobalBypassUnsupported)
    } else if gen_pll_spec(buf, xtal, 0) is Err {
        Some(gen_pll_spec(buf, xtal, 0)->Err_0)
    } else if gen_pll_spec(buf, xtal, 1) is Err {
        Some(gen_pll_spec(buf, xtal, 1)->Err_0)
    } else if gen_pll_spec(buf, xtal, 2) is Err {
        Some(gen_pll_spec(buf, xtal, 2)->Err_0)
    } else if gen_pll_spec(buf, xtal, 3) is Err {
        Some(gen_pll_spec(buf, xtal, 3)->Err_0)
    } else {
        None
    }
}

/// What a successful decode holds: every table filled, in order, with
/// exactly the value its spec function gives.
pub open spec fn clk_tree_matches(buf: Seq<u8>, xtal: u32, t: ClkTree) -> bool {
    &&& t.genplls@.len() == PLL_COUNT
    &&& (forall|i: int| 0 <= i < PLL_COUNT ==> t.genplls@[i] == gen_pll_spec(buf, xtal, i)->Ok_0)
    &&& t.outplls@.len() == PLL_COUNT
    &&& (forall|i: int| 0 <= i < PLL_COUNT ==> t.outplls@[i] == outpll_spec(buf, xtal, i))
    &&& t.clkgens@.len() == CLOCK_GATE_COUNT
    &&& (forall|i: int|
        0 <= i < CLOCK_GATE_COUNT ==> t.clkgens@[i] == clock_gate_result_spec(buf, xtal, i))
    &&& t.axigates@.len() == AXI_GATE_COUNT
    &&& (forall|i: int| 0 <= i < AXI_GATE_COUNT ==> t.axigates@[i] == axi_gate_result_spec(buf, i))
}

/// Validates the crystal-rate argument: only the two calibration values
/// 24 and 48 (MHz) are accepted, and the accepted value is scaled to
/// Hz.
pub fn validate_crystal(megahertz: u32) -> (r: Result<u32, DecodeError>)
    ensures
        r == (if megahertz == 24 {
            Ok::<u32, DecodeError>(24_000_000u32)
        } else if megahertz == 48 {
            Ok::<u32, DecodeError>(48_000_000u32)
        } else {
            Err::<u32, DecodeError>(DecodeError::ConfigError)
        }),
{
    if megahertz == 24 || megahertz == 48 {
        Ok(megahertz * 1_000_000)
    } else {
        Err(DecodeError::ConfigError)
    }
}

/// Tests the global PLL-bypass control byte. Bit 0 set means the
/// hardware's behaviour is not characterized, and the whole decode must
/// abort before producing anything.
pub fn check_global_bypass(ctl: u8) -> (r: Result<(), DecodeError>)
    ensures
        r == (if ctl & 0x01 != 0 {
            Err::<(), DecodeError>(DecodeError::GlobalBypassUnsupported)
        } else {
            Ok::<(), DecodeError>(())
        }),
{
    if ctl & 0x01 != 0 {
        Err(DecodeError::GlobalBypassUnsupported)
    } else {
        Ok(())
    }
}

/// Fills the four PLL output slots: slot `i` carries the crystal rate
/// when bit `i` of the bypass mask is set, and the generated rate
/// otherwise. No slot blends the two and no other value can appear.
pub fn select_outputs(generated: &Vec<u32>, crystal: u32, bypass_mask: u8) -> (out: Vec<u32>)
    requires
        generated@.len() == PLL_COUNT,
    ensures
        out@.len() == PLL_COUNT,
        forall|i: int|
            0 <= i < PLL_COUNT ==> out@[i] == (if mask_bit(bypass_mask, i) {
                crystal
            } else {
                generated@[i]
            }),
{
    let mut out: Vec<u32> = Vec::new();
    let mut i: usize = 0;
    while i < PLL_COUNT
        invariant
            i <= PLL_COUNT,
            out@.len() == i,
            generated@.len() == PLL_COUNT,
            forall|j: int|
                0 <= j < i ==> out@[j] == (if mask_bit(bypass_mask, j) {
                    crystal
                } else {
                    generated@[j]
                }),
        decreases PLL_COUNT - i,
    {
        let slot: u32 = if bypass_mask & (1u8 << (i as u8)) != 0 {
            crystal
        } else {
            generated[i]
        };
        out.push(slot);
        i += 1;
    }
    out
}

/// Decodes a full register dump against a crystal rate in Hz.
///
/// The dump must be exactly [`DUMP_LEN`] bytes. The global safety check
/// runs before any PLL region is decoded; a fatal condition from it or
/// from any PLL aborts the decode with that error, earliest stage
/// first. On success every output table is filled in declaration
/// order.
pub fn decode_dump(buf: &[u8], xtal: u32) -> (r: Result<ClkTree, DecodeError>)
    ensures
        match r {
            Ok(t) => expected_error(buf@, xtal) is None && clk_tree_matches(buf@, xtal, t),
            Err(e) => expected_error(buf@, xtal) == Some(e),
        },
{
    if buf.len() != DUMP_LEN {
        return Err(DecodeError::ShapeError);
    }
    match check_global_bypass(buf[GLOBAL_CTL_OFFSET]) {
        Err(e) => {
            return Err(e);
        },
        Ok(_) => {},
    }
    let mut genplls: Vec<u32> = Vec::new();
    let mut i: usize = 0;
    while i < PLL_COUNT
        invariant
            i <= PLL_COUNT,
            genplls@.len() == i,
            buf@.len() == DUMP_LEN,
            !global_bypass_set(buf@),
            forall|j: int| 0 <= j < i ==> gen_pll_spec(buf@, xtal, j) is Ok,
            forall|j: int| 0 <= j < i ==> genplls@[j] == gen_pll_spec(buf@, xtal, j)->Ok_0,
        decreases PLL_COUNT - i,
    {
        let d = pll_descriptor(i);
        let region: &[u8] = slice_subrange(buf, d.offset, d.offset + d.len);
        let decoded: Result<u32, DecodeError> = if d.dithering {
            pll_dither_rate(region, xtal)
        } else {
            pll_simple_rate(region, xtal, d.has_outdiv)
        };
        match decoded {
            Ok(rate) => genplls.push(rate),
            Err(e) => {
                return Err(e);
            },
        }
        i += 1;
    }
    let outplls: Vec<u32> = select_outputs(&genplls, xtal, buf[PLL_MASK_OFFSET]);
    let mut pllmux: Vec<u32> = Vec::new();
    pllmux.push(outplls[0]);
    pllmux.push(outplls[1]);
    pllmux.push(outplls[2]);
    pllmux.push(outplls[3]);
    pllmux.push(xtal);
    proof {
        assert(pllmux@ =~= pllmux_spec(buf@, xtal));
    }
    let mut clkgens: Vec<ClockGateResult> = Vec::new();
    let mut g: usize = 0;
    while g < CLOCK_GATE_COUNT
        invariant
            g <= CLOCK_GATE_COUNT,
            clkgens@.len() == g,
            buf@.len() == DUMP_LEN,
            pllmux@ == pllmux_spec(buf@, xtal),
            forall|j: int| 0 <= j < g ==> clkgens@[j] == clock_gate_result_spec(buf@, xtal, j),
        decreases CLOCK_GATE_COUNT - g,
    {
        let d = clock_gate_descriptor(g);
        let divctl: Option<u8> = match d.div_off {
            Some(off) => Some(buf[off]),
            None => None,
        };
        let decoded = clkgen_rate(buf[d.ctl_off], divctl, pllmux.as_slice(), d.static_bypass);
        clkgens.push(decoded);
        g += 1;
    }
    let mut axigates: Vec<bool> = Vec::new();
    let mut a: usize = 0;
    while a < AXI_GATE_COUNT
        invariant
            a <= AXI_GATE_COUNT,
            axigates@.len() == a,
            buf@.len() == DUMP_LEN,
            forall|j: int| 0 <= j < a ==> axigates@[j] == axi_gate_result_spec(buf@, j),
        decreases AXI_GATE_COUNT - a,
    {
        let d = axi_gate_descriptor(a);
        axigates.push(axigate_is_on(buf[d.ctl_off], d.bit));
        a += 1;
    }
    Ok(ClkTree { genplls, outplls, clkgens, axigates })
}

/// When the global PLL-bypass bit is set in a well-shaped dump, the
/// decode reports `GlobalBypassUnsupported`, whatever every PLL region
/// holds: the check comes before the PLL stage in the pipeline order.
pub proof fn lemma_global_bypass_aborts(buf: Seq<u8>, xtal: u32)
    requires
        buf.len() == DUMP_LEN,
        global_bypass_set(buf),
    ensures
        expected_error(buf, xtal) == Some(DecodeError::GlobalBypassUnsupported),
{
}

} // verus!
