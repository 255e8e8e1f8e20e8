//! The fixed register layout of the clock-reset block.
//!
//! Every offset and bit position below is part of the hardware's
//! memory map and must be kept exactly as written; none of them is an
//! arbitrary choice. The dump covers the whole block: 0x400 bytes.

use vstd::prelude::*;

verus! {

/// Length of a full register dump in bytes.
pub const DUMP_LEN: usize = 0x400;

/// Offset of the global PLL-bypass control byte (bit 0 is the bypass).
pub const GLOBAL_CTL_OFFSET: usize = 0x34;

/// Offset of the per-slot PLL-output bypass mask byte.
pub const PLL_MASK_OFFSET: usize = 0x38;

/// Number of PLLs in the block.
pub const PLL_COUNT: usize = 4;

/// Number of peripheral clock gates in the block.
pub const CLOCK_GATE_COUNT: usize = 20;

/// Number of AXI power gates in the block.
pub const AXI_GATE_COUNT: usize = 20;

/// One PLL's place in the dump: its region's offset and length, its
/// kind, and (for the simple kind only) whether a second-stage output
/// divider follows the main stage. Which slots carry the output divider
/// is a fixed property of the chip, not read from the dump.
#[derive(Clone, Copy, Debug, PartialEq, Eq, Structural)]
pub struct PllDescriptor {
    pub offset: usize,
    pub len: usize,
    pub dithering: bool,
    pub has_outdiv: bool,
}

/// The four PLL regions, in slot order: three simple PLLs (the first
/// two with an output divider) and one dithering PLL.
pub open spec fn pll_layout(i: int) -> PllDescriptor {
    if i == 0 {
        PllDescriptor { offset: 0x1c0, len: 0x20, dithering: false, has_outdiv: true }
    } else if i == 1 {
        PllDescriptor { offset: 0x1e0, len: 0x20, dithering: false, has_outdiv: true }
    } else if i == 2 {
        PllDescriptor { offset: 0x200, len: 0x20, dithering: false, has_outdiv: false }
    } else {
        PllDescriptor { offset: 0x220, len: 0x30, dithering: true, has_outdiv: false }
    }
}

/// Returns PLL slot `i`'s descriptor; see [`pll_layout`].
pub fn pll_descriptor(i: usize) -> (d: PllDescriptor)
    requires
        i < PLL_COUNT,
    ensures
        d == pll_layout(i as int),
        d.offset + d.len <= DUMP_LEN,
{
    if i == 0 {
        PllDescriptor { offset: 0x1c0, len: 0x20, dithering: false, has_outdiv: true }
    } else if i == 1 {
        PllDescriptor { offset: 0x1e0, len: 0x20, dithering: false, has_outdiv: true }
    } else if i == 2 {
        PllDescriptor { offset: 0x200, len: 0x20, dithering: false, has_outdiv: false }
    } else {
        PllDescriptor { offset: 0x220, len: 0x30, dithering: true, has_outdiv: false }
    }
}

/// One peripheral clock gate's place in the dump: its control byte's
/// offset, its divider control byte's offset if it has one, and whether
/// the divider stage is statically bypassed for this gate.
#[derive(Clone, Copy, Debug, PartialEq, Eq, Structural)]
pub struct ClockGateDescriptor {
    pub ctl_off: usize,
    pub div_off: Option<usize>,
    pub static_bypass: bool,
}

/// The twenty peripheral clock gates, in declaration order.
pub open spec fn clock_gate_layout(i: int) -> ClockGateDescriptor {
    ClockGateDescriptor {
        ctl_off: clock_gate_ctl_off(i),
        div_off: Some(clock_gate_div_off(i)),
        static_bypass: false,
    }
}

/// The control-byte offset of clock gate `i`.
pub open spec fn clock_gate_ctl_off(i: int) -> usize {
    if i == 0 {
        0x40
    } else if i == 1 {
        0x80
    } else if i == 2 {
        0x90
    } else if i == 3 {
        0xa0
    } else if i == 4 {
        0xb0
    } else if i == 5 {
        0xc0
    } else if i == 6 {
        0xd0
    } else if i == 7 {
        0xe0
    } else if i == 8 {
        0xf0
    } else if i == 9 {
        0x100
    } else if i == 10 {
        0x110
    } else if i == 11 {
        0x120
    } else if i == 12 {
        0x130
    } else if i == 13 {
        0x140
    } else if i == 14 {
        0x150
    } else if i == 15 {
        0x160
    } else if i == 16 {
        0x170
    } else if i == 17 {
        0x180
    } else if i == 18 {
        0x190
    } else {
        0x1a0
    }
}

/// The divider-control-byte offset of clock gate `i`.
pub open spec fn clock_gate_div_off(i: int) -> usize {
    if i == 0 {
        0x4c
    } else {
        (clock_gate_ctl_off(i) + 4) as usize
    }
}

/// Returns clock gate `i`'s descriptor; see [`clock_gate_layout`].
pub fn clock_gate_descriptor(i: usize) -> (d: ClockGateDescriptor)
    requires
        i < CLOCK_GATE_COUNT,
    ensures
        d == clock_gate_layout(i as int),
        d.ctl_off < DUMP_LEN,
        d.div_off matches Some(o) && o < DUMP_LEN,
{
    let ctl_off: usize = if i == 0 {
        0x40
    } else {
        0x70 + 0x10 * i
    };
    let div_off: usize = if i == 0 {
        0x4c
    } else {
        ctl_off + 4
    };
    ClockGateDescriptor { ctl_off, div_off: Some(div_off), static_bypass: false }
}

/// The display name of clock gate `i`, in declaration order.
pub fn clock_gate_name(i: usize) -> (name: &'static str)
    requires
        i < CLOCK_GATE_COUNT,
{
    if i == 0 {
        "axi"
    } else if i == 1 {
        "a9dp"
    } else if i == 2 {
        "l2cc"
    } else if i == 3 {
        "tpi"
    } else if i == 4 {
        "csys"
    } else if i == 5 {
        "extphy0"
    } else if i == 6 {
        "extphy1"
    } else if i == 7 {
        "extphy2"
    } else if i == 8 {
        "ddr"
    } else if i == 9 {
        "pfe"
    } else if i == 10 {
        "ipsec"
    } else if i == 11 {
        "dect"
    } else if i == 12 {
        "gemtx"
    } else if i == 13 {
        "tdmntg"
    } else if i == 14 {
        "tsuntg"
    } else if i == 15 {
        "sata_pmu"
    } else if i == 16 {
        "sata_oob"
    } else if i == 17 {
        "sata_occ"
    } else if i == 18 {
        "pcie_occ"
    } else {
        "sgmii_occ"
    }
}

/// One AXI power gate's place in the dump: its control byte's offset
/// and the bit position to test within it.
#[derive(Clone, Copy, Debug, PartialEq, Eq, Structural)]
pub struct AxiGateDescriptor {
    pub ctl_off: usize,
    pub bit: u8,
}

/// The twenty AXI power gates, in declaration order: the upper four
/// bits of the byte at 0x40, then all eight bits of the bytes at 0x44
/// and 0x48.
pub open spec fn axi_gate_layout(i: int) -> AxiGateDescriptor {
    if i <= 3 {
        AxiGateDescriptor { ctl_off: 0x40, bit: (4 + i) as u8 }
    } else if i <= 11 {
        AxiGateDescriptor { ctl_off: 0x44, bit: (i - 4) as u8 }
    } else {
        AxiGateDescriptor { ctl_off: 0x48, bit: (i - 12) as u8 }
    }
}

/// Returns AXI gate `i`'s descriptor; see [`axi_gate_layout`].
pub fn axi_gate_descriptor(i: usize) -> (d: AxiGateDescriptor)
    requires
        i < AXI_GATE_COUNT,
    ensures
        d == axi_gate_layout(i as int),
        d.ctl_off < DUMP_LEN,
        d.bit < 8,
{
    if i <= 3 {
        AxiGateDescriptor { ctl_off: 0x40, bit: (4 + i) as u8 }
    } else if i <= 11 {
        AxiGateDescriptor { ctl_off: 0x44, bit: (i - 4) as u8 }
    } else {
        AxiGateDescriptor { ctl_off: 0x48, bit: (i - 12) as u8 }
    }
}

/// The display name of AXI gate `i`, in declaration order.
pub fn axi_gate_name(i: usize) -> (name: &'static str)
    requires
        i < AXI_GATE_COUNT,
{
    if i == 0 {
        "0_4"
    } else if i == 1 {
        "dpi_cie"
    } else if i == 2 {
        "dpi_decomp"
    } else if i == 3 {
        "0_7"
    } else if i == 4 {
        "dus"
    } else if i == 5 {
        "ipsec_eape"
    } else if i == 6 {
        "ipsec_spacc"
    } else if i == 7 {
        "pfe_sys"
    } else if i == 8 {
        "tdm"
    } else if i == 9 {
        "i2cspi"
    } else if i == 10 {
        "uart"
    } else if i == 11 {
        "rtc"
    } else if i == 12 {
        "pcie0"
    } else if i == 13 {
        "pcie1"
    } else if i == 14 {
        "sata"
    } else if i == 15 {
        "usb0"
    } else if i == 16 {
        "usb1"
    } else if i == 17 {
        "2_5"
    } else if i == 18 {
        "2_6"
    } else {
        "2_7"
    }
}

} // verus!
