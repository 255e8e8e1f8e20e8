//! Decoder for a memory-mapped clock-reset register block.
//!
//! Given a raw 1024-byte snapshot of the register region and the board's
//! reference crystal rate, the library reconstructs the effective clock
//! tree: the four PLL frequencies, the per-slot PLL output selection, the
//! peripheral clock-gate rates, and the simple on/off power gates.

pub mod errors;
pub mod pll;
pub mod gates;
pub mod layout;
pub mod tree;
