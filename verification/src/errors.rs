//! Failure conditions of the clock-tree decode.

use vstd::prelude::*;

verus! {

/// Every way a decode can fail.
///
/// `ShapeError`: a byte region (a PLL region or the whole dump) has the
/// wrong length. `ArithmeticOverflow`: a derived rate does not fit in 32
/// bits. `InvalidDivider`: a hardware-supplied divider field is zero, so
/// the rate is undefined; the decode reports it instead of dividing.
/// `GlobalBypassUnsupported`: the global PLL-bypass bit is set and the
/// hardware behaviour under it is not characterized, so the whole decode
/// aborts. `ConfigError`: the supplied crystal rate is not one of the two
/// calibration values the board supports.
#[derive(Clone, Copy, Debug, PartialEq, Eq, Structural)]
pub enum DecodeError {
    ShapeError,
    ArithmeticOverflow,
    InvalidDivider,
    GlobalBypassUnsupported,
    ConfigError,
}

} // verus!
