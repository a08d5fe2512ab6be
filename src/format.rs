use vstd::prelude::*;
use crate::unit::{Unit, unit_of_exponent};

verus! {

/// The number of digits after the decimal point when a size is rendered in
/// any unit but bytes.
pub const FRACTION_DIGITS: usize = 3;

/// The exponent of the unit to render in: the first `k` for which
/// `below[k]` holds, or 4 where none does.
pub open spec fn scale_exponent(below: Seq<bool>) -> nat
    recommends
        below.len() == 4,
{
    if below[0] {
        0
    } else if below[1] {
        1
    } else if below[2] {
        2
    } else if below[3] {
        3
    } else {
        4
    }
}

/// Picks the unit in which a byte count is rendered.
///
/// `below[k]` tells whether the count's base-1024 logarithm is under
/// `k + 1`. The unit is the one whose exponent is the first `k` with
/// `below[k]`: bytes under 1, kibibytes under 2, and so on; tebibytes where
/// no test holds, so that there is no unit beyond them.
pub fn unit_for_scale(below: [bool; 4]) -> (r: Unit)
    ensures
        r == unit_of_exponent(scale_exponent(below@)),
{
    if below[0] {
        Unit::Bytes
    } else if below[1] {
        Unit::Kibibytes
    } else if below[2] {
        Unit::Mebibytes
    } else if below[3] {
        Unit::Gibibytes
    } else {
        Unit::Tebibytes
    }
}

impl Unit {
    /// How many digits follow the decimal point when a size is rendered in
    /// this unit: `None` for bytes, which are rendered in the shortest form
    /// that reads back as the same number, and three for every other unit.
    pub fn fraction_digits(&self) -> (r: Option<usize>)
        ensures
            r == (if *self == Unit::Bytes {
                None
            } else {
                Some(FRACTION_DIGITS)
            }),
    {
        match self {
            Unit::Bytes => None,
            _ => Some(FRACTION_DIGITS),
        }
    }
}

} // verus!
