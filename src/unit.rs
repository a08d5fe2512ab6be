use vstd::prelude::*;

verus! {

/// The number of bytes in one kibibyte: each unit is this many of the one below.
pub const UNIT_BASE: u64 = 1024;

/// A binary unit of size, written as a single trailing character.
#[derive(Debug, Clone, Copy, PartialEq, Eq, Structural)]
pub enum Unit {
    /// `B`: bytes.
    Bytes,
    /// `K`: 1024 bytes.
    Kibibytes,
    /// `M`: 1024^2 bytes.
    Mebibytes,
    /// `G`: 1024^3 bytes.
    Gibibytes,
    /// `T`: 1024^4 bytes.
    Tebibytes,
}

/// The character that denotes `u` in a size expression.
pub open spec fn symbol_of(u: Unit) -> char {
    match u {
        Unit::Bytes => 'B',
        Unit::Kibibytes => 'K',
        Unit::Mebibytes => 'M',
        Unit::Gibibytes => 'G',
        Unit::Tebibytes => 'T',
    }
}

/// The unit that the character `c` denotes, if any (case-sensitive).
pub open spec fn unit_of_symbol(c: char) -> Option<Unit> {
    if c == 'B' {
        Some(Unit::Bytes)
    } else if c == 'K' {
        Some(Unit::Kibibytes)
    } else if c == 'M' {
        Some(Unit::Mebibytes)
    } else if c == 'G' {
        Some(Unit::Gibibytes)
    } else if c == 'T' {
        Some(Unit::Tebibytes)
    } else {
        None
    }
}

/// The power of 1024 that `u` stands for.
pub open spec fn exponent_of(u: Unit) -> nat {
    match u {
        Unit::Bytes => 0,
        Unit::Kibibytes => 1,
        Unit::Mebibytes => 2,
        Unit::Gibibytes => 3,
        Unit::Tebibytes => 4,
    }
}

/// The unit whose exponent is `e`, for `e` at most 4.
pub open spec fn unit_of_exponent(e: nat) -> Unit
    recommends
        e <= 4,
{
    if e == 0 {
        Unit::Bytes
    } else if e == 1 {
        Unit::Kibibytes
    } else if e == 2 {
        Unit::Mebibytes
    } else if e == 3 {
        Unit::Gibibytes
    } else {
        Unit::Tebibytes
    }
}

/// `base` raised to `e`.
pub open spec fn power(base: nat, e: nat) -> nat
    decreases e,
{
    if e == 0 {
        1
    } else {
        base * power(base, (e - 1) as nat)
    }
}

/// The number of bytes in one `u`.
pub open spec fn multiplier_of(u: Unit) -> nat {
    match u {
        Unit::Bytes => 1,
        Unit::Kibibytes => 1024,
        Unit::Mebibytes => 1048576,
        Unit::Gibibytes => 1073741824,
        Unit::Tebibytes => 1099511627776,
    }
}

/// One of a unit is 1024 bytes raised to the unit's exponent.
pub proof fn lemma_multiplier_is_power(u: Unit)
    ensures
        multiplier_of(u) == power(UNIT_BASE as nat, exponent_of(u)),
{
    reveal_with_fuel(power, 5);
}

impl Unit {
    /// The unit written as `c`, or `None` where `c` is no unit.
    pub fn from_symbol(c: char) -> (r: Option<Unit>)
        ensures
            r == unit_of_symbol(c),
    {
        if c == 'B' {
            Some(Unit::Bytes)
        } else if c == 'K' {
            Some(Unit::Kibibytes)
        } else if c == 'M' {
            Some(Unit::Mebibytes)
        } else if c == 'G' {
            Some(Unit::Gibibytes)
        } else if c == 'T' {
            Some(Unit::Tebibytes)
        } else {
            None
        }
    }

    /// The character that denotes this unit.
    pub fn symbol(&self) -> (r: char)
        ensures
            r == symbol_of(*self),
    {
        match self {
            Unit::Bytes => 'B',
            Unit::Kibibytes => 'K',
            Unit::Mebibytes => 'M',
            Unit::Gibibytes => 'G',
            Unit::Tebibytes => 'T',
        }
    }

    /// The symbol of this unit as a one-character string.
    pub fn symbol_text(&self) -> (r: &'static str)
        ensures
            r@ == seq![symbol_of(*self)],
    {
        match self {
            Unit::Bytes => {
                proof {
                    reveal_strlit("B");
                }
                "B"
            },
            Unit::Kibibytes => {
                proof {
                    reveal_strlit("K");
                }
                "K"
            },
            Unit::Mebibytes => {
                proof {
                    reveal_strlit("M");
                }
                "M"
            },
            Unit::Gibibytes => {
                proof {
                    reveal_strlit("G");
                }
                "G"
            },
            Unit::Tebibytes => {
                proof {
                    reveal_strlit("T");
                }
                "T"
            },
        }
    }

    /// The power of 1024 that this unit stands for.
    pub fn exponent(&self) -> (r: u32)
        ensures
            r == exponent_of(*self),
    {
        match self {
            Unit::Bytes => 0,
            Unit::Kibibytes => 1,
            Unit::Mebibytes => 2,
            Unit::Gibibytes => 3,
            Unit::Tebibytes => 4,
        }
    }

    /// The number of bytes in one of this unit: 1024 to the power of its exponent.
    pub fn multiplier(&self) -> (r: u64)
        ensures
            r == multiplier_of(*self),
    {
        match self {
            Unit::Bytes => 1,
            Unit::Kibibytes => 1024,
            Unit::Mebibytes => 1048576,
            Unit::Gibibytes => 1073741824,
            Unit::Tebibytes => 1099511627776,
        }
    }
}

/// Reading back the symbol of a unit gives that unit, and a character
/// that reads as a unit is that unit's symbol.
pub proof fn lemma_symbol_round_trip(u: Unit, c: char)
    ensures
        unit_of_symbol(symbol_of(u)) == Some(u),
        unit_of_symbol(c) == Some(u) ==> symbol_of(u) == c,
{
}

} // verus!
