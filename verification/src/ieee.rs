//! Real numbers that pass through the library: a volume, a gain, a length in
//! seconds. They are held by their IEEE 754 bit pattern.
use vstd::prelude::*;

verus! {

/// A single-precision number, by its bit pattern.
#[derive(Debug, Clone, Copy, PartialEq, Eq, Structural)]
pub struct Real32 {
    pub bits: u32,
}

/// A double-precision number, by its bit pattern.
#[derive(Debug, Clone, Copy, PartialEq, Eq, Structural)]
pub struct Real64 {
    pub bits: u64,
}

/// The bit pattern of one in single precision.
pub const ONE_32: u32 = 0x3f80_0000;

/// The bit pattern of zero in double precision.
pub const ZERO_64: u64 = 0;

impl Real32 {
    pub fn one() -> (r: Real32)
        ensures
            r.bits == ONE_32,
    {
        Real32 { bits: ONE_32 }
    }
}

/// Whether a double-precision number carries a minus sign.
pub open spec fn is_signed(bits: u64) -> bool {
    bits >= 0x8000_0000_0000_0000
}

/// The biased exponent of a double-precision number.
pub open spec fn biased(bits: u64) -> int {
    (bits / 0x10_0000_0000_0000) as int % 0x800
}

/// Whether a double-precision number is one: neither infinite nor undefined.
pub open spec fn is_finite(bits: u64) -> bool {
    biased(bits) != 0x7ff
}

/// Whether a double-precision number is undefined.
pub open spec fn is_undefined(bits: u64) -> bool {
    !is_finite(bits) && bits as nat % 0x10_0000_0000_0000 != 0
}

/// Whether a double-precision number is greater than zero.
pub open spec fn is_positive(bits: u64) -> bool {
    !is_signed(bits) && !is_undefined(bits) && significand(bits) > 0
}

/// The significand of a double-precision number, as a whole number. The number is
/// `significand * 2^exponent`, but for its sign.
pub open spec fn significand(bits: u64) -> nat {
    let fraction = bits as nat % 0x10_0000_0000_0000;
    if biased(bits) == 0 {
        fraction
    } else {
        fraction + 0x10_0000_0000_0000
    }
}

/// The exponent that belongs to [`significand`].
pub open spec fn exponent(bits: u64) -> int {
    if biased(bits) == 0 {
        -1074
    } else {
        biased(bits) - 1075
    }
}

impl Real64 {
    /// Whether the number carries a minus sign.
    pub fn is_signed(&self) -> (r: bool)
        ensures
            r == is_signed(self.bits),
    {
        self.bits >= 0x8000_0000_0000_0000
    }

    fn biased(&self) -> (e: u64)
        ensures
            e == biased(self.bits),
    {
        (self.bits / 0x10_0000_0000_0000) % 0x800
    }

    /// Whether the number is one: neither infinite nor undefined.
    pub fn is_finite(&self) -> (r: bool)
        ensures
            r == is_finite(self.bits),
    {
        self.biased() != 0x7ff
    }

    /// Whether the number is undefined.
    pub fn is_undefined(&self) -> (r: bool)
        ensures
            r == is_undefined(self.bits),
    {
        !self.is_finite() && self.bits % 0x10_0000_0000_0000 != 0
    }

    /// Whether the number is greater than zero.
    pub fn is_positive(&self) -> (r: bool)
        ensures
            r == is_positive(self.bits),
    {
        !self.is_signed() && !self.is_undefined() && self.significand() > 0
    }

    /// The significand, as a whole number.
    pub fn significand(&self) -> (m: u64)
        ensures
            m == significand(self.bits),
            m < 0x20_0000_0000_0000,
            exponent(self.bits) > -1074 ==> m >= 0x10_0000_0000_0000,
    {
        let fraction: u64 = self.bits % 0x10_0000_0000_0000;
        if self.biased() == 0 {
            fraction
        } else {
            fraction + 0x10_0000_0000_0000
        }
    }

    /// The exponent that belongs to the significand.
    pub fn exponent(&self) -> (e: i64)
        ensures
            e == exponent(self.bits),
            -1074 <= e <= 972,
    {
        let biased: u64 = self.biased();
        if biased == 0 {
            -1074
        } else {
            biased as i64 - 1075
        }
    }

    pub fn zero() -> (r: Real64)
        ensures
            r.bits == ZERO_64,
    {
        Real64 { bits: ZERO_64 }
    }
}

} // verus!
