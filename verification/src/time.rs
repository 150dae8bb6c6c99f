//! Lengths of time, in whole nanoseconds.
use crate::ieee::Real64;
use vstd::arithmetic::power2::{
    lemma2_to64, lemma2_to64_rest, lemma_pow2_adds, lemma_pow2_pos, lemma_pow2_strictly_increases, lemma_pow2_unfold,
    pow2,
};
use vstd::prelude::*;

verus! {

/// A length of time. The value is `nanos` nanoseconds.
#[derive(Debug, Clone, Copy, PartialEq, Eq, Structural)]
pub struct Duration {
    pub nanos: u128,
}

pub const NANOS_PER_SEC: u128 = 1_000_000_000;

pub const NANOS_PER_MILLI: u128 = 1_000_000;

pub const NANOS_PER_MICRO: u128 = 1_000;

/// `n / d` to the nearest whole number, and to the even one of two that are as
/// near.
pub open spec fn rounded(n: nat, d: nat) -> nat {
    let q = n / d;
    let r = n % d;
    if 2 * r > d || (2 * r == d && q % 2 == 1) {
        q + 1
    } else {
        q
    }
}

/// The nanoseconds in a number of seconds, given by its double-precision bit
/// pattern, to the nearest; nothing where it is negative, no number, or one that
/// 64 bits do not hold.
pub open spec fn nanos_in(bits: u64) -> Option<nat> {
    let m = crate::ieee::significand(bits);
    let e = crate::ieee::exponent(bits);
    if !crate::ieee::is_finite(bits) || (crate::ieee::is_signed(bits) && m > 0) {
        None
    } else if e < 0 {
        Some(rounded(m * NANOS_PER_SEC as nat, pow2((-e) as nat)))
    } else if m * pow2(e as nat) <= u64::MAX {
        Some(m * pow2(e as nat) * NANOS_PER_SEC as nat)
    } else {
        None
    }
}

/// The whole seconds in a number of seconds, given by its double-precision bit
/// pattern: none where it is negative or undefined, and as many as 64 bits hold where
/// there are more.
pub open spec fn whole_secs_in(bits: u64) -> nat {
    let m = crate::ieee::significand(bits);
    let e = crate::ieee::exponent(bits);
    if crate::ieee::is_signed(bits) || crate::ieee::is_undefined(bits) {
        0
    } else if !crate::ieee::is_finite(bits) {
        u64::MAX as nat
    } else if e < 0 {
        m / pow2((-e) as nat)
    } else if m * pow2(e as nat) <= u64::MAX {
        m * pow2(e as nat)
    } else {
        u64::MAX as nat
    }
}

/// The whole seconds in a number of seconds, see [`whole_secs_in`].
pub fn whole_secs(secs: Real64) -> (n: u64)
    ensures
        n == whole_secs_in(secs.bits),
{
    let m: u64 = secs.significand();
    let e: i64 = secs.exponent();
    proof {
        lemma2_to64();
        lemma2_to64_rest();
    }
    if secs.is_signed() || secs.is_undefined() {
        return 0;
    }
    if !secs.is_finite() {
        return u64::MAX;
    }
    if e < 0 {
        let shift: u64 = (-e) as u64;
        if shift > 63 {
            proof {
                lemma_pow2_strictly_increases(63, shift as nat);
                vstd::arithmetic::div_mod::lemma_basic_div(m as int, pow2(shift as nat) as int);
            }
            return 0;
        }
        let d: u128 = power_of_two(shift);
        proof {
            lemma_pow2_pos(shift as nat);
        }
        let q: u128 = m as u128 / d;
        assert(q <= m) by (nonlinear_arith)
            requires
                q == m as u128 / d,
                d > 0,
        ;
        return q as u64;
    }
    if e > 11 {
        proof {
            lemma_pow2_strictly_increases(11, e as nat);
            if e > 12 {
                lemma_pow2_strictly_increases(12, e as nat);
            }
            assert(m * pow2(e as nat) > u64::MAX) by (nonlinear_arith)
                requires
                    m >= 0x10_0000_0000_0000,
                    pow2(e as nat) >= 0x1000,
            ;
        }
        return u64::MAX;
    }
    let p: u128 = power_of_two(e as u64);
    proof {
        if e < 11 {
            lemma_pow2_strictly_increases(e as nat, 11);
        }
        assert(m * p <= u64::MAX) by (nonlinear_arith)
            requires
                m < 0x20_0000_0000_0000,
                p <= 0x800,
        ;
    }
    (m as u128 * p) as u64
}

/// Two to the power of `n`.
fn power_of_two(n: u64) -> (p: u128)
    requires
        n < 128,
    ensures
        p == pow2(n as nat),
{
    let mut p: u128 = 1;
    let mut i: u64 = 0;
    proof {
        lemma2_to64();
    }
    while i < n
        invariant
            i <= n < 128,
            p == pow2(i as nat),
        decreases n - i,
    {
        proof {
            lemma_pow2_unfold((i + 1) as nat);
            lemma_pow2_adds(64, 63);
            lemma2_to64();
            lemma2_to64_rest();
            if i + 1 < 127 {
                lemma_pow2_strictly_increases((i + 1) as nat, 127);
            }
            assert(pow2(127) == 0x8000_0000_0000_0000_0000_0000_0000_0000nat);
        }
        p = p * 2;
        i = i + 1;
    }
    p
}

impl Duration {
    /// The length of time of a number of seconds, to the nearest nanosecond.
    pub fn try_from_real_secs(secs: Real64) -> (d: Option<Duration>)
        ensures
            match d {
                Some(found) => nanos_in(secs.bits) == Some(found.nanos as nat),
                None => nanos_in(secs.bits) is None,
            },
    {
        let m: u64 = secs.significand();
        let e: i64 = secs.exponent();
        proof {
            lemma2_to64();
            lemma2_to64_rest();
        }
        if !secs.is_finite() || (secs.is_signed() && m > 0) {
            return None;
        }
        if e < 0 {
            let shift: u64 = (-e) as u64;
            let n: u128 = m as u128 * NANOS_PER_SEC;
            if shift > 100 {
                proof {
                    lemma_pow2_strictly_increases(100, shift as nat);
                    lemma_pow2_adds(64, 36);
                    let d = pow2(shift as nat) as int;
                    assert(2 * n < d);
                    vstd::arithmetic::div_mod::lemma_basic_div(n as int, d);
                    vstd::arithmetic::div_mod::lemma_small_mod(n as nat, d as nat);
                }
                return Some(Duration::zero());
            }
            let d: u128 = power_of_two(shift);
            proof {
                lemma_pow2_pos(shift as nat);
                lemma_pow2_adds(64, 36);
                if shift < 100 {
                    lemma_pow2_strictly_increases(shift as nat, 100);
                }
            }
            let q: u128 = n / d;
            let r: u128 = n % d;
            assert(r < d);
            assert(q <= n) by (nonlinear_arith)
                requires
                    q == n / d,
                    d > 0,
            ;
            return Some(
                Duration {
                    nanos: if 2 * r > d || (2 * r == d && q % 2 == 1) {
                        q + 1
                    } else {
                        q
                    },
                },
            );
        }
        if e > 11 {
            proof {
                lemma_pow2_strictly_increases(11, e as nat);
                if e > 12 {
                    lemma_pow2_strictly_increases(12, e as nat);
                }
                assert(m * pow2(e as nat) > u64::MAX) by (nonlinear_arith)
                    requires
                        m >= 0x10_0000_0000_0000,
                        pow2(e as nat) >= 0x1000,
                ;
            }
            return None;
        }
        let p: u128 = power_of_two(e as u64);
        proof {
            if e < 11 {
                lemma_pow2_strictly_increases(e as nat, 11);
            }
            assert(m * p <= u64::MAX) by (nonlinear_arith)
                requires
                    m < 0x20_0000_0000_0000,
                    p <= 0x800,
            ;
        }
        Some(Duration { nanos: m as u128 * p * NANOS_PER_SEC })
    }

    pub fn zero() -> (d: Duration)
        ensures
            d.nanos == 0,
    {
        Duration { nanos: 0 }
    }

    pub fn from_secs(secs: u64) -> (d: Duration)
        ensures
            d.nanos == secs * NANOS_PER_SEC,
    {
        Duration { nanos: secs as u128 * NANOS_PER_SEC }
    }

    pub fn from_millis(millis: u64) -> (d: Duration)
        ensures
            d.nanos == millis * NANOS_PER_MILLI,
    {
        Duration { nanos: millis as u128 * NANOS_PER_MILLI }
    }

    pub fn from_micros(micros: u64) -> (d: Duration)
        ensures
            d.nanos == micros * NANOS_PER_MICRO,
    {
        Duration { nanos: micros as u128 * NANOS_PER_MICRO }
    }

    /// Whole seconds, the fraction dropped.
    pub fn as_secs(&self) -> (secs: u128)
        ensures
            secs == self.nanos / NANOS_PER_SEC,
    {
        self.nanos / NANOS_PER_SEC
    }

    /// Whole microseconds, the fraction dropped.
    pub fn as_micros(&self) -> (micros: u128)
        ensures
            micros == self.nanos / NANOS_PER_MICRO,
    {
        self.nanos / NANOS_PER_MICRO
    }

    /// The shorter of the two.
    pub fn min(self, other: Duration) -> (d: Duration)
        ensures
            d == (if self.nanos <= other.nanos { self } else { other }),
    {
        if self.nanos <= other.nanos {
            self
        } else {
            other
        }
    }
}

/// Rounding goes to the nearest whole number; half way it goes to the even one.
pub proof fn rounding_goes_to_the_nearest(n: nat, d: nat)
    requires
        d > 0,
    ensures
        -(d as int) <= 2 * (n - rounded(n, d) * d) <= d,
        2 * (n - rounded(n, d) * d) == d || 2 * (rounded(n, d) * d - n) == d ==> rounded(n, d) % 2
            == 0,
{
    let q = n / d;
    let r = n % d;
    vstd::arithmetic::div_mod::lemma_fundamental_div_mod(n as int, d as int);
    assert(d * q == q * d) by (nonlinear_arith);
    assert((q + 1) * d == q * d + d) by (nonlinear_arith);
}

/// A whole number is rounded to itself.
pub proof fn whole_numbers_stay(n: nat, d: nat)
    requires
        d > 0,
    ensures
        rounded(n * d, d) == n,
{
    vstd::arithmetic::div_mod::lemma_div_multiples_vanish(n as int, d as int);
    vstd::arithmetic::div_mod::lemma_mod_multiples_basic(n as int, d as int);
    assert(n * d == d * n) by (nonlinear_arith);
}

/// The whole seconds of a number are those that have passed: no more than it, and less than
/// one second short of it.
pub proof fn whole_seconds_have_passed(bits: u64)
    requires
        !crate::ieee::is_signed(bits),
        crate::ieee::is_finite(bits),
        crate::ieee::exponent(bits) < 0,
    ensures
        ({
            let unit = pow2((-crate::ieee::exponent(bits)) as nat);
            let m = crate::ieee::significand(bits);
            whole_secs_in(bits) * unit <= m < (whole_secs_in(bits) + 1) * unit
        }),
{
    let unit = pow2((-crate::ieee::exponent(bits)) as nat);
    let m = crate::ieee::significand(bits);
    vstd::arithmetic::power2::lemma_pow2_pos((-crate::ieee::exponent(bits)) as nat);
    vstd::arithmetic::div_mod::lemma_fundamental_div_mod(m as int, unit as int);
    let q = m / unit;
    assert(unit * q == q * unit) by (nonlinear_arith);
    assert((q + 1) * unit == q * unit + unit) by (nonlinear_arith);
    vstd::arithmetic::div_mod::lemma_mod_bound(m as int, unit as int);
}

/// A length in seconds is read to the nearest nanosecond.
pub proof fn length_is_read_to_the_nanosecond(bits: u64)
    requires
        !crate::ieee::is_signed(bits),
        crate::ieee::is_finite(bits),
        crate::ieee::exponent(bits) < 0,
    ensures
        ({
            let unit = pow2((-crate::ieee::exponent(bits)) as nat);
            let m = crate::ieee::significand(bits);
            &&& nanos_in(bits) is Some
            &&& -(unit as int) <= 2 * (m * 1_000_000_000 - nanos_in(bits)->0 * unit) <= unit
        }),
{
    let unit = pow2((-crate::ieee::exponent(bits)) as nat);
    vstd::arithmetic::power2::lemma_pow2_pos((-crate::ieee::exponent(bits)) as nat);
    rounding_goes_to_the_nearest(crate::ieee::significand(bits) * 1_000_000_000, unit);
}

} // verus!
