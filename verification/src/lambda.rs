//! Expected-hit counts as ordered numbers.
//!
//! A lambda is a binary64 number. The library never does arithmetic on it; it
//! only has to know which of two lambdas is the smaller one. So a lambda is
//! held as its IEEE-754 bit pattern, and its meaning is the exact number that
//! the pattern denotes, counted in units of 2^-1074 (the smallest positive
//! binary64 number), which makes every finite binary64 number an integer.

use vstd::arithmetic::power2::{
    lemma_pow2_pos, lemma_pow2_strictly_increases, lemma_pow2_unfold, pow2,
};
use vstd::prelude::*;

verus! {

/// The sign bit of a binary64 pattern.
pub const SIGN_BIT: u64 = 0x8000_0000_0000_0000;

/// The pattern of positive infinity. A larger magnitude is a NaN.
pub const INFINITY_BITS: u64 = 0x7ff0_0000_0000_0000;

/// The pattern of the largest finite binary64 number.
pub const MAX_FINITE_BITS: u64 = 0x7fef_ffff_ffff_ffff;

/// 2^52: the number of fraction patterns under one exponent, and the weight
/// of the leading bit that a normal number has without storing it.
pub const FRACTION_SPAN: u64 = 0x0010_0000_0000_0000;

/// Whether the pattern has its sign bit set.
pub open spec fn sign_negative(bits: u64) -> bool {
    bits >= SIGN_BIT
}

/// The pattern without its sign bit: exponent and fraction.
pub open spec fn magnitude_bits(bits: u64) -> u64 {
    if bits >= SIGN_BIT {
        (bits - SIGN_BIT) as u64
    } else {
        bits
    }
}

/// Whether the pattern is a NaN: exponent all ones, fraction not zero.
pub open spec fn is_nan(bits: u64) -> bool {
    magnitude_bits(bits) > INFINITY_BITS
}

/// The absolute value that a sign-free pattern denotes, in units of 2^-1074.
///
/// With exponent field `e` and fraction field `f`, a subnormal number
/// (`e == 0`) is `f * 2^-1074` and a normal one is
/// `(2^52 + f) * 2^(e - 1075)`, that is `(2^52 + f) * 2^(e - 1)` units.
/// Infinity, whose exponent field is 2047, gets by the same formula the
/// value 2^2098, which lies above every finite number.
pub open spec fn scaled_magnitude(magnitude: u64) -> nat {
    let exponent = magnitude / FRACTION_SPAN;
    let fraction = magnitude % FRACTION_SPAN;
    if exponent == 0 {
        fraction as nat
    } else {
        (FRACTION_SPAN + fraction) as nat * pow2((exponent - 1) as nat)
    }
}

/// The number that a pattern denotes, in units of 2^-1074. Both zeros are 0.
pub open spec fn scaled_value(bits: u64) -> int {
    if sign_negative(bits) {
        -(scaled_magnitude(magnitude_bits(bits)) as int)
    } else {
        scaled_magnitude(magnitude_bits(bits)) as int
    }
}

/// The place of a pattern on an unsigned scale that runs from the most
/// negative number up to the most positive one, both zeros at `SIGN_BIT`.
pub open spec fn order_key(bits: u64) -> int {
    if sign_negative(bits) {
        SIGN_BIT - magnitude_bits(bits)
    } else {
        SIGN_BIT + magnitude_bits(bits)
    }
}

/// A larger sign-free pattern denotes a larger absolute value.
pub proof fn lemma_scaled_magnitude_strictly_increases(a: u64, b: u64)
    requires
        a < b,
    ensures
        scaled_magnitude(a) < scaled_magnitude(b),
{
    let ea = a / FRACTION_SPAN;
    let fa = a % FRACTION_SPAN;
    let eb = b / FRACTION_SPAN;
    let fb = b % FRACTION_SPAN;
    let span = FRACTION_SPAN as int;
    assert(ea <= eb);
    if ea == eb {
        assert(fa < fb);
        if ea != 0 {
            let p = pow2((ea - 1) as nat) as int;
            lemma_pow2_pos((ea - 1) as nat);
            assert((span + fa) * p < (span + fb) * p) by (nonlinear_arith)
                requires
                    fa < fb,
                    p > 0,
            ;
        }
    } else {
        // Everything under exponent `ea` lies below span * 2^ea, and
        // everything under a larger exponent lies at or above it.
        let step = pow2(ea as nat) as int;
        let pb = pow2((eb - 1) as nat) as int;
        lemma_pow2_pos(ea as nat);
        assert(scaled_magnitude(a) < span * step) by {
            if ea == 0 {
                assert(step >= 1);
                assert(span * step >= span) by (nonlinear_arith)
                    requires
                        step >= 1,
                        span >= 0,
                ;
            } else {
                let pa = pow2((ea - 1) as nat) as int;
                lemma_pow2_unfold(ea as nat);
                lemma_pow2_pos((ea - 1) as nat);
                assert((span + fa) * pa < span * (2 * pa)) by (nonlinear_arith)
                    requires
                        0 <= fa < span,
                        pa > 0,
                ;
            }
        }
        assert(step <= pb) by {
            if ea < eb - 1 {
                lemma_pow2_strictly_increases(ea as nat, (eb - 1) as nat);
            }
        }
        assert(span * step <= (span + fb) * pb) by (nonlinear_arith)
            requires
                0 < step <= pb,
                0 <= fb,
                span > 0,
        ;
    }
}

/// The order key orders patterns as their values do.
pub proof fn lemma_order_key_orders_values(a: u64, b: u64)
    ensures
        order_key(a) < order_key(b) <==> scaled_value(a) < scaled_value(b),
        order_key(a) == order_key(b) <==> scaled_value(a) == scaled_value(b),
{
    let ma = magnitude_bits(a);
    let mb = magnitude_bits(b);
    if ma < mb {
        lemma_scaled_magnitude_strictly_increases(ma, mb);
    } else if mb < ma {
        lemma_scaled_magnitude_strictly_increases(mb, ma);
    }
    // A magnitude is zero only for the pattern of zero.
    if 0 < ma {
        lemma_scaled_magnitude_strictly_increases(0, ma);
    }
    if 0 < mb {
        lemma_scaled_magnitude_strictly_increases(0, mb);
    }
}

/// An expected-hit count: a binary64 number that is not a NaN.
#[derive(Clone, Copy, Debug)]
pub struct Lambda {
    bits: u64,
}

impl View for Lambda {
    type V = int;

    /// The number, in units of 2^-1074; infinity stands at 2^2098.
    open spec fn view(&self) -> int {
        scaled_value(self.bits())
    }
}

impl Lambda {
    /// The IEEE-754 bit pattern of the number.
    pub closed spec fn bits(self) -> u64 {
        self.bits
    }

    /// No `Lambda` holds a NaN.
    #[verifier::type_invariant]
    pub open spec fn well_formed(self) -> bool {
        !is_nan(self.bits())
    }

    /// The lambda with the given bit pattern, unless the pattern is a NaN.
    pub fn from_bits(bits: u64) -> (lambda: Option<Lambda>)
        ensures
            lambda is None <==> is_nan(bits),
            lambda matches Some(l) ==> l.bits() == bits && l.well_formed(),
    {
        let magnitude = if bits >= SIGN_BIT {
            bits - SIGN_BIT
        } else {
            bits
        };
        if magnitude > INFINITY_BITS {
            None
        } else {
            Some(Lambda { bits })
        }
    }

    /// The lambda with the given bit pattern, for a caller that knows that
    /// the pattern is no NaN.
    pub(crate) fn from_number_bits(bits: u64) -> (lambda: Lambda)
        requires
            !is_nan(bits),
        ensures
            lambda.bits() == bits,
    {
        Lambda { bits }
    }

    /// The bit pattern that the lambda was made from.
    pub fn to_bits(&self) -> (bits: u64)
        ensures
            bits == self.bits(),
            !is_nan(bits),
    {
        proof {
            use_type_invariant(self);
        }
        self.bits
    }

    /// The lambda's place on the unsigned scale of `order_key`.
    fn key(&self) -> (key: u64)
        ensures
            key == order_key(self.bits()),
    {
        if self.bits >= SIGN_BIT {
            SIGN_BIT - (self.bits - SIGN_BIT)
        } else {
            SIGN_BIT + self.bits
        }
    }

    /// Whether this number is smaller than the other. Negative zero is not
    /// smaller than positive zero.
    pub fn lt(&self, other: &Lambda) -> (smaller: bool)
        ensures
            smaller == (self@ < other@),
    {
        proof {
            lemma_order_key_orders_values(self.bits(), other.bits());
        }
        self.key() < other.key()
    }
}

} // verus!
