use vstd::prelude::*;

verus! {

/// The sign bit of a binary32 encoding.
pub const SIGN_BIT: u32 = 0x8000_0000;

/// The encoding of positive infinity. A larger magnitude encodes a NaN.
pub const INFINITY_BITS: u32 = 0x7f80_0000;

/// An IEEE 754 binary32 number, held by its encoding.
///
/// The library never computes with a scalar: it stores, compares and selects.
/// Two scalars are the same number when their keys agree, which identifies the
/// two zeros; `==` on the struct compares encodings.
#[derive(Clone, Copy, Debug, PartialEq, Eq, Structural)]
pub struct Scalar {
    pub bits: u32,
}

impl View for Scalar {
    type V = int;

    /// The position of the number among the binary32 numbers, zero at zero.
    open spec fn view(&self) -> int {
        self.key()
    }
}

impl Scalar {
    /// The encoding without its sign bit.
    pub open spec fn magnitude(self) -> int {
        if self.bits >= SIGN_BIT {
            self.bits - SIGN_BIT
        } else {
            self.bits as int
        }
    }

    /// Whether the encoding is one of the NaNs.
    pub open spec fn is_nan_spec(self) -> bool {
        self.magnitude() > INFINITY_BITS
    }

    /// The signed magnitude. On numbers that are not NaN it is strictly
    /// monotone in the value, and both zeros have key zero.
    pub open spec fn key(self) -> int {
        if self.bits >= SIGN_BIT {
            -self.magnitude()
        } else {
            self.magnitude()
        }
    }

    /// `self < other` as IEEE 754 orders them: false when either is NaN.
    pub open spec fn lt_spec(self, other: Scalar) -> bool {
        !self.is_nan_spec() && !other.is_nan_spec() && self.key() < other.key()
    }

    /// `self <= other` as IEEE 754 orders them: false when either is NaN.
    pub open spec fn le_spec(self, other: Scalar) -> bool {
        !self.is_nan_spec() && !other.is_nan_spec() && self.key() <= other.key()
    }

    /// Numeric equality: false when either is NaN, true of the two zeros.
    pub open spec fn same_spec(self, other: Scalar) -> bool {
        !self.is_nan_spec() && !other.is_nan_spec() && self.key() == other.key()
    }

    /// The smaller of two numbers; a NaN loses against a number.
    pub open spec fn min_spec(self, other: Scalar) -> Scalar {
        if self.is_nan_spec() {
            other
        } else if other.lt_spec(self) {
            other
        } else {
            self
        }
    }

    /// The larger of two numbers; a NaN loses against a number.
    pub open spec fn max_spec(self, other: Scalar) -> Scalar {
        if self.is_nan_spec() {
            other
        } else if self.lt_spec(other) {
            other
        } else {
            self
        }
    }

    /// The number with the opposite sign.
    pub open spec fn neg_spec(self) -> Scalar {
        if self.bits >= SIGN_BIT {
            Scalar { bits: (self.bits - SIGN_BIT) as u32 }
        } else {
            Scalar { bits: (self.bits + SIGN_BIT) as u32 }
        }
    }

    /// The number with its sign cleared.
    pub open spec fn abs_spec(self) -> Scalar {
        Scalar { bits: self.magnitude() as u32 }
    }

    /// The number held to the interval `[lo, hi]`; a NaN stays a NaN.
    pub open spec fn clamp_spec(self, lo: Scalar, hi: Scalar) -> Scalar {
        if self.lt_spec(lo) {
            lo
        } else if hi.lt_spec(self) {
            hi
        } else {
            self
        }
    }

    /// `lo <= self < hi`, the half-open range test.
    pub open spec fn in_range_spec(self, lo: Scalar, hi: Scalar) -> bool {
        lo.le_spec(self) && self.lt_spec(hi)
    }

    /// The number with the given encoding.
    pub fn from_bits(bits: u32) -> (s: Scalar)
        ensures
            s.bits == bits,
    {
        Scalar { bits }
    }

    /// The encoding of the number.
    pub fn to_bits(self) -> (bits: u32)
        ensures
            bits == self.bits,
    {
        self.bits
    }

    /// Positive zero.
    pub fn zero() -> (s: Scalar)
        ensures
            s.bits == 0,
            s@ == 0,
            !s.is_nan_spec(),
    {
        Scalar { bits: 0 }
    }

    /// The number one.
    pub fn one() -> (s: Scalar)
        ensures
            s.bits == 0x3f80_0000,
            !s.is_nan_spec(),
    {
        Scalar { bits: 0x3f80_0000 }
    }

    /// Positive infinity: no number is above it.
    pub fn infinity() -> (s: Scalar)
        ensures
            s.bits == INFINITY_BITS,
            !s.is_nan_spec(),
            forall|x: Scalar| !x.is_nan_spec() ==> x.le_spec(s),
    {
        Scalar { bits: INFINITY_BITS }
    }

    /// Negative infinity: no number is below it.
    pub fn neg_infinity() -> (s: Scalar)
        ensures
            s.bits == 0xff80_0000,
            !s.is_nan_spec(),
            forall|x: Scalar| !x.is_nan_spec() ==> s.le_spec(x),
    {
        Scalar { bits: 0xff80_0000 }
    }

    /// Whether the encoding is one of the NaNs.
    pub fn is_nan(self) -> (r: bool)
        ensures
            r == self.is_nan_spec(),
    {
        if self.bits >= SIGN_BIT {
            self.bits - SIGN_BIT > INFINITY_BITS
        } else {
            self.bits > INFINITY_BITS
        }
    }

    /// The key as a machine integer.
    pub fn ordinal(self) -> (k: i64)
        ensures
            k == self.key(),
            k == self@,
    {
        if self.bits >= SIGN_BIT {
            let m: u32 = self.bits - SIGN_BIT;
            0i64 - (m as i64)
        } else {
            self.bits as i64
        }
    }

    /// `self < other`; false when either is NaN.
    pub fn lt(self, other: Scalar) -> (r: bool)
        ensures
            r == self.lt_spec(other),
    {
        !self.is_nan() && !other.is_nan() && self.ordinal() < other.ordinal()
    }

    /// `self <= other`; false when either is NaN.
    pub fn le(self, other: Scalar) -> (r: bool)
        ensures
            r == self.le_spec(other),
    {
        !self.is_nan() && !other.is_nan() && self.ordinal() <= other.ordinal()
    }

    /// `self > other`; false when either is NaN.
    pub fn gt(self, other: Scalar) -> (r: bool)
        ensures
            r == other.lt_spec(self),
    {
        other.lt(self)
    }

    /// `self >= other`; false when either is NaN.
    pub fn ge(self, other: Scalar) -> (r: bool)
        ensures
            r == other.le_spec(self),
    {
        other.le(self)
    }

    /// Numeric equality, as `==` on two floating-point numbers.
    pub fn same(self, other: Scalar) -> (r: bool)
        ensures
            r == self.same_spec(other),
    {
        !self.is_nan() && !other.is_nan() && self.ordinal() == other.ordinal()
    }

    /// The smaller of two numbers; a NaN loses against a number.
    pub fn min(self, other: Scalar) -> (r: Scalar)
        ensures
            r == self.min_spec(other),
    {
        if self.is_nan() {
            other
        } else if other.lt(self) {
            other
        } else {
            self
        }
    }

    /// The larger of two numbers; a NaN loses against a number.
    pub fn max(self, other: Scalar) -> (r: Scalar)
        ensures
            r == self.max_spec(other),
    {
        if self.is_nan() {
            other
        } else if self.lt(other) {
            other
        } else {
            self
        }
    }

    /// The number with the opposite sign.
    pub fn neg(self) -> (r: Scalar)
        ensures
            r == self.neg_spec(),
            r@ == -self@,
            r.is_nan_spec() == self.is_nan_spec(),
    {
        if self.bits >= SIGN_BIT {
            Scalar { bits: self.bits - SIGN_BIT }
        } else {
            Scalar { bits: self.bits + SIGN_BIT }
        }
    }

    /// The number with its sign cleared.
    pub fn abs(self) -> (r: Scalar)
        ensures
            r == self.abs_spec(),
            r@ == if self@ < 0 { -self@ } else { self@ },
            r.is_nan_spec() == self.is_nan_spec(),
    {
        if self.bits >= SIGN_BIT {
            Scalar { bits: self.bits - SIGN_BIT }
        } else {
            self
        }
    }

    /// Holds the number to `[lo, hi]`.
    pub fn clamp(self, lo: Scalar, hi: Scalar) -> (r: Scalar)
        requires
            lo.le_spec(hi),
        ensures
            r == self.clamp_spec(lo, hi),
            !self.is_nan_spec() ==> lo.le_spec(r) && r.le_spec(hi),
    {
        if self.lt(lo) {
            lo
        } else if self.gt(hi) {
            hi
        } else {
            self
        }
    }

    /// Whether `lo <= self < hi`.
    pub fn in_range(self, lo: Scalar, hi: Scalar) -> (r: bool)
        ensures
            r == self.in_range_spec(lo, hi),
    {
        lo.le(self) && self.lt(hi)
    }
}

/// On numbers, `min` and `max` are the minimum and maximum of the keys,
/// whatever the order of the arguments.
pub proof fn lemma_min_max_keys(a: Scalar, b: Scalar)
    requires
        !a.is_nan_spec(),
        !b.is_nan_spec(),
    ensures
        !a.min_spec(b).is_nan_spec(),
        !a.max_spec(b).is_nan_spec(),
        a.min_spec(b)@ == if a@ <= b@ { a@ } else { b@ },
        a.max_spec(b)@ == if a@ >= b@ { a@ } else { b@ },
        a.min_spec(b)@ == b.min_spec(a)@,
        a.max_spec(b)@ == b.max_spec(a)@,
{
}

} // verus!
