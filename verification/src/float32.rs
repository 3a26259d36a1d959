//! Single-precision numbers, by their bits.
//!
//! Models report probabilities, volumes and ratios as floating-point numbers. Nothing is computed
//! with them here; they are only compared, and that can be told from their bits.
use vstd::prelude::*;

verus! {

/// Bits of positive infinity. A larger magnitude is no number.
pub const INFINITY_BITS: u32 = 0x7f80_0000;

/// The sign bit.
pub const SIGN_BIT: u32 = 0x8000_0000;

/// An IEEE 754 single-precision number, by its bits.
#[derive(Clone, Copy, Debug, PartialEq, Eq, Structural)]
pub struct Float32 {
    pub bits: u32,
}

impl Float32 {
    /// The bits without the sign.
    pub open spec fn magnitude(self) -> int {
        if self.bits >= SIGN_BIT {
            self.bits - SIGN_BIT
        } else {
            self.bits as int
        }
    }

    /// Whether the bits stand for no number.
    pub open spec fn is_nan(self) -> bool {
        self.magnitude() > INFINITY_BITS
    }

    /// The place of a number among all numbers: a larger number has a larger rank, and both zeros
    /// have the same.
    pub open spec fn rank(self) -> int {
        if self.bits >= SIGN_BIT {
            -self.magnitude()
        } else {
            self.magnitude()
        }
    }

    /// Both are numbers, so that they compare.
    pub open spec fn comparable(self, other: Float32) -> bool {
        !self.is_nan() && !other.is_nan()
    }

    /// `self >= other`.
    pub open spec fn is_at_least(self, other: Float32) -> bool {
        self.comparable(other) && self.rank() >= other.rank()
    }

    /// `self > other`.
    pub open spec fn is_above(self, other: Float32) -> bool {
        self.comparable(other) && self.rank() > other.rank()
    }

    /// The rank of a number; none where the bits stand for no number.
    fn place(self) -> (r: Option<i64>)
        ensures
            r is None <==> self.is_nan(),
            r matches Some(k) ==> k == self.rank(),
    {
        let negative = self.bits >= SIGN_BIT;
        let magnitude: u32 = if negative {
            self.bits - SIGN_BIT
        } else {
            self.bits
        };
        if magnitude > INFINITY_BITS {
            None
        } else if negative {
            Some(-(magnitude as i64))
        } else {
            Some(magnitude as i64)
        }
    }

    /// Whether `self >= other`.
    pub fn at_least(self, other: Float32) -> (r: bool)
        ensures
            r == self.is_at_least(other),
    {
        match (self.place(), other.place()) {
            (Some(a), Some(b)) => a >= b,
            _ => false,
        }
    }

    /// Whether `self > other`.
    pub fn above(self, other: Float32) -> (r: bool)
        ensures
            r == self.is_above(other),
    {
        match (self.place(), other.place()) {
            (Some(a), Some(b)) => a > b,
            _ => false,
        }
    }
}

/// Numbers are ordered: of two, exactly one of "at least" and "below" holds, and the order carries
/// over. What is no number compares to nothing, not even to itself.
pub proof fn law_numbers_are_ordered(a: Float32, b: Float32, c: Float32)
    ensures
        a.comparable(b) ==> (a.is_at_least(b) <==> !b.is_above(a)),
        a.is_at_least(b) && b.is_at_least(c) ==> a.is_at_least(c),
        a.is_nan() ==> !a.is_at_least(b) && !b.is_at_least(a) && !a.is_above(b) && !b.is_above(a),
{
}

impl Float32 {
    /// The magnitude of a number in units of the smallest positive one, 2 to the power of -149: below
    /// the first 2^23 steps of the bits each counts one unit, and with every further 2^23 steps each
    /// counts twice as much. Infinity stands one step above the largest number.
    pub open spec fn units(self) -> int {
        let m = self.magnitude();
        if m < 0x80_0000 {
            m
        } else {
            (0x80_0000 + m % 0x80_0000) * vstd::arithmetic::power2::pow2((m / 0x80_0000 - 1) as nat)
        }
    }

    /// The number itself, in the same units.
    pub open spec fn value(self) -> int {
        if self.bits >= SIGN_BIT {
            -self.units()
        } else {
            self.units()
        }
    }
}

/// A step of the bits is a step of the number.
proof fn lemma_units_rise(a: Float32, b: Float32)
    requires
        a.magnitude() < b.magnitude(),
    ensures
        0 <= a.units() < b.units(),
{
    let (x, y) = (a.magnitude(), b.magnitude());
    let (ex, ey) = (x / 0x80_0000, y / 0x80_0000);
    let (mx, my) = (x % 0x80_0000, y % 0x80_0000);
    if y >= 0x80_0000 {
        let py = vstd::arithmetic::power2::pow2((ey - 1) as nat) as int;
        vstd::arithmetic::power2::lemma_pow2_pos((ey - 1) as nat);
        assert((0x80_0000 + my) * py >= 0x80_0000 * py) by (nonlinear_arith)
            requires
                py > 0,
                my >= 0,
        ;
        if x >= 0x80_0000 {
            let px = vstd::arithmetic::power2::pow2((ex - 1) as nat) as int;
            vstd::arithmetic::power2::lemma_pow2_pos((ex - 1) as nat);
            assert((0x80_0000 + mx) * px >= 0) by (nonlinear_arith)
                requires
                    px > 0,
                    mx >= 0,
            ;
            if ex == ey {
                assert((0x80_0000 + mx) * px < (0x80_0000 + my) * px) by (nonlinear_arith)
                    requires
                        px > 0,
                        mx < my,
                ;
            } else {
                vstd::arithmetic::power2::lemma_pow2_unfold(ex as nat);
                if ex < ey - 1 {
                    vstd::arithmetic::power2::lemma_pow2_strictly_increases(
                        ex as nat,
                        (ey - 1) as nat,
                    );
                }
                assert((0x80_0000 + mx) * px < 0x80_0000 * py) by (nonlinear_arith)
                    requires
                        px > 0,
                        mx < 0x80_0000,
                        2 * px <= py,
                ;
            }
        }
    }
}

/// Numbers compare by what they stand for: one is above another exactly where it is larger, and at
/// least another where it is not smaller.
pub proof fn law_numbers_compare_by_value(a: Float32, b: Float32)
    requires
        a.comparable(b),
    ensures
        a.is_above(b) <==> a.value() > b.value(),
        a.is_at_least(b) <==> a.value() >= b.value(),
{
    if a.magnitude() < b.magnitude() {
        lemma_units_rise(a, b);
    } else if b.magnitude() < a.magnitude() {
        lemma_units_rise(b, a);
    }
    let zero = Float32 { bits: 0 };
    if a.magnitude() > 0 {
        lemma_units_rise(zero, a);
    }
    if b.magnitude() > 0 {
        lemma_units_rise(zero, b);
    }
}

} // verus!
