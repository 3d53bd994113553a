//! A two-axis vector of `i32` values and its component-wise arithmetic.
//!
//! Every operator is exact: its precondition asks that each component of the
//! result can be held by an `i32`, and its result is the mathematical one.

use vstd::prelude::*;
use vstd::pervasive::unreached;
use vstd::std_specs::ops::{AddSpecImpl, DivSpecImpl, MulSpecImpl, NegSpecImpl, SubSpecImpl};
use std::ops::{Add, Div, Index, Mul, Neg, Sub};

verus! {

/// A 2 axis vector of `i32` values.
#[derive(Debug, Copy, Clone, PartialEq, Eq, Structural)]
pub struct Vector2i {
    pub x: i32,
    pub y: i32,
}

/// Whether `v` can be held by an `i32`.
pub open spec fn fits_i32(v: int) -> bool {
    i32::MIN <= v <= i32::MAX
}

/// The quotient of `a` by `b` rounded toward zero.
pub open spec fn trunc_div(a: int, b: int) -> int
    recommends
        b != 0,
{
    if a >= 0 {
        a / b
    } else {
        -((-a) / b)
    }
}

impl Vector2i {
    /// Returns a new `Vector2i`.
    pub fn new(x: i32, y: i32) -> (v: Vector2i)
        ensures
            v == (Vector2i { x, y }),
    {
        Vector2i { x, y }
    }

    /// The component at `index`: `x` at 0, `y` at 1.
    pub open spec fn component(self, index: int) -> i32
        recommends
            0 <= index < 2,
    {
        if index == 0 {
            self.x
        } else {
            self.y
        }
    }

    /// This vector with the component at `index` replaced by `value`.
    pub open spec fn with_component(self, index: int, value: i32) -> Vector2i
        recommends
            0 <= index < 2,
    {
        if index == 0 {
            Vector2i { x: value, y: self.y }
        } else {
            Vector2i { x: self.x, y: value }
        }
    }

    /// The component at `index`, to be written: `x` at 0, `y` at 1. No other
    /// index is admitted. What the caller stores through the reference is
    /// the only change to the vector.
    pub fn index_mut(&mut self, index: usize) -> (value: &mut i32)
        requires
            index < 2,
        ensures
            *value == old(self).component(index as int),
            *final(self) == old(self).with_component(index as int, *final(value)),
    {
        match index {
            0 => &mut self.x,
            1 => &mut self.y,
            _ => unreached(),
        }
    }
}

impl AddSpecImpl for Vector2i {
    open spec fn obeys_add_spec() -> bool {
        true
    }

    open spec fn add_req(self, other: Vector2i) -> bool {
        fits_i32(self.x + other.x) && fits_i32(self.y + other.y)
    }

    open spec fn add_spec(self, other: Vector2i) -> Vector2i {
        Vector2i { x: (self.x + other.x) as i32, y: (self.y + other.y) as i32 }
    }
}

impl Add for Vector2i {
    type Output = Vector2i;

    /// The component-wise sum.
    fn add(self, other: Vector2i) -> (sum: Vector2i)
        ensures
            sum.x == self.x + other.x,
            sum.y == self.y + other.y,
    {
        Vector2i { x: self.x + other.x, y: self.y + other.y }
    }
}

impl SubSpecImpl for Vector2i {
    open spec fn obeys_sub_spec() -> bool {
        true
    }

    open spec fn sub_req(self, other: Vector2i) -> bool {
        fits_i32(self.x - other.x) && fits_i32(self.y - other.y)
    }

    open spec fn sub_spec(self, other: Vector2i) -> Vector2i {
        Vector2i { x: (self.x - other.x) as i32, y: (self.y - other.y) as i32 }
    }
}

impl Sub for Vector2i {
    type Output = Vector2i;

    /// The component-wise difference.
    fn sub(self, other: Vector2i) -> (difference: Vector2i)
        ensures
            difference.x == self.x - other.x,
            difference.y == self.y - other.y,
    {
        Vector2i { x: self.x - other.x, y: self.y - other.y }
    }
}

impl MulSpecImpl<i32> for Vector2i {
    open spec fn obeys_mul_spec() -> bool {
        true
    }

    open spec fn mul_req(self, other: i32) -> bool {
        fits_i32(self.x * other) && fits_i32(self.y * other)
    }

    open spec fn mul_spec(self, other: i32) -> Vector2i {
        Vector2i { x: (self.x * other) as i32, y: (self.y * other) as i32 }
    }
}

impl Mul<i32> for Vector2i {
    type Output = Vector2i;

    /// Both components multiplied by the scalar `other`.
    fn mul(self, other: i32) -> (product: Vector2i)
        ensures
            product.x == self.x * other,
            product.y == self.y * other,
    {
        Vector2i { x: self.x * other, y: self.y * other }
    }
}

impl MulSpecImpl<Vector2i> for i32 {
    open spec fn obeys_mul_spec() -> bool {
        true
    }

    open spec fn mul_req(self, other: Vector2i) -> bool {
        fits_i32(self * other.x) && fits_i32(self * other.y)
    }

    open spec fn mul_spec(self, other: Vector2i) -> Vector2i {
        Vector2i { x: (self * other.x) as i32, y: (self * other.y) as i32 }
    }
}

impl Mul<Vector2i> for i32 {
    type Output = Vector2i;

    /// Both components of `other` multiplied by the scalar on the left.
    fn mul(self, other: Vector2i) -> (product: Vector2i)
        ensures
            product.x == self * other.x,
            product.y == self * other.y,
    {
        Vector2i { x: self * other.x, y: self * other.y }
    }
}

impl MulSpecImpl<Vector2i> for Vector2i {
    open spec fn obeys_mul_spec() -> bool {
        true
    }

    open spec fn mul_req(self, other: Vector2i) -> bool {
        fits_i32(self.x * other.x) && fits_i32(self.y * other.y)
    }

    open spec fn mul_spec(self, other: Vector2i) -> Vector2i {
        Vector2i { x: (self.x * other.x) as i32, y: (self.y * other.y) as i32 }
    }
}

impl Mul<Vector2i> for Vector2i {
    type Output = Vector2i;

    /// The component-wise product.
    fn mul(self, other: Vector2i) -> (product: Vector2i)
        ensures
            product.x == self.x * other.x,
            product.y == self.y * other.y,
    {
        Vector2i { x: self.x * other.x, y: self.y * other.y }
    }
}

impl DivSpecImpl<i32> for Vector2i {
    open spec fn obeys_div_spec() -> bool {
        true
    }

    open spec fn div_req(self, other: i32) -> bool {
        other != 0 && fits_i32(trunc_div(self.x as int, other as int)) && fits_i32(
            trunc_div(self.y as int, other as int),
        )
    }

    open spec fn div_spec(self, other: i32) -> Vector2i {
        Vector2i {
            x: trunc_div(self.x as int, other as int) as i32,
            y: trunc_div(self.y as int, other as int) as i32,
        }
    }
}

impl Div<i32> for Vector2i {
    type Output = Vector2i;

    /// Both components divided by the scalar `other`, each quotient rounded
    /// toward zero.
    fn div(self, other: i32) -> (quotient: Vector2i)
        ensures
            quotient.x == trunc_div(self.x as int, other as int),
            quotient.y == trunc_div(self.y as int, other as int),
    {
        proof {
            lemma_trunc_div_overflow(self.x, other);
            lemma_trunc_div_overflow(self.y, other);
        }
        Vector2i { x: self.x / other, y: self.y / other }
    }
}

impl NegSpecImpl for Vector2i {
    open spec fn obeys_neg_spec() -> bool {
        true
    }

    open spec fn neg_req(self) -> bool {
        fits_i32(-self.x) && fits_i32(-self.y)
    }

    open spec fn neg_spec(self) -> Vector2i {
        Vector2i { x: (-self.x) as i32, y: (-self.y) as i32 }
    }
}

impl Neg for Vector2i {
    type Output = Vector2i;

    /// Both components negated.
    fn neg(self) -> (negated: Vector2i)
        ensures
            negated.x == -self.x,
            negated.y == -self.y,
    {
        Vector2i { x: -self.x, y: -self.y }
    }
}

impl vstd::std_specs::core::IndexSpecImpl<usize> for Vector2i {
    open spec fn index_req(&self, index: &usize) -> bool {
        *index < 2
    }
}

impl Index<usize> for Vector2i {
    type Output = i32;

    /// The component at `index`: `x` at 0, `y` at 1. No other index is
    /// admitted.
    fn index(&self, index: usize) -> (value: &i32)
        ensures
            *value == self.component(index as int),
    {
        match index {
            0 => &self.x,
            1 => &self.y,
            _ => unreached(),
        }
    }
}

/// Division toward zero leaves a remainder smaller in size than the
/// divisor, of the sign of the dividend wherever it is not zero.
pub proof fn lemma_trunc_div_remainder(a: int, b: int)
    requires
        b != 0,
    ensures
        ({
            let r = a - trunc_div(a, b) * b;
            &&& (-b < r < b) || (b < r < -b)
            &&& a >= 0 ==> r >= 0
            &&& a <= 0 ==> r <= 0
        }),
{
    let n: int = if a >= 0 { a } else { -a };
    let q = n / b;
    let rem = n - q * b;
    assert(0 <= rem && (rem < b || rem < -b) && (n == 0 ==> rem == 0)) by (nonlinear_arith)
        requires
            q == n / b,
            rem == n - q * b,
            b != 0,
    ;
    if a >= 0 {
        assert(a - trunc_div(a, b) * b == rem);
    } else {
        assert(trunc_div(a, b) == -q);
        assert((-q) * b == -(q * b)) by (nonlinear_arith);
        assert(a - trunc_div(a, b) * b == -rem);
    }
}

/// The only quotient of two `i32` values that no `i32` holds is that of the
/// least value by -1.
proof fn lemma_trunc_div_overflow(a: i32, b: i32)
    requires
        b != 0,
    ensures
        fits_i32(trunc_div(a as int, b as int)) <==> !(a == i32::MIN && b == -1),
{
    let n: int = if a >= 0 { a as int } else { -(a as int) };
    assert(0 <= n <= 0x8000_0000);
    if b > 0 {
        assert(0 <= n / (b as int) <= n) by (nonlinear_arith)
            requires
                0 <= n,
                b > 0,
        ;
    } else {
        let m: int = -(b as int);
        assert(n / (b as int) == -(n / m)) by (nonlinear_arith)
            requires
                0 <= n,
                m > 0,
                m == -(b as int),
        ;
        assert(0 <= n / m <= n) by (nonlinear_arith)
            requires
                0 <= n,
                m > 0,
        ;
        if b == -1 {
            assert(n / m == n) by (nonlinear_arith)
                requires
                    m == 1,
            ;
        } else {
            assert(n / m <= n / 2) by (nonlinear_arith)
                requires
                    0 <= n,
                    m >= 2,
            ;
        }
    }
}

} // verus!
