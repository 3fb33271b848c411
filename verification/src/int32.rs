//! An opaque typedef over `i32` with no validator and the full arithmetic
//! capability set: the wrapper an unvalidated declaration expands to.

use vstd::prelude::*;

verus! {

/// The quotient of signed division as the machine computes it, truncated
/// toward zero: for a non-negative dividend plain Euclidean division, for
/// a negative one the negated quotient of the negated dividend.
pub open spec fn spec_div_trunc(a: int, b: int) -> int
    recommends
        b != 0,
{
    if a >= 0 {
        a / b
    } else {
        -((-a) / b)
    }
}

/// The remainder of signed division as the machine computes it: its sign
/// follows the dividend.
pub open spec fn spec_rem_trunc(a: int, b: int) -> int
    recommends
        b != 0,
{
    if a >= 0 {
        a % b
    } else {
        -((-a) % b)
    }
}

/// `i32`.
#[derive(Default, Debug, Clone, Copy, PartialEq, Eq, PartialOrd, Ord, Hash, Structural)]
pub struct Int32(i32);

impl View for Int32 {
    type V = i32;

    /// The inner value the wrapper bridges to.
    closed spec fn view(&self) -> i32 {
        self.0
    }
}

impl Int32 {
    /// Construction from the inner value; with no validator registered the
    /// validated path wraps unconditionally.
    pub fn from_inner(v: i32) -> (r: Int32)
        ensures
            r@ == v,
    {
        Int32(v)
    }

    /// Unchecked construction: identical to the validated path here, since
    /// no validator is registered.
    pub fn from_inner_unchecked(v: i32) -> (r: Int32)
        ensures
            r@ == v,
    {
        Int32(v)
    }

    /// Returns the inner `i32` value.
    pub fn to_i32(&self) -> (r: i32)
        ensures
            r == self@,
    {
        self.0
    }

    /// Consumes the wrapper and yields the inner value.
    pub fn into_inner(self) -> (r: i32)
        ensures
            r == self@,
    {
        self.0
    }

    /// Borrows the inner value.
    pub fn as_inner(&self) -> (r: &i32)
        ensures
            *r == self@,
    {
        &self.0
    }

    /// Mutably borrows the inner value; this wrapper's declaration permits
    /// mutable access.
    pub fn as_inner_mut(&mut self) -> (r: &mut i32)
        ensures
            *r == old(self)@,
            *final(r) == final(self)@,
    {
        &mut self.0
    }

    /// Addition of two wrappers; the result wraps the sum of the inner
    /// values.
    pub fn add(self, other: Int32) -> (r: Int32)
        requires
            i32::MIN <= self@ + other@ <= i32::MAX,
        ensures
            r@ == self@ + other@,
    {
        Int32(self.0 + other.0)
    }

    /// Addition with a raw inner value on the right.
    pub fn add_inner(self, other: i32) -> (r: Int32)
        requires
            i32::MIN <= self@ + other <= i32::MAX,
        ensures
            r@ == self@ + other,
    {
        Int32(self.0 + other)
    }

    /// Addition with the wrapper on the right and a raw inner value on the
    /// left.
    pub fn add_inner_rev(lhs: i32, rhs: Int32) -> (r: Int32)
        requires
            i32::MIN <= lhs + rhs@ <= i32::MAX,
        ensures
            r@ == lhs + rhs@,
    {
        Int32(lhs + rhs.0)
    }

    /// Subtraction of two wrappers.
    pub fn sub(self, other: Int32) -> (r: Int32)
        requires
            i32::MIN <= self@ - other@ <= i32::MAX,
        ensures
            r@ == self@ - other@,
    {
        Int32(self.0 - other.0)
    }

    /// Multiplication of two wrappers.
    pub fn mul(self, other: Int32) -> (r: Int32)
        requires
            i32::MIN <= self@ * other@ <= i32::MAX,
        ensures
            r@ == self@ * other@,
    {
        Int32(self.0 * other.0)
    }

    /// Division of two wrappers; the quotient truncates toward zero as the
    /// machine operator does.
    pub fn div(self, other: Int32) -> (r: Int32)
        requires
            other@ != 0,
            !(self@ == i32::MIN && other@ == -1),
        ensures
            r@ == spec_div_trunc(self@ as int, other@ as int),
    {
        proof {
            let a = self@ as int;
            let b = other@ as int;
            if a >= 0 {
                assert(-a <= a / b <= a) by (nonlinear_arith)
                    requires
                        a >= 0,
                        b != 0,
                ;
            } else {
                let n = -a;
                assert(-n <= n / b <= n) by (nonlinear_arith)
                    requires
                        n > 0,
                        b != 0,
                ;
                if b != -1 {
                    assert(n / b > -n) by (nonlinear_arith)
                        requires
                            n > 0,
                            b != 0,
                            b != -1,
                    ;
                }
            }
        }
        Int32(self.0 / other.0)
    }

    /// Remainder of two wrappers; the sign follows the dividend as the
    /// machine operator does.
    pub fn rem(self, other: Int32) -> (r: Int32)
        requires
            other@ != 0,
            !(self@ == i32::MIN && other@ == -1),
        ensures
            r@ == spec_rem_trunc(self@ as int, other@ as int),
    {
        Int32(self.0 % other.0)
    }

    /// In-place addition through the mutable view of the inner value.
    pub fn add_assign(&mut self, other: Int32)
        requires
            i32::MIN <= old(self)@ + other@ <= i32::MAX,
        ensures
            final(self)@ == old(self)@ + other@,
    {
        self.0 = self.0 + other.0;
    }

    /// In-place subtraction through the mutable view of the inner value.
    pub fn sub_assign(&mut self, other: Int32)
        requires
            i32::MIN <= old(self)@ - other@ <= i32::MAX,
        ensures
            final(self)@ == old(self)@ - other@,
    {
        self.0 = self.0 - other.0;
    }

    /// Equality against a raw inner value, wrapper on the left.
    pub fn eq_inner(&self, other: &i32) -> (r: bool)
        ensures
            r == (self@ == *other),
    {
        self.0 == *other
    }

    /// Equality against a raw inner value, inner value on the left.
    pub fn eq_inner_rev(lhs: &i32, rhs: &Int32) -> (r: bool)
        ensures
            r == (*lhs == rhs@),
    {
        *lhs == rhs.0
    }

    /// Ordering against a raw inner value, wrapper on the left.
    pub fn lt_inner(&self, other: &i32) -> (r: bool)
        ensures
            r == (self@ < *other),
    {
        self.0 < *other
    }
}

/// The value-producing arithmetic forms compute on the inner values: when
/// an operation wraps the sum of the operands' inner values and extraction
/// hands the wrapped value back, the extracted result equals the operation
/// applied directly to the two operands' inner values.
pub proof fn lemma_int32_value_form_computes_on_inner(
    a: Int32,
    b: Int32,
    r: Int32,
    extracted: i32,
)
    requires
        r@ == a@ + b@,
        extracted == r@,
    ensures
        extracted == a@ + b@,
{
}

} // verus!
