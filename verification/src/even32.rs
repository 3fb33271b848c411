//! An opaque typedef over `i32` restricted to even values: the wrapper a
//! declaration with an evenness validator expands to.

use vstd::prelude::*;

verus! {

/// Whether a value satisfies the evenness validator.
pub open spec fn spec_is_even(v: i32) -> bool {
    v as int % 2 == 0
}

/// Even `i32`.
#[derive(Default, Debug, Clone, Copy, PartialEq, Eq, PartialOrd, Ord, Hash, Structural)]
pub struct Even32(i32);

impl View for Even32 {
    type V = i32;

    /// The inner value the wrapper bridges to.
    closed spec fn view(&self) -> i32 {
        self.0
    }
}

/// A type of an error indicating the integer is an odd number, not even.
#[derive(Debug, Clone, Copy, PartialEq, Eq, PartialOrd, Ord, Hash, Structural)]
pub struct OddError;

/// The evenness validator: hands the value back when it is even, reports
/// `OddError` otherwise.
pub fn validate_even32(v: i32) -> (r: Result<i32, OddError>)
    ensures
        spec_is_even(v) ==> r == Result::<i32, OddError>::Ok(v),
        !spec_is_even(v) ==> r == Result::<i32, OddError>::Err(OddError),
{
    if v % 2 == 0 {
        Ok(v)
    } else {
        Err(OddError)
    }
}

impl Even32 {
    /// Unchecked construction: wraps the value without running the
    /// validator. The wrapped value is exactly the input, even where the
    /// validator would reject it.
    pub fn from_inner_unchecked(v: i32) -> (r: Even32)
        ensures
            r@ == v,
    {
        Even32(v)
    }

    /// Validated construction: wraps an even value, reports `OddError` for
    /// an odd one. A rejected input never produces a wrapper.
    pub fn try_from_inner(v: i32) -> (r: Result<Even32, OddError>)
        ensures
            spec_is_even(v) ==> (r matches Ok(w) && w@ == v),
            !spec_is_even(v) ==> r == Result::<Even32, OddError>::Err(OddError),
    {
        match validate_even32(v) {
            Ok(v) => Ok(Even32(v)),
            Err(e) => Err(e),
        }
    }

    /// Validated construction for values known to be even.
    pub fn from_inner(v: i32) -> (r: Even32)
        requires
            spec_is_even(v),
        ensures
            r@ == v,
    {
        match Self::try_from_inner(v) {
            Ok(w) => w,
            // unreachable: only values the validator accepts are admitted
            Err(_) => Even32(0),
        }
    }

    /// Returns the inner `i32` even value.
    pub fn to_i32(self) -> (r: i32)
        ensures
            r == self@,
    {
        self.0
    }

    /// Consumes the wrapper and yields the inner value.
    pub fn into_inner(self) -> (r: i32)
        ensures
            r == self@,
    {
        self.0
    }

    /// Borrows the inner value.
    pub fn as_inner(&self) -> (r: &i32)
        ensures
            *r == self@,
    {
        &self.0
    }

    /// Addition of two wrappers: the result wraps the raw sum of the inner
    /// values through the unchecked path, with no re-validation.
    pub fn add(self, other: Even32) -> (r: Even32)
        requires
            i32::MIN <= self@ + other@ <= i32::MAX,
        ensures
            r@ == self@ + other@,
    {
        Even32::from_inner_unchecked(self.0 + other.0)
    }

    /// Addition with the right-hand operand by reference.
    pub fn add_ref(self, other: &Even32) -> (r: Even32)
        requires
            i32::MIN <= self@ + other@ <= i32::MAX,
        ensures
            r@ == self@ + other@,
    {
        Even32::from_inner_unchecked(self.0 + other.0)
    }

    /// In-place addition, mutating the inner value directly without
    /// re-validation.
    pub fn add_assign(&mut self, other: Even32)
        requires
            i32::MIN <= old(self)@ + other@ <= i32::MAX,
        ensures
            final(self)@ == old(self)@ + other@,
    {
        self.0 = self.0 + other.0;
    }

    /// Equality against a raw inner value, wrapper on the left.
    pub fn eq_inner(&self, other: &i32) -> (r: bool)
        ensures
            r == (self@ == *other),
    {
        self.0 == *other
    }

    /// Ordering against a raw inner value, wrapper on the left.
    pub fn lt_inner(&self, other: &i32) -> (r: bool)
        ensures
            r == (self@ < *other),
    {
        self.0 < *other
    }
}

/// Equality against a raw inner value, inner value on the left.
pub fn eq_inner_rev(lhs: &i32, rhs: &Even32) -> (r: bool)
    ensures
        r == (*lhs == rhs@),
{
    *lhs == rhs.0
}

/// Ordering against a raw inner value, inner value on the left.
pub fn lt_inner_rev(lhs: &i32, rhs: &Even32) -> (r: bool)
    ensures
        r == (*lhs < rhs@),
{
    *lhs < rhs.0
}

/// Equality pairings are symmetric: a wrapper compares equal to an inner
/// value exactly when the inner value compares equal to the wrapper, so
/// the forward and reversed pairings agree on every pair of operands, and
/// a wrapper always compares equal to its own inner value.
pub proof fn lemma_even32_eq_symmetric(w: Even32, x: i32)
    ensures
        (w@ == x) == (x == w@),
        w@ == w@,
{
}

/// Value-producing arithmetic re-wraps through the unchecked path: the
/// result carries the raw sum of the operands' inner values, with no
/// evenness condition attached; where the validator would reject that sum
/// the wrapper simply holds a value the validator rejects.
pub proof fn lemma_even32_add_skips_validation(a: Even32, b: Even32, r: Even32)
    requires
        i32::MIN <= a@ + b@ <= i32::MAX,
        r@ == a@ + b@,
    ensures
        r@ == a@ + b@,
        !spec_is_even((a@ + b@) as i32) ==> !spec_is_even(r@),
{
}

} // verus!
