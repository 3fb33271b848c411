//! Opaque typedefs over `[T]` and `Vec<T>` restricted to at least two
//! items: the wrappers a declaration with a length validator expands to.
//! The slice wrapper borrows its inner value, the vector wrapper owns it.

use vstd::prelude::*;

verus! {

/// A type of an error indicating the number of the items are too few;
/// carries the offending length.
#[derive(Debug, Clone, Copy, PartialEq, Eq, PartialOrd, Ord, Hash, Structural)]
pub struct TooFewItems(pub usize);

/// The length validator: hands the slice back when it has at least two
/// items, reports `TooFewItems` with the offending length otherwise.
pub fn ensure_at_least_2_items<T>(v: &[T]) -> (r: Result<&[T], TooFewItems>)
    ensures
        v@.len() >= 2 ==> (r matches Ok(s) && s@ == v@),
        v@.len() < 2 ==> (r matches Err(e) && e == TooFewItems(v@.len() as usize)),
{
    let len = v.len();
    if len >= 2 {
        Ok(v)
    } else {
        Err(TooFewItems(len))
    }
}

/// Slice with at least 2 items, borrowed from the caller.
#[derive(Debug)]
pub struct SliceAtLeast2Items<'a, T> {
    inner: &'a [T],
}

impl<'a, T> View for SliceAtLeast2Items<'a, T> {
    type V = Seq<T>;

    /// The contents of the inner slice.
    closed spec fn view(&self) -> Seq<T> {
        self.inner@
    }
}

impl<'a, T> SliceAtLeast2Items<'a, T> {
    /// Creates a new wrapper over the given slice, which must have at
    /// least two items.
    pub fn new(v: &'a [T]) -> (r: SliceAtLeast2Items<'a, T>)
        requires
            v@.len() >= 2,
        ensures
            r@ == v@,
    {
        SliceAtLeast2Items { inner: v }
    }

    /// Validated construction: wraps a slice of at least two items,
    /// reports `TooFewItems` for a shorter one. A rejected input never
    /// produces a wrapper.
    pub fn try_from_inner(v: &'a [T]) -> (r: Result<SliceAtLeast2Items<'a, T>, TooFewItems>)
        ensures
            v@.len() >= 2 ==> (r matches Ok(w) && w@ == v@),
            v@.len() < 2 ==> (r matches Err(e) && e == TooFewItems(v@.len() as usize)),
    {
        match ensure_at_least_2_items(v) {
            Ok(s) => Ok(SliceAtLeast2Items { inner: s }),
            Err(e) => Err(e),
        }
    }

    /// Unchecked construction: wraps the reference without running the
    /// validator; the contents are exactly the input's.
    pub fn from_inner_unchecked(v: &'a [T]) -> (r: SliceAtLeast2Items<'a, T>)
        ensures
            r@ == v@,
    {
        SliceAtLeast2Items { inner: v }
    }

    /// Returns a reference to the inner slice.
    pub fn as_slice(&self) -> (r: &'a [T])
        ensures
            r@ == self@,
    {
        self.inner
    }

    /// Borrows the inner slice through the bridging accessor.
    pub fn as_inner(&self) -> (r: &'a [T])
        ensures
            r@ == self@,
    {
        self.inner
    }
}

/// The unchecked construction path applied to a reference, followed by the
/// extraction accessor, returns a reference identical in contents to the
/// original input: wrapping hands the contents through unchanged, and
/// extraction hands exactly the wrapped contents back.
pub proof fn lemma_unsized_round_trip<T>(input: Seq<T>, wrapped: Seq<T>, extracted: Seq<T>)
    requires
        wrapped == input,
        extracted == wrapped,
    ensures
        extracted == input,
{
}

/// Vec with at least 2 items.
#[derive(Debug)]
pub struct VecAtLeast2Items<T> {
    inner: Vec<T>,
}

impl<T> View for VecAtLeast2Items<T> {
    type V = Seq<T>;

    /// The contents of the inner vector.
    closed spec fn view(&self) -> Seq<T> {
        self.inner@
    }
}

impl<T> VecAtLeast2Items<T> {
    /// Creates a new `VecAtLeast2Items<T>` from the given vector, which
    /// must have at least two items.
    pub fn from_vec(v: Vec<T>) -> (r: VecAtLeast2Items<T>)
        requires
            v@.len() >= 2,
        ensures
            r@ == v@,
    {
        VecAtLeast2Items { inner: v }
    }

    /// Validated construction: wraps a vector of at least two items,
    /// reports `TooFewItems` for a shorter one. A rejected input never
    /// produces a wrapper.
    pub fn try_from_vec(v: Vec<T>) -> (r: Result<VecAtLeast2Items<T>, TooFewItems>)
        ensures
            v@.len() >= 2 ==> (r matches Ok(w) && w@ == v@),
            v@.len() < 2 ==> (r matches Err(e) && e == TooFewItems(v@.len() as usize)),
    {
        let len = v.len();
        if len >= 2 {
            Ok(VecAtLeast2Items { inner: v })
        } else {
            Err(TooFewItems(len))
        }
    }

    /// Returns a reference to the inner slice.
    pub fn as_slice(&self) -> (r: &[T])
        ensures
            r@ == self@,
    {
        self.inner.as_slice()
    }

    /// Consumes the wrapper and yields the inner vector.
    pub fn into_inner(self) -> (r: Vec<T>)
        ensures
            r@ == self@,
    {
        self.inner
    }

    /// Returns a mutable reference to the inner slice; writes through it
    /// are writes to the wrapped items, and its length cannot change.
    pub fn as_mut_slice(&mut self) -> (r: &mut [T])
        ensures
            r@ == old(self)@,
            final(r)@ == final(self)@,
    {
        self.inner.as_mut_slice()
    }
}

} // verus!
