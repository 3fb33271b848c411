//! Opaque typedefs over `str` and `String`: the plainest wrappers, with no
//! validator. The string-slice wrapper borrows its inner value, the owned
//! wrapper holds a `String` and projects to `str`.

use vstd::prelude::*;

verus! {

/// Relies on `String::as_mut_str`: the mutable string-slice view of the
/// whole string; writes through it are writes to the string's contents.
pub assume_specification [ String::as_mut_str ](s: &mut String) -> (r: &mut str)
    ensures
        r@ == old(s)@,
        final(r)@ == final(s)@,
;

/// A wrapper over a borrowed string slice.
#[derive(Debug, Clone, Copy)]
pub struct MyStr<'a> {
    inner: &'a str,
}

impl<'a> View for MyStr<'a> {
    type V = Seq<char>;

    /// The characters of the inner string slice.
    closed spec fn view(&self) -> Seq<char> {
        self.inner@
    }
}

impl<'a> MyStr<'a> {
    /// Creates a new `MyStr` from the given string slice.
    pub fn new(v: &'a str) -> (r: MyStr<'a>)
        ensures
            r@ == v@,
    {
        MyStr { inner: v }
    }

    /// Construction from the inner value; with no validator registered the
    /// validated path wraps unconditionally.
    pub fn from_inner(v: &'a str) -> (r: MyStr<'a>)
        ensures
            r@ == v@,
    {
        MyStr { inner: v }
    }

    /// Unchecked construction: identical to the validated path here, since
    /// no validator is registered.
    pub fn from_inner_unchecked(v: &'a str) -> (r: MyStr<'a>)
        ensures
            r@ == v@,
    {
        MyStr { inner: v }
    }

    /// Borrows the inner string slice.
    pub fn as_inner(&self) -> (r: &'a str)
        ensures
            r@ == self@,
    {
        self.inner
    }

    /// Views the wrapper as its dereference target, the inner string
    /// slice.
    pub fn as_ref_str(&self) -> (r: &'a str)
        ensures
            r@ == self@,
    {
        self.inner
    }

    /// The read-only view projection to the inner string slice.
    pub fn deref_str(&self) -> (r: &'a str)
        ensures
            r@ == self@,
    {
        self.inner
    }
}

impl Default for MyStr<'static> {
    /// The default wrapper holds the default string slice: the empty one.
    fn default() -> (r: MyStr<'static>)
        ensures
            r@ == Seq::<char>::empty(),
    {
        proof {
            reveal_strlit("");
        }
        MyStr { inner: "" }
    }
}

/// A wrapper over an owned `String`, projecting to `str`.
#[derive(Debug)]
pub struct MyString {
    inner: String,
}

impl View for MyString {
    type V = Seq<char>;

    /// The characters of the inner string.
    closed spec fn view(&self) -> Seq<char> {
        self.inner@
    }
}

impl MyString {
    /// Creates a new `MyString` from the given string.
    pub fn from_string(v: String) -> (r: MyString)
        ensures
            r@ == v@,
    {
        MyString { inner: v }
    }

    /// Construction from the inner value; with no validator registered the
    /// validated path wraps unconditionally.
    pub fn from_inner(v: String) -> (r: MyString)
        ensures
            r@ == v@,
    {
        MyString { inner: v }
    }

    /// Borrows the inner string.
    pub fn as_inner(&self) -> (r: &String)
        ensures
            r@ == self@,
    {
        &self.inner
    }

    /// Consumes the wrapper and yields the inner string.
    pub fn into_inner(self) -> (r: String)
        ensures
            r@ == self@,
    {
        self.inner
    }

    /// Views the wrapper as its dereference target, a string slice over
    /// the inner string.
    pub fn as_ref_str(&self) -> (r: &str)
        ensures
            r@ == self@,
    {
        self.inner.as_str()
    }

    /// The read-only view projection to the dereference target.
    pub fn deref_str(&self) -> (r: &str)
        ensures
            r@ == self@,
    {
        self.inner.as_str()
    }

    /// Mutably borrows the inner string; writes through the reference are
    /// writes to the wrapped value.
    pub fn as_inner_mut(&mut self) -> (r: &mut String)
        ensures
            r@ == old(self)@,
            final(r)@ == final(self)@,
    {
        &mut self.inner
    }

    /// Views the wrapper mutably as its dereference target.
    pub fn as_mut_str(&mut self) -> (r: &mut str)
        ensures
            r@ == old(self)@,
            final(r)@ == final(self)@,
    {
        self.inner.as_mut_str()
    }

    /// The mutable view projection to the dereference target.
    pub fn deref_mut_str(&mut self) -> (r: &mut str)
        ensures
            r@ == old(self)@,
            final(r)@ == final(self)@,
    {
        self.inner.as_mut_str()
    }
}

} // verus!
