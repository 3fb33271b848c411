//! The type descriptor: everything the engine knows about one wrapper type,
//! together with the text of the always-present bridging implementation.
//!
//! Identifiers, types and expressions are carried as plain text: the engine
//! never interprets them, it only splices them into the emitted unit.

use vstd::prelude::*;
use vstd::string::StringExecFns;

use crate::text::{spec_decimal, spec_join, decimal, join};

verus! {

/// Sizedness of the inner type.
#[derive(Debug, Clone, Copy, PartialEq, Eq, PartialOrd, Ord, Hash, Structural)]
pub enum Sizedness {
    /// The inner value has a statically known size.
    Sized,
    /// The inner value can only be reached through a reference.
    Unsized,
}

impl Sizedness {
    /// Returns true if the type is a sized type, returns false otherwise.
    pub fn is_sized(&self) -> (r: bool)
        ensures
            r == (*self == Sizedness::Sized),
    {
        match *self {
            Sizedness::Sized => true,
            Sizedness::Unsized => false,
        }
    }

    /// Returns true if the type is an unsized type, returns false otherwise.
    pub fn is_unsized(&self) -> (r: bool)
        ensures
            r == (*self == Sizedness::Unsized),
    {
        match *self {
            Sizedness::Sized => false,
            Sizedness::Unsized => true,
        }
    }
}

/// The inner field of the wrapper type, named or positional.
#[derive(Debug, Clone)]
pub enum Field {
    /// A named field.
    Named(String),
    /// An unnamed field with its index.
    Unnamed(u64),
}

/// The text that refers to the field in a field access or a struct literal.
pub open spec fn spec_field_name(f: &Field) -> Seq<char> {
    match f {
        Field::Named(name) => name@,
        Field::Unnamed(index) => spec_decimal(*index as nat),
    }
}

impl Field {
    /// Returns the name of the field.
    pub fn name(&self) -> (r: String)
        ensures
            r@ == spec_field_name(self),
    {
        match self {
            Field::Named(name) => name.clone(),
            Field::Unnamed(index) => decimal(*index),
        }
    }
}

/// Generic parameters of the wrapper type.
///
/// Parameters are bare names (`'a`, `T`); every bound lives in `predicates`,
/// so the parameter list renders the same in impl position and in type
/// position.
#[derive(Debug, Clone)]
pub struct Generics {
    /// Lifetime parameter names, each with its leading tick.
    pub lifetimes: Vec<String>,
    /// Type parameter names.
    pub type_params: Vec<String>,
    /// Where-clause predicates.
    pub predicates: Vec<String>,
}

/// The views of a sequence of strings.
pub open spec fn seq_views(ss: Seq<String>) -> Seq<Seq<char>> {
    ss.map_values(|s: String| s@)
}

/// The text of a parameter list given the parameter name texts, `<'a, T>`,
/// or nothing when there is no parameter.
pub open spec fn spec_params_text_of(lifetimes: Seq<Seq<char>>, type_params: Seq<Seq<char>>) -> Seq<
    char,
> {
    if lifetimes.len() + type_params.len() == 0 {
        Seq::empty()
    } else {
        "<"@ + spec_join(lifetimes + type_params, ", "@) + ">"@
    }
}

/// The text of the parameter list of a generic-parameter list.
pub open spec fn spec_params_text(g: &Generics) -> Seq<char> {
    spec_params_text_of(seq_views(g.lifetimes@), seq_views(g.type_params@))
}

/// The text of a where clause given the predicate texts, or nothing when
/// there is no predicate.
pub open spec fn spec_where_clause_text_of(predicates: Seq<Seq<char>>) -> Seq<char> {
    if predicates.len() == 0 {
        Seq::empty()
    } else {
        "where "@ + spec_join(predicates, ", "@)
    }
}

/// The text of the where clause of a generic-parameter list.
pub open spec fn spec_where_clause_text(g: &Generics) -> Seq<char> {
    spec_where_clause_text_of(seq_views(g.predicates@))
}

pub(crate) fn push_all(dst: &mut Vec<String>, src: &Vec<String>)
    ensures
        final(dst)@ == old(dst)@ + src@,
{
    let mut i: usize = 0;
    while i < src.len()
        invariant
            i <= src.len(),
            dst@ == old(dst)@ + src@.take(i as int),
        decreases src.len() - i,
    {
        dst.push(src[i].clone());
        proof {
            assert(src@.take(i + 1) =~= src@.take(i as int) + seq![src@[i as int]]);
            assert(old(dst)@ + src@.take(i + 1) =~= (old(dst)@ + src@.take(i as int)) + seq![
                src@[i as int],
            ]);
        }
        i = i + 1;
    }
    proof {
        assert(src@.take(src@.len() as int) =~= src@);
    }
}

impl Generics {
    /// Renders the parameter list.
    pub fn params_text(&self) -> (r: String)
        ensures
            r@ == spec_params_text(self),
    {
        if self.lifetimes.len() == 0 && self.type_params.len() == 0 {
            String::new()
        } else {
            let mut all: Vec<String> = Vec::new();
            push_all(&mut all, &self.lifetimes);
            push_all(&mut all, &self.type_params);
            proof {
                assert(seq_views(all@) =~= seq_views(self.lifetimes@) + seq_views(
                    self.type_params@,
                ));
            }
            let mut r = String::from_str("<");
            r.append(join(&all, ", ").as_str());
            r.append(">");
            r
        }
    }

    /// Renders the where clause.
    pub fn where_clause_text(&self) -> (r: String)
        ensures
            r@ == spec_where_clause_text(self),
    {
        if self.predicates.len() == 0 {
            String::new()
        } else {
            let mut r = String::from_str("where ");
            r.append(join(&self.predicates, ", ").as_str());
            r
        }
    }

    /// Returns true when there is at least one type parameter.
    pub fn has_type_params(&self) -> (r: bool)
        ensures
            r == (self.type_params@.len() > 0),
    {
        self.type_params.len() > 0
    }

    /// Returns a copy of the generic-parameter list.
    pub fn duplicate(&self) -> (r: Generics)
        ensures
            r.lifetimes@ == self.lifetimes@,
            r.type_params@ == self.type_params@,
            r.predicates@ == self.predicates@,
    {
        let mut lifetimes: Vec<String> = Vec::new();
        push_all(&mut lifetimes, &self.lifetimes);
        let mut type_params: Vec<String> = Vec::new();
        push_all(&mut type_params, &self.type_params);
        let mut predicates: Vec<String> = Vec::new();
        push_all(&mut predicates, &self.predicates);
        proof {
            assert(lifetimes@ =~= self.lifetimes@);
            assert(type_params@ =~= self.type_params@);
            assert(predicates@ =~= self.predicates@);
        }
        Generics { lifetimes, type_params, predicates }
    }
}

/// Dereference behaviour requested for the wrapper type.
#[derive(Debug, Clone)]
pub struct DerefSpec {
    /// Deref target type; the inner type when unset.
    pub ty_deref_target: Option<String>,
    /// Converter function from a reference to the inner value to a reference
    /// to the target; the plain "view inner value" accessor when unset.
    pub fn_name_deref: Option<String>,
    /// Converter function for the mutable projection.
    pub fn_name_deref_mut: Option<String>,
}

/// Validation behaviour requested for the wrapper type.
#[derive(Debug, Clone)]
pub struct ValidationSpec {
    /// Validator function name.
    pub fn_validator: Option<String>,
    /// Validation error type.
    pub ty_error: Option<String>,
    /// Validation error message.
    pub error_msg: Option<String>,
}

/// The expression that validates `inner` and propagates the failure with `?`.
pub open spec fn spec_try_validated(v: &ValidationSpec, inner: Seq<char>) -> Seq<char> {
    match v.fn_validator {
        Some(validator) => validator@ + "("@ + inner + ")?"@,
        None => inner,
    }
}

/// The expression that validates `inner` and aborts on failure.
pub open spec fn spec_validated(v: &ValidationSpec, inner: Seq<char>) -> Seq<char> {
    match v.fn_validator {
        Some(validator) => {
            let call = validator@ + "("@ + inner + ")"@;
            match v.error_msg {
                Some(msg) => call + ".expect(\""@ + msg@ + "\")"@,
                None => call + ".unwrap()"@,
            }
        },
        None => inner,
    }
}

/// The error type of the validated construction path: the registered type, or
/// the never-fails error when none is registered.
pub open spec fn spec_ty_error(v: &ValidationSpec) -> Seq<char> {
    match v.ty_error {
        Some(ty) => ty@,
        None => "::opaque_typedef::Infallible"@,
    }
}

impl ValidationSpec {
    /// Renders the expression that validates `inner` and propagates the
    /// failure with `?`.
    pub fn tokens_try_validated(&self, inner: &str) -> (r: String)
        ensures
            r@ == spec_try_validated(self, inner@),
    {
        match &self.fn_validator {
            Some(validator) => {
                let mut r = validator.clone();
                r.append("(");
                r.append(inner);
                r.append(")?");
                r
            },
            None => String::from_str(inner),
        }
    }

    /// Renders the expression that validates `inner` and aborts on failure.
    pub fn tokens_validated(&self, inner: &str) -> (r: String)
        ensures
            r@ == spec_validated(self, inner@),
    {
        match &self.fn_validator {
            Some(validator) => {
                let mut r = validator.clone();
                r.append("(");
                r.append(inner);
                r.append(")");
                match &self.error_msg {
                    Some(msg) => {
                        r.append(".expect(\"");
                        r.append(msg.as_str());
                        r.append("\")");
                    },
                    None => {
                        r.append(".unwrap()");
                    },
                }
                r
            },
            None => String::from_str(inner),
        }
    }

    /// Renders the error type of the validated construction path.
    pub fn tokens_ty_error(&self) -> (r: String)
        ensures
            r@ == spec_ty_error(self),
    {
        match &self.ty_error {
            Some(ty) => ty.clone(),
            None => String::from_str("::opaque_typedef::Infallible"),
        }
    }
}

/// Comparator overrides for the comparison implementations.
#[derive(Debug, Clone)]
pub struct CmpSpec {
    /// Equality comparator.
    pub partial_eq: Option<String>,
    /// Partial-ordering comparator.
    pub partial_ord: Option<String>,
    /// Total-ordering comparator.
    pub ord: Option<String>,
}

/// The equality comparator: the override, or the natural one.
pub open spec fn spec_cmp_partial_eq(c: &CmpSpec) -> Seq<char> {
    match c.partial_eq {
        Some(f) => f@,
        None => "PartialEq::eq"@,
    }
}

/// The partial-ordering comparator: the override, or the natural one.
pub open spec fn spec_cmp_partial_ord(c: &CmpSpec) -> Seq<char> {
    match c.partial_ord {
        Some(f) => f@,
        None => "PartialOrd::partial_cmp"@,
    }
}

/// The total-ordering comparator: the override, or the natural one.
pub open spec fn spec_cmp_ord(c: &CmpSpec) -> Seq<char> {
    match c.ord {
        Some(f) => f@,
        None => "Ord::cmp"@,
    }
}

impl CmpSpec {
    /// Renders the equality comparator.
    pub fn partial_eq(&self) -> (r: String)
        ensures
            r@ == spec_cmp_partial_eq(self),
    {
        match &self.partial_eq {
            Some(f) => f.clone(),
            None => String::from_str("PartialEq::eq"),
        }
    }

    /// Renders the partial-ordering comparator.
    pub fn partial_ord(&self) -> (r: String)
        ensures
            r@ == spec_cmp_partial_ord(self),
    {
        match &self.partial_ord {
            Some(f) => f.clone(),
            None => String::from_str("PartialOrd::partial_cmp"),
        }
    }

    /// Renders the total-ordering comparator.
    pub fn ord(&self) -> (r: String)
        ensures
            r@ == spec_cmp_ord(self),
    {
        match &self.ord {
            Some(f) => f.clone(),
            None => String::from_str("Ord::cmp"),
        }
    }
}

/// Properties of one wrapper type: the full descriptor a generation pass
/// works from.
#[derive(Debug)]
pub struct TypeProps {
    /// Outer (wrapper) type identifier.
    pub ty_outer: String,
    /// Inner field.
    pub field_inner: Field,
    /// Inner type.
    pub ty_inner: String,
    /// Generic parameters of the wrapper type.
    pub generics: Generics,
    /// Sizedness of the inner type.
    pub inner_sizedness: Sizedness,
    /// Resolved derive targets, in request order.
    pub derives: Vec<crate::catalog::Derive>,
    /// Deref spec.
    pub deref_spec: DerefSpec,
    /// Whether a mutable reference to the inner field may be exposed.
    pub is_mut_ref_allowed: bool,
    /// Validation spec.
    pub validation_spec: ValidationSpec,
    /// Cmp spec.
    pub cmp_spec: CmpSpec,
}

/// Well-formedness of a descriptor, established by the loader: a custom
/// dereference target comes with its read converter, and the parameter list
/// leaves room for the few fresh lifetimes a generator appends.
pub open spec fn spec_props_wf(p: &TypeProps) -> bool {
    &&& p.deref_spec.ty_deref_target is Some ==> p.deref_spec.fn_name_deref is Some
    &&& p.generics.lifetimes@.len() + 2 < usize::MAX
}

/// The path of the helper trait bridging the wrapper and its inner value.
pub open spec fn spec_helper_trait(sizedness: Sizedness) -> Seq<char> {
    match sizedness {
        Sizedness::Sized => "::opaque_typedef::OpaqueTypedef"@,
        Sizedness::Unsized => "::opaque_typedef::OpaqueTypedefUnsized"@,
    }
}

/// The outer type with its parameter list, `Outer<'a, T>`.
pub open spec fn spec_ty_outer_generic(p: &TypeProps) -> Seq<char> {
    p.ty_outer@ + spec_params_text(&p.generics)
}

/// The expression that consumes an outer value and yields the inner value.
pub open spec fn spec_outer_expr_into_inner(p: &TypeProps, expr: Seq<char>) -> Seq<char> {
    "<"@ + spec_ty_outer_generic(p) + " as "@ + spec_helper_trait(p.inner_sizedness)
        + ">::into_inner("@ + expr + ")"@
}

/// The expression that borrows the inner value of an outer value.
pub open spec fn spec_outer_expr_as_inner(p: &TypeProps, expr: Seq<char>) -> Seq<char> {
    "<"@ + spec_ty_outer_generic(p) + " as "@ + spec_helper_trait(p.inner_sizedness)
        + ">::as_inner("@ + expr + ")"@
}

/// The expression that mutably borrows the inner value of an outer value.
pub open spec fn spec_outer_expr_as_inner_mut(p: &TypeProps, expr: Seq<char>) -> Seq<char> {
    "unsafe { <"@ + spec_ty_outer_generic(p) + " as "@ + spec_helper_trait(p.inner_sizedness)
        + ">::as_inner_mut("@ + expr + ") }"@
}

/// The dereference target type: the override, or the inner type.
pub open spec fn spec_ty_deref_target(p: &TypeProps) -> Seq<char> {
    match p.deref_spec.ty_deref_target {
        Some(ty) => ty@,
        None => p.ty_inner@,
    }
}

/// The expression projecting an outer value to the dereference target: the
/// override converter applied to the borrowed inner value, or that borrow
/// itself.
pub open spec fn spec_deref_expr(p: &TypeProps, expr: Seq<char>) -> Seq<char> {
    match p.deref_spec.fn_name_deref {
        Some(f) => f@ + "("@ + spec_outer_expr_as_inner(p, expr) + ")"@,
        None => spec_outer_expr_as_inner(p, expr),
    }
}

/// The expression mutably projecting an outer value to the dereference
/// target.
pub open spec fn spec_deref_mut_expr(p: &TypeProps, expr: Seq<char>) -> Seq<char> {
    match p.deref_spec.fn_name_deref_mut {
        Some(f) => f@ + "("@ + spec_outer_expr_as_inner_mut(p, expr) + ")"@,
        None => spec_outer_expr_as_inner_mut(p, expr),
    }
}

impl TypeProps {
    /// Renders the path of the helper trait.
    pub fn helper_trait(&self) -> (r: &'static str)
        ensures
            r@ == spec_helper_trait(self.inner_sizedness),
    {
        match self.inner_sizedness {
            Sizedness::Sized => "::opaque_typedef::OpaqueTypedef",
            Sizedness::Unsized => "::opaque_typedef::OpaqueTypedefUnsized",
        }
    }

    /// Renders the outer type with its parameter list.
    pub fn ty_outer_generic(&self) -> (r: String)
        ensures
            r@ == spec_ty_outer_generic(self),
    {
        let mut r = self.ty_outer.clone();
        r.append(self.generics.params_text().as_str());
        r
    }

    /// Renders the expression that consumes an outer value and yields the
    /// inner value; only a sized inner value can be moved out.
    pub fn tokens_outer_expr_into_inner(&self, expr: &str) -> (r: String)
        requires
            self.inner_sizedness == Sizedness::Sized,
        ensures
            r@ == spec_outer_expr_into_inner(self, expr@),
    {
        let mut r = String::from_str("<");
        r.append(self.ty_outer_generic().as_str());
        r.append(" as ");
        r.append(self.helper_trait());
        r.append(">::into_inner(");
        r.append(expr);
        r.append(")");
        r
    }

    /// Renders the expression that borrows the inner value of an outer
    /// value.
    pub fn tokens_outer_expr_as_inner(&self, expr: &str) -> (r: String)
        ensures
            r@ == spec_outer_expr_as_inner(self, expr@),
    {
        let mut r = String::from_str("<");
        r.append(self.ty_outer_generic().as_str());
        r.append(" as ");
        r.append(self.helper_trait());
        r.append(">::as_inner(");
        r.append(expr);
        r.append(")");
        r
    }

    /// Renders the expression that mutably borrows the inner value of an
    /// outer value; the descriptor must permit mutable access.
    pub fn tokens_outer_expr_as_inner_mut(&self, expr: &str) -> (r: String)
        requires
            self.is_mut_ref_allowed,
        ensures
            r@ == spec_outer_expr_as_inner_mut(self, expr@),
    {
        self.tokens_outer_expr_as_inner_mut_nocheck(expr)
    }

    /// Renders the mutable borrow of the inner value without consulting the
    /// permission flag.
    pub fn tokens_outer_expr_as_inner_mut_nocheck(&self, expr: &str) -> (r: String)
        ensures
            r@ == spec_outer_expr_as_inner_mut(self, expr@),
    {
        let mut r = String::from_str("unsafe { <");
        r.append(self.ty_outer_generic().as_str());
        r.append(" as ");
        r.append(self.helper_trait());
        r.append(">::as_inner_mut(");
        r.append(expr);
        r.append(") }");
        r
    }

    /// Renders the dereference target type.
    pub fn tokens_ty_deref_target(&self) -> (r: String)
        ensures
            r@ == spec_ty_deref_target(self),
    {
        match &self.deref_spec.ty_deref_target {
            Some(ty) => ty.clone(),
            None => self.ty_inner.clone(),
        }
    }

    /// Renders the expression projecting an outer value to the dereference
    /// target.
    pub fn tokens_deref_expr(&self, expr: &str) -> (r: String)
        ensures
            r@ == spec_deref_expr(self, expr@),
    {
        let inner = self.tokens_outer_expr_as_inner(expr);
        match &self.deref_spec.fn_name_deref {
            Some(f) => {
                let mut r = f.clone();
                r.append("(");
                r.append(inner.as_str());
                r.append(")");
                r
            },
            None => inner,
        }
    }

    /// Renders the expression mutably projecting an outer value to the
    /// dereference target; the descriptor must permit mutable access.
    pub fn tokens_deref_mut_expr(&self, expr: &str) -> (r: String)
        requires
            self.is_mut_ref_allowed,
        ensures
            r@ == spec_deref_mut_expr(self, expr@),
    {
        let inner = self.tokens_outer_expr_as_inner_mut(expr);
        match &self.deref_spec.fn_name_deref_mut {
            Some(f) => {
                let mut r = f.clone();
                r.append("(");
                r.append(inner.as_str());
                r.append(")");
                r
            },
            None => inner,
        }
    }

    /// Returns true when the wrapper type has at least one type parameter.
    pub fn has_type_params(&self) -> (r: bool)
        ensures
            r == (self.generics.type_params@.len() > 0),
    {
        self.generics.has_type_params()
    }
}

/// The text of the always-generated bridging implementation: the impl of
/// the helper trait that constructs, extracts and borrows the inner value,
/// with or without validation.
pub open spec fn spec_basic_impl(p: &TypeProps) -> Seq<char> {
    match p.inner_sizedness {
        Sizedness::Sized => "impl "@ + spec_params_text(&p.generics) + " "@ + spec_helper_trait(p.inner_sizedness) + " for "@ + p.ty_outer@ + spec_params_text(&p.generics) + " "@ + spec_where_clause_text(&p.generics) + " { type Inner = "@ + p.ty_inner@ + "; type Error = "@ + spec_ty_error(&p.validation_spec) + "; "@ + "unsafe fn from_inner_unchecked(__inner: Self::Inner) -> Self { Self { "@ + spec_field_name(&p.field_inner) + ": __inner } } fn try_from_inner(__inner: Self::Inner) -> std::result::Result<Self, Self::Error> { Ok(Self { "@ + spec_field_name(&p.field_inner) + ": "@ + spec_try_validated(&p.validation_spec, "__inner"@) + " }) } fn from_inner(__inner: Self::Inner) -> Self { Self { "@ + spec_field_name(&p.field_inner) + ": "@ + spec_validated(&p.validation_spec, "__inner"@) + " } } fn into_inner(self) -> Self::Inner { self."@ + spec_field_name(&p.field_inner) + " } fn as_inner(&self) -> &Self::Inner { &self."@ + spec_field_name(&p.field_inner) + " } unsafe fn as_inner_mut(&mut self) -> &mut Self::Inner { &mut self."@ + spec_field_name(&p.field_inner) + " } }"@,
        Sizedness::Unsized => "impl "@ + spec_params_text(&p.generics) + " "@ + spec_helper_trait(p.inner_sizedness) + " for "@ + p.ty_outer@ + spec_params_text(&p.generics) + " "@ + spec_where_clause_text(&p.generics) + " { type Inner = "@ + p.ty_inner@ + "; type Error = "@ + spec_ty_error(&p.validation_spec) + "; "@ + "unsafe fn from_inner_unchecked(__inner: &Self::Inner) -> &Self { &*(__inner as *const Self::Inner as *const Self) } unsafe fn from_inner_unchecked_mut(__inner: &mut Self::Inner) -> &mut Self { &mut *(__inner as *mut Self::Inner as *mut Self) } fn try_from_inner(__inner: &Self::Inner) -> std::result::Result<&Self, Self::Error> { let __inner = "@ + spec_try_validated(&p.validation_spec, "__inner"@) + "; Ok(unsafe { <Self as ::opaque_typedef::OpaqueTypedefUnsized>::from_inner_unchecked(__inner) }) } fn from_inner(__inner: &Self::Inner) -> &Self { let __inner = "@ + spec_validated(&p.validation_spec, "__inner"@) + "; unsafe { <Self as ::opaque_typedef::OpaqueTypedefUnsized>::from_inner_unchecked(__inner) } } fn try_from_inner_mut(__inner: &mut Self::Inner) -> std::result::Result<&mut Self, Self::Error> { let __inner = "@ + spec_try_validated(&p.validation_spec, "__inner"@) + "; Ok(unsafe { <Self as ::opaque_typedef::OpaqueTypedefUnsized>::from_inner_unchecked_mut(__inner) }) } fn from_inner_mut(__inner: &mut Self::Inner) -> &mut Self { let __inner = "@ + spec_validated(&p.validation_spec, "__inner"@) + "; unsafe { <Self as ::opaque_typedef::OpaqueTypedefUnsized>::from_inner_unchecked_mut(__inner) } } fn as_inner(&self) -> &Self::Inner { &self."@ + spec_field_name(&p.field_inner) + " } unsafe fn as_inner_mut(&mut self) -> &mut Self::Inner { &mut self."@ + spec_field_name(&p.field_inner) + " } }"@,
    }
}

impl TypeProps {
    /// Generates the impl of the helper trait for the wrapper type.
    pub fn impl_basic_helper_trait(&self) -> (r: String)
        ensures
            r@ == spec_basic_impl(self),
    {
        let params = self.generics.params_text();
        let where_clause = self.generics.where_clause_text();
        let helper = self.helper_trait();
        let fname = self.field_inner.name();
        let ty_error = self.validation_spec.tokens_ty_error();
        let tryv = self.validation_spec.tokens_try_validated("__inner");
        let val = self.validation_spec.tokens_validated("__inner");
        match self.inner_sizedness {
            Sizedness::Sized => {
                let mut r = String::from_str("impl ");
                r.append(params.as_str());
                r.append(" ");
                r.append(helper);
                r.append(" for ");
                r.append(self.ty_outer.as_str());
                r.append(params.as_str());
                r.append(" ");
                r.append(where_clause.as_str());
                r.append(" { type Inner = ");
                r.append(self.ty_inner.as_str());
                r.append("; type Error = ");
                r.append(ty_error.as_str());
                r.append("; ");
                r.append("unsafe fn from_inner_unchecked(__inner: Self::Inner) -> Self { Self { ");
                r.append(fname.as_str());
                r.append(": __inner } } fn try_from_inner(__inner: Self::Inner) -> std::result::Result<Self, Self::Error> { Ok(Self { ");
                r.append(fname.as_str());
                r.append(": ");
                r.append(tryv.as_str());
                r.append(" }) } fn from_inner(__inner: Self::Inner) -> Self { Self { ");
                r.append(fname.as_str());
                r.append(": ");
                r.append(val.as_str());
                r.append(" } } fn into_inner(self) -> Self::Inner { self.");
                r.append(fname.as_str());
                r.append(" } fn as_inner(&self) -> &Self::Inner { &self.");
                r.append(fname.as_str());
                r.append(" } unsafe fn as_inner_mut(&mut self) -> &mut Self::Inner { &mut self.");
                r.append(fname.as_str());
                r.append(" } }");
                r
            },
            Sizedness::Unsized => {
                let mut r = String::from_str("impl ");
                r.append(params.as_str());
                r.append(" ");
                r.append(helper);
                r.append(" for ");
                r.append(self.ty_outer.as_str());
                r.append(params.as_str());
                r.append(" ");
                r.append(where_clause.as_str());
                r.append(" { type Inner = ");
                r.append(self.ty_inner.as_str());
                r.append("; type Error = ");
                r.append(ty_error.as_str());
                r.append("; ");
                r.append("unsafe fn from_inner_unchecked(__inner: &Self::Inner) -> &Self { &*(__inner as *const Self::Inner as *const Self) } unsafe fn from_inner_unchecked_mut(__inner: &mut Self::Inner) -> &mut Self { &mut *(__inner as *mut Self::Inner as *mut Self) } fn try_from_inner(__inner: &Self::Inner) -> std::result::Result<&Self, Self::Error> { let __inner = ");
                r.append(tryv.as_str());
                r.append("; Ok(unsafe { <Self as ::opaque_typedef::OpaqueTypedefUnsized>::from_inner_unchecked(__inner) }) } fn from_inner(__inner: &Self::Inner) -> &Self { let __inner = ");
                r.append(val.as_str());
                r.append("; unsafe { <Self as ::opaque_typedef::OpaqueTypedefUnsized>::from_inner_unchecked(__inner) } } fn try_from_inner_mut(__inner: &mut Self::Inner) -> std::result::Result<&mut Self, Self::Error> { let __inner = ");
                r.append(tryv.as_str());
                r.append("; Ok(unsafe { <Self as ::opaque_typedef::OpaqueTypedefUnsized>::from_inner_unchecked_mut(__inner) }) } fn from_inner_mut(__inner: &mut Self::Inner) -> &mut Self { let __inner = ");
                r.append(val.as_str());
                r.append("; unsafe { <Self as ::opaque_typedef::OpaqueTypedefUnsized>::from_inner_unchecked_mut(__inner) } } fn as_inner(&self) -> &Self::Inner { &self.");
                r.append(fname.as_str());
                r.append(" } unsafe fn as_inner_mut(&mut self) -> &mut Self::Inner { &mut self.");
                r.append(fname.as_str());
                r.append(" } }");
                r
            },
        }
    }
}

} // verus!
