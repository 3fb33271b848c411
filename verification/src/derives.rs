//! Impl generators for the auto-derive capability targets, one module per
//! operation family, with the structural validity checks and the assembly
//! of the emitted unit.

use vstd::prelude::*;
use vstd::string::StringExecFns;

use crate::catalog::Derive;
use crate::generics::{extend_generics, spec_fresh_lifetimes};
use crate::props::{
    Sizedness, TypeProps, seq_views, spec_basic_impl, spec_outer_expr_as_inner,
    spec_outer_expr_as_inner_mut, spec_params_text_of, spec_props_wf, spec_ty_outer_generic,
    spec_where_clause_text_of,
};

pub mod as_ref;
pub mod cmp;
pub mod convert;
pub mod deref;
pub mod fmt;
pub mod ops;

verus! {

/// A structurally invalid capability request: the capability cannot be
/// generated for this descriptor. Fatal for the whole declaration.
#[derive(Debug, Clone, Copy, PartialEq, Eq, Structural)]
pub enum ConfigError {
    /// The capability needs mutable inner-value access, which the
    /// descriptor does not permit.
    MutableAccessNotPermitted(Derive),
    /// The capability is structurally inapplicable to the descriptor's
    /// sizedness.
    IncompatibleSizedness(Derive),
    /// The capability needs a behavioural hook that was not supplied.
    MissingRequiredHookProperty(Derive),
}

/// Whether the capability needs a mutable view of the inner value: the
/// compound-assignment forms, the mutable projections, and the in-place
/// ASCII conversions. The identity accessor never touches the inner value.
pub open spec fn spec_requires_mut_access(d: Derive) -> bool {
    ||| (match ops::spec_op_spec_of(d) {
        Some(op) => op.assign,
        None => false,
    })
    ||| d == Derive::DerefMut
    ||| d == Derive::AsMutDeref
    ||| d == Derive::AsMutInner
    ||| d == Derive::AsciiExt
}

/// Whether the capability is legal for `DynamicallySized` inner types
/// only: the owning-container extractions, the reference-form default, and
/// the copy-on-write comparison pairings.
pub open spec fn spec_requires_unsized(d: Derive) -> bool {
    ||| d == Derive::IntoArc
    ||| d == Derive::IntoBox
    ||| d == Derive::IntoRc
    ||| d == Derive::DefaultRef
    ||| d == Derive::PartialEqInnerCow
    ||| d == Derive::PartialEqInnerCowRev
    ||| d == Derive::PartialEqSelfCow
    ||| d == Derive::PartialEqSelfCowRev
    ||| d == Derive::PartialEqSelfCowAndInner
    ||| d == Derive::PartialEqSelfCowAndInnerRev
    ||| d == Derive::PartialOrdInnerCow
    ||| d == Derive::PartialOrdInnerCowRev
    ||| d == Derive::PartialOrdSelfCow
    ||| d == Derive::PartialOrdSelfCowRev
    ||| d == Derive::PartialOrdSelfCowAndInner
    ||| d == Derive::PartialOrdSelfCowAndInnerRev
}

/// Whether the capability is legal for `Fixed` inner types only: the
/// arithmetic forms, whose value-producing impls return an owned wrapper
/// and whose compound assignments need an owned mutable receiver.
pub open spec fn spec_requires_sized(d: Derive) -> bool {
    ops::spec_op_spec_of(d) is Some
}

/// Whether the capability needs the mutable dereference converter and the
/// descriptor overrides the dereference target without supplying one.
pub open spec fn spec_missing_hook(d: Derive, p: &TypeProps) -> bool {
    &&& (d == Derive::DerefMut || d == Derive::AsMutDeref)
    &&& p.deref_spec.ty_deref_target is Some
    &&& p.deref_spec.fn_name_deref_mut is None
}

/// The first structural fault of the capability against the descriptor, if
/// any: the mutable-access gate, then the sizedness gates, then the hook
/// gate.
pub open spec fn spec_check_derive(d: Derive, p: &TypeProps) -> Option<ConfigError> {
    if spec_requires_mut_access(d) && !p.is_mut_ref_allowed {
        Some(ConfigError::MutableAccessNotPermitted(d))
    } else if spec_requires_unsized(d) && p.inner_sizedness == Sizedness::Sized {
        Some(ConfigError::IncompatibleSizedness(d))
    } else if spec_requires_sized(d) && p.inner_sizedness == Sizedness::Unsized {
        Some(ConfigError::IncompatibleSizedness(d))
    } else if spec_missing_hook(d, p) {
        Some(ConfigError::MissingRequiredHookProperty(d))
    } else {
        None
    }
}

/// Checks one capability against the descriptor.
pub fn check_derive(d: Derive, props: &TypeProps) -> (r: Result<(), ConfigError>)
    ensures
        match spec_check_derive(d, props) {
            Option::None => r is Ok,
            Option::Some(e) => r == Result::<(), ConfigError>::Err(e),
        },
{
    let requires_mut = match ops::OpSpec::from_derive_target(d) {
        Some(op) => op.assign,
        None => false,
    } || d == Derive::DerefMut || d == Derive::AsMutDeref || d == Derive::AsMutInner || d
        == Derive::AsciiExt;
    if requires_mut && !props.is_mut_ref_allowed {
        return Err(ConfigError::MutableAccessNotPermitted(d));
    }
    let requires_unsized = d == Derive::IntoArc || d == Derive::IntoBox || d == Derive::IntoRc || d
        == Derive::DefaultRef || d == Derive::PartialEqInnerCow || d
        == Derive::PartialEqInnerCowRev || d == Derive::PartialEqSelfCow || d
        == Derive::PartialEqSelfCowRev || d == Derive::PartialEqSelfCowAndInner || d
        == Derive::PartialEqSelfCowAndInnerRev || d == Derive::PartialOrdInnerCow || d
        == Derive::PartialOrdInnerCowRev || d == Derive::PartialOrdSelfCow || d
        == Derive::PartialOrdSelfCowRev || d == Derive::PartialOrdSelfCowAndInner || d
        == Derive::PartialOrdSelfCowAndInnerRev;
    if requires_unsized && props.inner_sizedness.is_sized() {
        return Err(ConfigError::IncompatibleSizedness(d));
    }
    let requires_sized = ops::OpSpec::from_derive_target(d).is_some();
    if requires_sized && props.inner_sizedness.is_unsized() {
        return Err(ConfigError::IncompatibleSizedness(d));
    }
    if (d == Derive::DerefMut || d == Derive::AsMutDeref) && props.deref_spec.ty_deref_target.is_some()
        && props.deref_spec.fn_name_deref_mut.is_none() {
        return Err(ConfigError::MissingRequiredHookProperty(d));
    }
    Ok(())
}

/// The emitted text for the reference-form default: obtain the inner
/// type's reference-form default and re-wrap it through the validated
/// construction path.
pub open spec fn spec_gen_impl_default_ref(p: &TypeProps) -> Seq<char> {
    let lv = seq_views(p.generics.lifetimes@);
    let tv = seq_views(p.generics.type_params@);
    let lt = spec_fresh_lifetimes(lv, 1)[0];
    let extra = if p.generics.type_params@.len() > 0 {
        seq!["&"@ + lt + " "@ + p.ty_inner@ + ": ::std::default::Default"@]
    } else {
        Seq::<Seq<char>>::empty()
    };
    "impl "@ + spec_params_text_of(lv + spec_fresh_lifetimes(lv, 1), tv)
        + " ::std::default::Default for &"@ + lt + " "@ + spec_ty_outer_generic(p) + " "@
        + spec_where_clause_text_of(seq_views(p.generics.predicates@) + extra)
        + " { fn default() -> Self { let __inner = <&"@ + lt + " "@ + p.ty_inner@
        + " as ::std::default::Default>::default(); <"@ + spec_ty_outer_generic(p)
        + " as ::opaque_typedef::OpaqueTypedefUnsized>::from_inner(__inner) } }"@
}

/// Generates the reference-form default impl; legal for
/// `DynamicallySized` inner types only.
pub fn gen_impl_default_ref(props: &TypeProps) -> (r: String)
    requires
        props.inner_sizedness == Sizedness::Unsized,
        spec_props_wf(props),
    ensures
        r@ == spec_gen_impl_default_ref(props),
{
    let ghost lv = seq_views(props.generics.lifetimes@);
    let ghost lt = spec_fresh_lifetimes(lv, 1)[0];
    let mut extra_preds: Vec<String> = Vec::new();
    if props.has_type_params() {
        // The fresh name does not depend on the predicates appended later,
        // so a first extension with none serves to name it.
        let fresh_lt = {
            let empty_preds: Vec<String> = Vec::new();
            let (_extended, lts) = extend_generics(&props.generics, 1, &empty_preds);
            proof {
                assert(seq_views(lts@)[0] == lts@[0]@);
            }
            let mut lts = lts;
            lts.remove(0)
        };
        let mut pred = String::from_str("&");
        pred.append(fresh_lt.as_str());
        pred.append(" ");
        pred.append(props.ty_inner.as_str());
        pred.append(": ::std::default::Default");
        extra_preds.push(pred);
        proof {
            assert(seq_views(extra_preds@) =~= seq![
                "&"@ + lt + " "@ + props.ty_inner@ + ": ::std::default::Default"@,
            ]);
        }
    }
    let (g1, lts1) = extend_generics(&props.generics, 1, &extra_preds);
    proof {
        assert(seq_views(g1.lifetimes@) =~= seq_views(props.generics.lifetimes@) + seq_views(
            lts1@,
        ));
        assert(seq_views(lts1@)[0] == lts1@[0]@);
        assert(seq_views(g1.predicates@) =~= seq_views(props.generics.predicates@) + seq_views(
            extra_preds@,
        ));
        if !(props.generics.type_params@.len() > 0) {
            assert(seq_views(extra_preds@) =~= Seq::<Seq<char>>::empty());
        }
    }
    let params = g1.params_text();
    let where_clause = g1.where_clause_text();
    let mut r = String::from_str("impl ");
    r.append(params.as_str());
    r.append(" ::std::default::Default for &");
    r.append(lts1[0].as_str());
    r.append(" ");
    r.append(props.ty_outer_generic().as_str());
    r.append(" ");
    r.append(where_clause.as_str());
    r.append(" { fn default() -> Self { let __inner = <&");
    r.append(lts1[0].as_str());
    r.append(" ");
    r.append(props.ty_inner.as_str());
    r.append(" as ::std::default::Default>::default(); <");
    r.append(props.ty_outer_generic().as_str());
    r.append(" as ::opaque_typedef::OpaqueTypedefUnsized>::from_inner(__inner) } }");
    r
}

/// The emitted text for the ASCII extension: every method delegates to the
/// inner type's implementation, the in-place conversions through the
/// mutable-view accessor.
pub open spec fn spec_gen_impl_ascii_ext(p: &TypeProps) -> Seq<char> {
    let extra = if p.generics.type_params@.len() > 0 {
        seq![p.ty_inner@ + ": ::std::ascii::AsciiExt"@]
    } else {
        Seq::<Seq<char>>::empty()
    };
    "impl "@ + spec_params_text_of(
        seq_views(p.generics.lifetimes@),
        seq_views(p.generics.type_params@),
    ) + " ::std::ascii::AsciiExt for "@ + spec_ty_outer_generic(p) + " "@
        + spec_where_clause_text_of(seq_views(p.generics.predicates@) + extra)
        + " { type Owned = <"@ + p.ty_inner@
        + " as ::std::ascii::AsciiExt>::Owned; fn is_ascii(&self) -> bool { <"@ + p.ty_inner@
        + " as ::std::ascii::AsciiExt>::is_ascii("@ + spec_outer_expr_as_inner(p, "self"@)
        + ") } fn to_ascii_uppercase(&self) -> Self::Owned { <"@ + p.ty_inner@
        + " as ::std::ascii::AsciiExt>::to_ascii_uppercase("@ + spec_outer_expr_as_inner(
        p,
        "self"@,
    ) + ") } fn to_ascii_lowercase(&self) -> Self::Owned { <"@ + p.ty_inner@
        + " as ::std::ascii::AsciiExt>::to_ascii_lowercase("@ + spec_outer_expr_as_inner(
        p,
        "self"@,
    ) + ") } fn eq_ignore_ascii_case(&self, other: &Self) -> bool { <"@ + p.ty_inner@
        + " as ::std::ascii::AsciiExt>::eq_ignore_ascii_case("@ + spec_outer_expr_as_inner(
        p,
        "self"@,
    ) + ", "@ + spec_outer_expr_as_inner(p, "other"@)
        + ") } fn make_ascii_uppercase(&mut self) { <"@ + p.ty_inner@
        + " as ::std::ascii::AsciiExt>::make_ascii_uppercase("@ + spec_outer_expr_as_inner_mut(
        p,
        "self"@,
    ) + ") } fn make_ascii_lowercase(&mut self) { <"@ + p.ty_inner@
        + " as ::std::ascii::AsciiExt>::make_ascii_lowercase("@ + spec_outer_expr_as_inner_mut(
        p,
        "self"@,
    ) + ") } }"@
}

/// Generates the ASCII-extension impl; needs the descriptor's
/// mutable-reference permission for the in-place conversions.
pub fn gen_impl_ascii_ext(props: &TypeProps) -> (r: String)
    requires
        props.is_mut_ref_allowed,
        spec_props_wf(props),
    ensures
        r@ == spec_gen_impl_ascii_ext(props),
{
    let mut extra_preds: Vec<String> = Vec::new();
    if props.has_type_params() {
        let mut pred = props.ty_inner.clone();
        pred.append(": ::std::ascii::AsciiExt");
        extra_preds.push(pred);
        proof {
            assert(seq_views(extra_preds@) =~= seq![
                props.ty_inner@ + ": ::std::ascii::AsciiExt"@,
            ]);
        }
    }
    let (generics, _lts) = extend_generics(&props.generics, 0, &extra_preds);
    proof {
        assert(generics.lifetimes@ =~= props.generics.lifetimes@);
        assert(seq_views(generics.predicates@) =~= seq_views(props.generics.predicates@)
            + seq_views(extra_preds@));
        if !(props.generics.type_params@.len() > 0) {
            assert(seq_views(extra_preds@) =~= Seq::<Seq<char>>::empty());
        }
    }
    let params = generics.params_text();
    let where_clause = generics.where_clause_text();
    let self_as_inner = props.tokens_outer_expr_as_inner("self");
    let other_as_inner = props.tokens_outer_expr_as_inner("other");
    let self_as_inner_mut = props.tokens_outer_expr_as_inner_mut("self");
    let mut r = String::from_str("impl ");
    r.append(params.as_str());
    r.append(" ::std::ascii::AsciiExt for ");
    r.append(props.ty_outer_generic().as_str());
    r.append(" ");
    r.append(where_clause.as_str());
    r.append(" { type Owned = <");
    r.append(props.ty_inner.as_str());
    r.append(" as ::std::ascii::AsciiExt>::Owned; fn is_ascii(&self) -> bool { <");
    r.append(props.ty_inner.as_str());
    r.append(" as ::std::ascii::AsciiExt>::is_ascii(");
    r.append(self_as_inner.as_str());
    r.append(") } fn to_ascii_uppercase(&self) -> Self::Owned { <");
    r.append(props.ty_inner.as_str());
    r.append(" as ::std::ascii::AsciiExt>::to_ascii_uppercase(");
    r.append(self_as_inner.as_str());
    r.append(") } fn to_ascii_lowercase(&self) -> Self::Owned { <");
    r.append(props.ty_inner.as_str());
    r.append(" as ::std::ascii::AsciiExt>::to_ascii_lowercase(");
    r.append(self_as_inner.as_str());
    r.append(") } fn eq_ignore_ascii_case(&self, other: &Self) -> bool { <");
    r.append(props.ty_inner.as_str());
    r.append(" as ::std::ascii::AsciiExt>::eq_ignore_ascii_case(");
    r.append(self_as_inner.as_str());
    r.append(", ");
    r.append(other_as_inner.as_str());
    r.append(") } fn make_ascii_uppercase(&mut self) { <");
    r.append(props.ty_inner.as_str());
    r.append(" as ::std::ascii::AsciiExt>::make_ascii_uppercase(");
    r.append(self_as_inner_mut.as_str());
    r.append(") } fn make_ascii_lowercase(&mut self) { <");
    r.append(props.ty_inner.as_str());
    r.append(" as ::std::ascii::AsciiExt>::make_ascii_lowercase(");
    r.append(self_as_inner_mut.as_str());
    r.append(") } }");
    r
}

/// The emitted text for one auto-derive capability target.
pub open spec fn spec_impl_auto_derive(d: Derive, p: &TypeProps) -> Seq<char> {
    if fmt::spec_is_fmt_target(d) {
        fmt::spec_gen_impl_fmt(d, p)
    } else if d == Derive::Deref {
        deref::spec_gen_impl_deref(p)
    } else if d == Derive::DerefMut {
        deref::spec_gen_impl_deref_mut(p)
    } else if as_ref::spec_is_as_ref_target(d) {
        as_ref::spec_gen_impl_as_ref(d, p)
    } else if d == Derive::FromInner {
        convert::spec_gen_impl_from_inner(p)
    } else if d == Derive::IntoInner {
        convert::spec_gen_impl_into_inner(p)
    } else if d == Derive::IntoArc || d == Derive::IntoBox || d == Derive::IntoRc {
        convert::spec_gen_impl_into_smartptr(d, p)
    } else if d == Derive::DefaultRef {
        spec_gen_impl_default_ref(p)
    } else if cmp::spec_is_partial_cmp_target(d) {
        cmp::spec_gen_impl_partial_cmp(d, p)
    } else if d == Derive::Ord {
        cmp::spec_gen_impl_ord(p)
    } else if d == Derive::AsciiExt {
        spec_gen_impl_ascii_ext(p)
    } else {
        match ops::spec_op_spec_of(d) {
            Some(op) => ops::spec_gen_impl_op_sized(op, p),
            None => Seq::empty(),
        }
    }
}

impl Derive {
    /// Generates the impls for one auto-derive capability target, which
    /// must have passed the structural validity check.
    #[verifier::rlimit(100)]
    pub fn impl_auto_derive(&self, props: &TypeProps) -> (r: String)
        requires
            spec_check_derive(*self, props) is None,
            spec_props_wf(props),
        ensures
            r@ == spec_impl_auto_derive(*self, props),
    {
        let d = *self;
        match d {
            Derive::Binary | Derive::Display | Derive::LowerExp | Derive::LowerHex | Derive::Octal
                | Derive::Pointer | Derive::UpperExp | Derive::UpperHex => fmt::gen_impl(d, props),
            Derive::Deref | Derive::DerefMut => deref::gen_impl(d, props),
            Derive::AsRefDeref | Derive::AsRefInner | Derive::AsRefSelf | Derive::AsMutDeref
                | Derive::AsMutInner | Derive::AsMutSelf => as_ref::gen_impl(d, props),
            Derive::FromInner => convert::gen_impl_from_inner(props),
            Derive::IntoInner => convert::gen_impl_into_inner(props),
            Derive::IntoArc | Derive::IntoBox | Derive::IntoRc => convert::gen_impl_into_smartptr(
                d,
                props,
            ),
            Derive::DefaultRef => gen_impl_default_ref(props),
            Derive::PartialEqInner | Derive::PartialEqInnerRev | Derive::PartialEqInnerCow
                | Derive::PartialEqInnerCowRev | Derive::PartialEqSelf | Derive::PartialEqSelfCow
                | Derive::PartialEqSelfCowRev | Derive::PartialEqSelfCowAndInner
                | Derive::PartialEqSelfCowAndInnerRev | Derive::PartialOrdInner
                | Derive::PartialOrdInnerRev | Derive::PartialOrdInnerCow
                | Derive::PartialOrdInnerCowRev | Derive::PartialOrdSelf
                | Derive::PartialOrdSelfCow | Derive::PartialOrdSelfCowRev
                | Derive::PartialOrdSelfCowAndInner | Derive::PartialOrdSelfCowAndInnerRev => {
                cmp::gen_impl_partial_cmp(d, props)
            },
            Derive::Ord => cmp::gen_impl_ord(props),
            Derive::AsciiExt => gen_impl_ascii_ext(props),
            _ => {
                match ops::OpSpec::from_derive_target(d) {
                    Some(op) => op.gen_impl_sized(props),
                    None => {
                        proof {
                            assert(false);
                        }
                        String::new()
                    },
                }
            },
        }
    }
}

/// The first structural fault among the requested capabilities, from
/// position `i` on.
pub open spec fn spec_first_config_err_from(p: &TypeProps, i: int) -> Option<ConfigError>
    decreases p.derives@.len() - i,
{
    if i < 0 || i >= p.derives@.len() {
        None
    } else {
        match spec_check_derive(p.derives@[i], p) {
            Some(e) => Some(e),
            None => spec_first_config_err_from(p, i + 1),
        }
    }
}

/// The first structural fault among the requested capabilities, if any.
pub open spec fn spec_gen_impls_err(p: &TypeProps) -> Option<ConfigError> {
    spec_first_config_err_from(p, 0)
}

/// The emitted unit up to the first `n` requested capabilities: the
/// bridging impl followed by each capability's impls, in request order.
pub open spec fn spec_impls_upto(p: &TypeProps, n: int) -> Seq<char>
    decreases n,
{
    if n <= 0 {
        spec_basic_impl(p)
    } else {
        spec_impls_upto(p, n - 1) + spec_impl_auto_derive(p.derives@[n - 1], p)
    }
}

/// The full emitted unit for the declaration.
pub open spec fn spec_gen_impls_text(p: &TypeProps) -> Seq<char> {
    spec_impls_upto(p, p.derives@.len() as int)
}

impl TypeProps {
    /// Generates the emitted unit for the wrapper type: the always-present
    /// bridging impl followed by the impls of every requested capability,
    /// in request order. Every capability is checked against the
    /// descriptor before any code is emitted; the first structural fault
    /// aborts the whole declaration.
    pub fn gen_impls(&self) -> (r: Result<String, ConfigError>)
        requires
            spec_props_wf(self),
        ensures
            match spec_gen_impls_err(self) {
                Option::None => r matches Ok(s) && s@ == spec_gen_impls_text(self),
                Option::Some(e) => r == Result::<String, ConfigError>::Err(e),
            },
    {
        let n = self.derives.len();
        let mut i: usize = 0;
        while i < n
            invariant
                i <= n,
                n == self.derives@.len(),
                spec_first_config_err_from(self, i as int) == spec_gen_impls_err(self),
                forall|j: int|
                    0 <= j < i ==> spec_check_derive(#[trigger] self.derives@[j], self) is None,
            decreases n - i,
        {
            match check_derive(self.derives[i], self) {
                Ok(()) => {},
                Err(e) => {
                    return Err(e);
                },
            }
            i = i + 1;
        }
        let mut r = self.impl_basic_helper_trait();
        let mut i: usize = 0;
        while i < n
            invariant
                i <= n,
                n == self.derives@.len(),
                spec_props_wf(self),
                forall|j: int|
                    0 <= j < n ==> spec_check_derive(#[trigger] self.derives@[j], self) is None,
                r@ == spec_impls_upto(self, i as int),
            decreases n - i,
        {
            let impl_text = self.derives[i].impl_auto_derive(self);
            r.append(impl_text.as_str());
            i = i + 1;
        }
        Ok(r)
    }
}

} // verus!
