//! Impl generators for the textual-rendering capabilities: uniform
//! pass-through impls that project the wrapper to its inner value and
//! delegate rendering verbatim.

use vstd::prelude::*;
use vstd::string::StringExecFns;

use crate::catalog::Derive;
use crate::generics::extend_generics;
use crate::props::{
    TypeProps, seq_views, spec_outer_expr_as_inner, spec_params_text_of, spec_props_wf,
    spec_ty_outer_generic, spec_where_clause_text_of,
};

verus! {

/// Whether the derive target is one of the rendering formats this generator
/// handles.
pub open spec fn spec_is_fmt_target(d: Derive) -> bool {
    ||| d == Derive::Binary
    ||| d == Derive::Display
    ||| d == Derive::LowerExp
    ||| d == Derive::LowerHex
    ||| d == Derive::Octal
    ||| d == Derive::Pointer
    ||| d == Derive::UpperExp
    ||| d == Derive::UpperHex
}

/// The name of the rendering trait under `std::fmt`.
pub open spec fn spec_fmt_trait_name(d: Derive) -> Seq<char> {
    match d {
        Derive::Binary => "Binary"@,
        Derive::Display => "Display"@,
        Derive::LowerExp => "LowerExp"@,
        Derive::LowerHex => "LowerHex"@,
        Derive::Octal => "Octal"@,
        Derive::Pointer => "Pointer"@,
        Derive::UpperExp => "UpperExp"@,
        _ => "UpperHex"@,
    }
}

fn fmt_trait_name(d: Derive) -> (r: &'static str)
    requires
        spec_is_fmt_target(d),
    ensures
        r@ == spec_fmt_trait_name(d),
{
    match d {
        Derive::Binary => "Binary",
        Derive::Display => "Display",
        Derive::LowerExp => "LowerExp",
        Derive::LowerHex => "LowerHex",
        Derive::Octal => "Octal",
        Derive::Pointer => "Pointer",
        Derive::UpperExp => "UpperExp",
        _ => "UpperHex",
    }
}

/// The emitted text for one rendering format: delegate to the inner type's
/// implementation of the same trait, with the inner type bound to that trait
/// when the wrapper carries type parameters.
pub open spec fn spec_gen_impl_fmt(d: Derive, p: &TypeProps) -> Seq<char> {
    let name = spec_fmt_trait_name(d);
    let extra = if p.generics.type_params@.len() > 0 {
        seq![p.ty_inner@ + ": ::std::fmt::"@ + name]
    } else {
        Seq::<Seq<char>>::empty()
    };
    "impl "@ + spec_params_text_of(
        seq_views(p.generics.lifetimes@),
        seq_views(p.generics.type_params@),
    ) + " ::std::fmt::"@ + name + " for "@ + spec_ty_outer_generic(p) + " "@
        + spec_where_clause_text_of(seq_views(p.generics.predicates@) + extra)
        + " { fn fmt(&self, f: &mut ::std::fmt::Formatter<'_>) -> ::std::fmt::Result { <"@
        + p.ty_inner@ + " as ::std::fmt::"@ + name + ">::fmt("@ + spec_outer_expr_as_inner(
        p,
        "self"@,
    ) + ", f) } }"@
}

/// Generates the impl for one rendering format.
pub fn gen_impl(target: Derive, props: &TypeProps) -> (r: String)
    requires
        spec_is_fmt_target(target),
        spec_props_wf(props),
    ensures
        r@ == spec_gen_impl_fmt(target, props),
{
    let name = fmt_trait_name(target);
    let mut extra_preds: Vec<String> = Vec::new();
    if props.has_type_params() {
        let mut pred = props.ty_inner.clone();
        pred.append(": ::std::fmt::");
        pred.append(name);
        extra_preds.push(pred);
    }
    let (generics, _new_lts) = extend_generics(&props.generics, 0, &extra_preds);
    proof {
        assert(generics.lifetimes@ =~= props.generics.lifetimes@);
        assert(seq_views(generics.predicates@) =~= seq_views(props.generics.predicates@)
            + seq_views(extra_preds@));
        if props.generics.type_params@.len() > 0 {
            assert(seq_views(extra_preds@) =~= seq![
                props.ty_inner@ + ": ::std::fmt::"@ + spec_fmt_trait_name(target),
            ]);
        } else {
            assert(seq_views(extra_preds@) =~= Seq::<Seq<char>>::empty());
        }
    }
    let impl_generics = generics.params_text();
    let where_clause = generics.where_clause_text();
    let self_as_inner = props.tokens_outer_expr_as_inner("self");
    let mut r = String::from_str("impl ");
    r.append(impl_generics.as_str());
    r.append(" ::std::fmt::");
    r.append(name);
    r.append(" for ");
    r.append(props.ty_outer_generic().as_str());
    r.append(" ");
    r.append(where_clause.as_str());
    r.append(" { fn fmt(&self, f: &mut ::std::fmt::Formatter<'_>) -> ::std::fmt::Result { <");
    r.append(props.ty_inner.as_str());
    r.append(" as ::std::fmt::");
    r.append(name);
    r.append(">::fmt(");
    r.append(self_as_inner.as_str());
    r.append(", f) } }");
    r
}

} // verus!
