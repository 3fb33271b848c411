//! Impl generators for the capability-typed accessor family: read-only and
//! mutable "view as T" accessors, addressing the projection target, the
//! inner value, or the wrapper itself.

use vstd::prelude::*;
use vstd::string::StringExecFns;

use crate::catalog::Derive;
use crate::props::{
    TypeProps, spec_deref_expr, spec_deref_mut_expr, spec_outer_expr_as_inner,
    spec_outer_expr_as_inner_mut, spec_params_text, spec_props_wf, spec_ty_deref_target,
    spec_ty_outer_generic, spec_where_clause_text,
};

verus! {

/// Whether the derive target is one of the accessor capabilities this
/// generator handles.
pub open spec fn spec_is_as_ref_target(d: Derive) -> bool {
    ||| d == Derive::AsRefDeref
    ||| d == Derive::AsRefInner
    ||| d == Derive::AsRefSelf
    ||| d == Derive::AsMutDeref
    ||| d == Derive::AsMutInner
    ||| d == Derive::AsMutSelf
}

/// The text of one read-only accessor impl.
pub open spec fn spec_as_ref_impl_text(p: &TypeProps, tgt: Seq<char>, body: Seq<char>) -> Seq<
    char,
> {
    "impl "@ + spec_params_text(&p.generics) + " ::std::convert::AsRef<"@ + tgt + "> for "@
        + spec_ty_outer_generic(p) + " "@ + spec_where_clause_text(&p.generics)
        + " { fn as_ref(&self) -> &"@ + tgt + " { "@ + body + " } }"@
}

/// The text of one mutable accessor impl.
pub open spec fn spec_as_mut_impl_text(p: &TypeProps, tgt: Seq<char>, body: Seq<char>) -> Seq<
    char,
> {
    "impl "@ + spec_params_text(&p.generics) + " ::std::convert::AsMut<"@ + tgt + "> for "@
        + spec_ty_outer_generic(p) + " "@ + spec_where_clause_text(&p.generics)
        + " { fn as_mut(&mut self) -> &mut "@ + tgt + " { "@ + body + " } }"@
}

/// The emitted text for one accessor capability.
pub open spec fn spec_gen_impl_as_ref(d: Derive, p: &TypeProps) -> Seq<char> {
    match d {
        Derive::AsRefDeref => spec_as_ref_impl_text(
            p,
            spec_ty_deref_target(p),
            spec_deref_expr(p, "self"@),
        ),
        Derive::AsRefInner => spec_as_ref_impl_text(
            p,
            p.ty_inner@,
            spec_outer_expr_as_inner(p, "self"@),
        ),
        Derive::AsRefSelf => spec_as_ref_impl_text(p, spec_ty_outer_generic(p), "self"@),
        Derive::AsMutDeref => spec_as_mut_impl_text(
            p,
            spec_ty_deref_target(p),
            spec_deref_mut_expr(p, "self"@),
        ),
        Derive::AsMutInner => spec_as_mut_impl_text(
            p,
            p.ty_inner@,
            spec_outer_expr_as_inner_mut(p, "self"@),
        ),
        Derive::AsMutSelf => spec_as_mut_impl_text(p, spec_ty_outer_generic(p), "self"@),
        _ => Seq::empty(),
    }
}

fn as_ref_text(props: &TypeProps, tgt: &String, body: &String, mutable: bool) -> (r: String)
    ensures
        !mutable ==> r@ == spec_as_ref_impl_text(props, tgt@, body@),
        mutable ==> r@ == spec_as_mut_impl_text(props, tgt@, body@),
{
    let params = props.generics.params_text();
    let where_clause = props.generics.where_clause_text();
    let mut r = String::from_str("impl ");
    r.append(params.as_str());
    if mutable {
        r.append(" ::std::convert::AsMut<");
    } else {
        r.append(" ::std::convert::AsRef<");
    }
    r.append(tgt.as_str());
    r.append("> for ");
    r.append(props.ty_outer_generic().as_str());
    r.append(" ");
    r.append(where_clause.as_str());
    if mutable {
        r.append(" { fn as_mut(&mut self) -> &mut ");
    } else {
        r.append(" { fn as_ref(&self) -> &");
    }
    r.append(tgt.as_str());
    r.append(" { ");
    r.append(body.as_str());
    r.append(" } }");
    r
}

/// Generates the impl for one accessor capability. The mutable accessors
/// for the projection target and the inner value need the descriptor's
/// mutable-reference permission; the identity accessors touch no inner
/// value and need none.
pub fn gen_impl(target: Derive, props: &TypeProps) -> (r: String)
    requires
        spec_is_as_ref_target(target),
        target == Derive::AsMutDeref || target == Derive::AsMutInner
            ==> props.is_mut_ref_allowed,
        spec_props_wf(props),
    ensures
        r@ == spec_gen_impl_as_ref(target, props),
{
    match target {
        Derive::AsRefDeref => {
            let tgt = props.tokens_ty_deref_target();
            let body = props.tokens_deref_expr("self");
            as_ref_text(props, &tgt, &body, false)
        },
        Derive::AsRefInner => {
            let tgt = props.ty_inner.clone();
            let body = props.tokens_outer_expr_as_inner("self");
            as_ref_text(props, &tgt, &body, false)
        },
        Derive::AsRefSelf => {
            let tgt = props.ty_outer_generic();
            let body = String::from_str("self");
            as_ref_text(props, &tgt, &body, false)
        },
        Derive::AsMutDeref => {
            let tgt = props.tokens_ty_deref_target();
            let body = props.tokens_deref_mut_expr("self");
            as_ref_text(props, &tgt, &body, true)
        },
        Derive::AsMutInner => {
            let tgt = props.ty_inner.clone();
            let body = props.tokens_outer_expr_as_inner_mut("self");
            as_ref_text(props, &tgt, &body, true)
        },
        _ => {
            let tgt = props.ty_outer_generic();
            let body = String::from_str("self");
            as_ref_text(props, &tgt, &body, true)
        },
    }
}

} // verus!
