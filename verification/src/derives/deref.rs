//! Impl generators for the view-projection capabilities `Deref` and
//! `DerefMut`.

use vstd::prelude::*;
use vstd::string::StringExecFns;

use crate::catalog::Derive;
use crate::props::{
    TypeProps, spec_deref_expr, spec_deref_mut_expr, spec_params_text, spec_props_wf,
    spec_ty_deref_target, spec_ty_outer_generic, spec_where_clause_text,
};

verus! {

/// The emitted text for the read-only view projection.
pub open spec fn spec_gen_impl_deref(p: &TypeProps) -> Seq<char> {
    "impl "@ + spec_params_text(&p.generics) + " ::std::ops::Deref for "@ + spec_ty_outer_generic(
        p,
    ) + " "@ + spec_where_clause_text(&p.generics) + " { type Target = "@ + spec_ty_deref_target(p)
        + "; fn deref(&self) -> &Self::Target { "@ + spec_deref_expr(p, "self"@) + " } }"@
}

/// The emitted text for the mutable view projection.
pub open spec fn spec_gen_impl_deref_mut(p: &TypeProps) -> Seq<char> {
    "impl "@ + spec_params_text(&p.generics) + " ::std::ops::DerefMut for "@
        + spec_ty_outer_generic(p) + " "@ + spec_where_clause_text(&p.generics)
        + " { fn deref_mut(&mut self) -> &mut Self::Target { "@ + spec_deref_mut_expr(p, "self"@)
        + " } }"@
}

/// Generates the impl for a view-projection capability. Read-only
/// projection always succeeds structurally; the mutable projection needs
/// the descriptor's mutable-reference permission.
pub fn gen_impl(target: Derive, props: &TypeProps) -> (r: String)
    requires
        target == Derive::Deref || target == Derive::DerefMut,
        target == Derive::DerefMut ==> props.is_mut_ref_allowed,
        spec_props_wf(props),
    ensures
        target == Derive::Deref ==> r@ == spec_gen_impl_deref(props),
        target == Derive::DerefMut ==> r@ == spec_gen_impl_deref_mut(props),
{
    let params = props.generics.params_text();
    let where_clause = props.generics.where_clause_text();
    match target {
        Derive::Deref => {
            let mut r = String::from_str("impl ");
            r.append(params.as_str());
            r.append(" ::std::ops::Deref for ");
            r.append(props.ty_outer_generic().as_str());
            r.append(" ");
            r.append(where_clause.as_str());
            r.append(" { type Target = ");
            r.append(props.tokens_ty_deref_target().as_str());
            r.append("; fn deref(&self) -> &Self::Target { ");
            r.append(props.tokens_deref_expr("self").as_str());
            r.append(" } }");
            r
        },
        _ => {
            let mut r = String::from_str("impl ");
            r.append(params.as_str());
            r.append(" ::std::ops::DerefMut for ");
            r.append(props.ty_outer_generic().as_str());
            r.append(" ");
            r.append(where_clause.as_str());
            r.append(" { fn deref_mut(&mut self) -> &mut Self::Target { ");
            r.append(props.tokens_deref_mut_expr("self").as_str());
            r.append(" } }");
            r
        },
    }
}

} // verus!
