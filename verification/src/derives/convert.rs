//! Impl generators for the conversion capabilities: construction from the
//! inner value, extraction of the inner value, and extraction into an
//! owning container.

use vstd::prelude::*;
use vstd::string::StringExecFns;

use crate::catalog::Derive;
use crate::generics::{extend_generics, spec_fresh_lifetimes};
use crate::props::{
    Sizedness, TypeProps, seq_views, spec_outer_expr_as_inner, spec_outer_expr_into_inner,
    spec_params_text_of, spec_props_wf, spec_ty_outer_generic, spec_where_clause_text_of,
};

verus! {

/// The emitted text for construction from the inner value. A `Fixed` inner
/// value is consumed; a `DynamicallySized` one is taken and returned by
/// reference. Both funnel through the validated construction path.
pub open spec fn spec_gen_impl_from_inner(p: &TypeProps) -> Seq<char> {
    let lv = seq_views(p.generics.lifetimes@);
    let tv = seq_views(p.generics.type_params@);
    let wc = spec_where_clause_text_of(seq_views(p.generics.predicates@));
    match p.inner_sizedness {
        Sizedness::Sized => "impl "@ + spec_params_text_of(lv, tv) + " ::std::convert::From<"@
            + p.ty_inner@ + "> for "@ + spec_ty_outer_generic(p) + " "@ + wc + " { fn from(__inner: "@
            + p.ty_inner@ + ") -> Self { <"@ + spec_ty_outer_generic(p)
            + " as ::opaque_typedef::OpaqueTypedef>::from_inner(__inner) } }"@,
        Sizedness::Unsized => {
            let lt = spec_fresh_lifetimes(lv, 1)[0];
            "impl "@ + spec_params_text_of(lv + spec_fresh_lifetimes(lv, 1), tv)
                + " ::std::convert::From<&"@ + lt + " "@ + p.ty_inner@ + "> for &"@ + lt + " "@
                + spec_ty_outer_generic(p) + " "@ + wc + " { fn from(__inner: &"@ + lt + " "@
                + p.ty_inner@ + ") -> Self { <"@ + spec_ty_outer_generic(p)
                + " as ::opaque_typedef::OpaqueTypedefUnsized>::from_inner(__inner) } }"@
        },
    }
}

/// The emitted text for extraction of the inner value. A `Fixed` inner
/// value is moved out of the consumed wrapper; a `DynamicallySized` one is
/// handed out as a read-only reference.
pub open spec fn spec_gen_impl_into_inner(p: &TypeProps) -> Seq<char> {
    let lv = seq_views(p.generics.lifetimes@);
    let tv = seq_views(p.generics.type_params@);
    let wc = spec_where_clause_text_of(seq_views(p.generics.predicates@));
    match p.inner_sizedness {
        Sizedness::Sized => "impl "@ + spec_params_text_of(lv, tv) + " ::std::convert::From<"@
            + spec_ty_outer_generic(p) + "> for "@ + p.ty_inner@ + " "@ + wc
            + " { fn from(__outer: "@ + spec_ty_outer_generic(p) + ") -> Self { "@
            + spec_outer_expr_into_inner(p, "__outer"@) + " } }"@,
        Sizedness::Unsized => {
            let lt = spec_fresh_lifetimes(lv, 1)[0];
            "impl "@ + spec_params_text_of(lv + spec_fresh_lifetimes(lv, 1), tv)
                + " ::std::convert::From<&"@ + lt + " "@ + spec_ty_outer_generic(p) + "> for &"@
                + lt + " "@ + p.ty_inner@ + " "@ + wc + " { fn from(__outer: &"@ + lt + " "@
                + spec_ty_outer_generic(p) + ") -> Self { "@ + spec_outer_expr_as_inner(
                p,
                "__outer"@,
            ) + " } }"@
        },
    }
}

/// The path of the owning container of a container-extraction capability.
pub open spec fn spec_smartptr_path(d: Derive) -> Seq<char> {
    match d {
        Derive::IntoArc => "::std::sync::Arc"@,
        Derive::IntoBox => "::std::boxed::Box"@,
        _ => "::std::rc::Rc"@,
    }
}

/// The raw-pointer form the container's raw parts are cast through.
pub open spec fn spec_smartptr_raw(d: Derive) -> Seq<char> {
    match d {
        Derive::IntoBox => "*mut"@,
        _ => "*const"@,
    }
}

/// The emitted text for extraction into an owning container: build the
/// container over the inner value, then re-brand its raw pointer as the
/// wrapper type. The inner type is bound to the container conversion when
/// the wrapper carries type parameters.
pub open spec fn spec_gen_impl_into_smartptr(d: Derive, p: &TypeProps) -> Seq<char> {
    let lv = seq_views(p.generics.lifetimes@);
    let tv = seq_views(p.generics.type_params@);
    let lt = spec_fresh_lifetimes(lv, 1)[0];
    let c = spec_smartptr_path(d);
    let raw = spec_smartptr_raw(d);
    let extra = if p.generics.type_params@.len() > 0 {
        seq![c + "<"@ + p.ty_inner@ + ">: ::std::convert::From<&"@ + lt + " "@ + p.ty_inner@ + ">"@]
    } else {
        Seq::<Seq<char>>::empty()
    };
    "impl "@ + spec_params_text_of(lv + spec_fresh_lifetimes(lv, 1), tv)
        + " ::std::convert::From<&"@ + lt + " "@ + spec_ty_outer_generic(p) + "> for "@ + c + "<"@
        + spec_ty_outer_generic(p) + "> "@ + spec_where_clause_text_of(
        seq_views(p.generics.predicates@) + extra,
    ) + " { fn from(__other: &"@ + lt + " "@ + spec_ty_outer_generic(p)
        + ") -> Self { let __inner_ptr: "@ + c + "<"@ + p.ty_inner@
        + "> = ::std::convert::From::from("@ + spec_outer_expr_as_inner(p, "__other"@)
        + "); unsafe { "@ + c + "::from_raw("@ + c + "::into_raw(__inner_ptr) as "@ + raw + " "@
        + spec_ty_outer_generic(p) + ") } } }"@
}

/// Generates the construction-from-inner impl.
pub fn gen_impl_from_inner(props: &TypeProps) -> (r: String)
    requires
        spec_props_wf(props),
    ensures
        r@ == spec_gen_impl_from_inner(props),
{
    let where_clause = props.generics.where_clause_text();
    match props.inner_sizedness {
        Sizedness::Sized => {
            let params = props.generics.params_text();
            let mut r = String::from_str("impl ");
            r.append(params.as_str());
            r.append(" ::std::convert::From<");
            r.append(props.ty_inner.as_str());
            r.append("> for ");
            r.append(props.ty_outer_generic().as_str());
            r.append(" ");
            r.append(where_clause.as_str());
            r.append(" { fn from(__inner: ");
            r.append(props.ty_inner.as_str());
            r.append(") -> Self { <");
            r.append(props.ty_outer_generic().as_str());
            r.append(" as ::opaque_typedef::OpaqueTypedef>::from_inner(__inner) } }");
            r
        },
        Sizedness::Unsized => {
            let empty_preds: Vec<String> = Vec::new();
            let (g1, lts1) = extend_generics(&props.generics, 1, &empty_preds);
            proof {
                assert(seq_views(g1.lifetimes@) =~= seq_views(props.generics.lifetimes@)
                    + seq_views(lts1@));
                assert(seq_views(lts1@)[0] == lts1@[0]@);
            }
            let params = g1.params_text();
            let mut r = String::from_str("impl ");
            r.append(params.as_str());
            r.append(" ::std::convert::From<&");
            r.append(lts1[0].as_str());
            r.append(" ");
            r.append(props.ty_inner.as_str());
            r.append("> for &");
            r.append(lts1[0].as_str());
            r.append(" ");
            r.append(props.ty_outer_generic().as_str());
            r.append(" ");
            r.append(where_clause.as_str());
            r.append(" { fn from(__inner: &");
            r.append(lts1[0].as_str());
            r.append(" ");
            r.append(props.ty_inner.as_str());
            r.append(") -> Self { <");
            r.append(props.ty_outer_generic().as_str());
            r.append(" as ::opaque_typedef::OpaqueTypedefUnsized>::from_inner(__inner) } }");
            r
        },
    }
}

/// Generates the extraction-of-inner impl.
pub fn gen_impl_into_inner(props: &TypeProps) -> (r: String)
    requires
        spec_props_wf(props),
    ensures
        r@ == spec_gen_impl_into_inner(props),
{
    let where_clause = props.generics.where_clause_text();
    match props.inner_sizedness {
        Sizedness::Sized => {
            let params = props.generics.params_text();
            let mut r = String::from_str("impl ");
            r.append(params.as_str());
            r.append(" ::std::convert::From<");
            r.append(props.ty_outer_generic().as_str());
            r.append("> for ");
            r.append(props.ty_inner.as_str());
            r.append(" ");
            r.append(where_clause.as_str());
            r.append(" { fn from(__outer: ");
            r.append(props.ty_outer_generic().as_str());
            r.append(") -> Self { ");
            r.append(props.tokens_outer_expr_into_inner("__outer").as_str());
            r.append(" } }");
            r
        },
        Sizedness::Unsized => {
            let empty_preds: Vec<String> = Vec::new();
            let (g1, lts1) = extend_generics(&props.generics, 1, &empty_preds);
            proof {
                assert(seq_views(g1.lifetimes@) =~= seq_views(props.generics.lifetimes@)
                    + seq_views(lts1@));
                assert(seq_views(lts1@)[0] == lts1@[0]@);
            }
            let params = g1.params_text();
            let mut r = String::from_str("impl ");
            r.append(params.as_str());
            r.append(" ::std::convert::From<&");
            r.append(lts1[0].as_str());
            r.append(" ");
            r.append(props.ty_outer_generic().as_str());
            r.append("> for &");
            r.append(lts1[0].as_str());
            r.append(" ");
            r.append(props.ty_inner.as_str());
            r.append(" ");
            r.append(where_clause.as_str());
            r.append(" { fn from(__outer: &");
            r.append(lts1[0].as_str());
            r.append(" ");
            r.append(props.ty_outer_generic().as_str());
            r.append(") -> Self { ");
            r.append(props.tokens_outer_expr_as_inner("__outer").as_str());
            r.append(" } }");
            r
        },
    }
}

fn smartptr_path(d: Derive) -> (r: &'static str)
    ensures
        r@ == spec_smartptr_path(d),
{
    match d {
        Derive::IntoArc => "::std::sync::Arc",
        Derive::IntoBox => "::std::boxed::Box",
        _ => "::std::rc::Rc",
    }
}

fn smartptr_raw(d: Derive) -> (r: &'static str)
    ensures
        r@ == spec_smartptr_raw(d),
{
    match d {
        Derive::IntoBox => "*mut",
        _ => "*const",
    }
}

/// Generates the extraction-into-container impl; such containers are legal
/// for `DynamicallySized` inner types only.
pub fn gen_impl_into_smartptr(target: Derive, props: &TypeProps) -> (r: String)
    requires
        target == Derive::IntoArc || target == Derive::IntoBox || target == Derive::IntoRc,
        props.inner_sizedness == Sizedness::Unsized,
        spec_props_wf(props),
    ensures
        r@ == spec_gen_impl_into_smartptr(target, props),
{
    let c = smartptr_path(target);
    let raw = smartptr_raw(target);
    let mut extra_preds: Vec<String> = Vec::new();
    let ghost lv = seq_views(props.generics.lifetimes@);
    let ghost lt = spec_fresh_lifetimes(lv, 1)[0];
    if props.has_type_params() {
        // The fresh name does not depend on the predicates appended later,
        // so a first extension with none serves to name it.
        let fresh_lt = {
            let empty_preds: Vec<String> = Vec::new();
            let (_extended, lts) = extend_generics(&props.generics, 1, &empty_preds);
            proof {
                assert(seq_views(lts@)[0] == lts@[0]@);
            }
            let mut lts = lts;
            lts.remove(0)
        };
        let mut pred = String::from_str(c);
        pred.append("<");
        pred.append(props.ty_inner.as_str());
        pred.append(">: ::std::convert::From<&");
        pred.append(fresh_lt.as_str());
        pred.append(" ");
        pred.append(props.ty_inner.as_str());
        pred.append(">");
        extra_preds.push(pred);
        proof {
            assert(seq_views(extra_preds@) =~= seq![
                spec_smartptr_path(target) + "<"@ + props.ty_inner@ + ">: ::std::convert::From<&"@
                    + lt + " "@ + props.ty_inner@ + ">"@,
            ]);
        }
    }
    let (g1, lts1) = extend_generics(&props.generics, 1, &extra_preds);
    proof {
        assert(seq_views(g1.lifetimes@) =~= seq_views(props.generics.lifetimes@) + seq_views(
            lts1@,
        ));
        assert(seq_views(lts1@)[0] == lts1@[0]@);
        assert(seq_views(g1.predicates@) =~= seq_views(props.generics.predicates@) + seq_views(
            extra_preds@,
        ));
        if !(props.generics.type_params@.len() > 0) {
            assert(seq_views(extra_preds@) =~= Seq::<Seq<char>>::empty());
        }
    }
    let params = g1.params_text();
    let where_clause = g1.where_clause_text();
    let mut r = String::from_str("impl ");
    r.append(params.as_str());
    r.append(" ::std::convert::From<&");
    r.append(lts1[0].as_str());
    r.append(" ");
    r.append(props.ty_outer_generic().as_str());
    r.append("> for ");
    r.append(c);
    r.append("<");
    r.append(props.ty_outer_generic().as_str());
    r.append("> ");
    r.append(where_clause.as_str());
    r.append(" { fn from(__other: &");
    r.append(lts1[0].as_str());
    r.append(" ");
    r.append(props.ty_outer_generic().as_str());
    r.append(") -> Self { let __inner_ptr: ");
    r.append(c);
    r.append("<");
    r.append(props.ty_inner.as_str());
    r.append("> = ::std::convert::From::from(");
    r.append(props.tokens_outer_expr_as_inner("__other").as_str());
    r.append("); unsafe { ");
    r.append(c);
    r.append("::from_raw(");
    r.append(c);
    r.append("::into_raw(__inner_ptr) as ");
    r.append(raw);
    r.append(" ");
    r.append(props.ty_outer_generic().as_str());
    r.append(") } } }");
    r
}

} // verus!
