//! Impl generators for the equality, partial-ordering and total-ordering
//! comparison capabilities.

use vstd::prelude::*;
use vstd::string::StringExecFns;

use crate::catalog::Derive;
use crate::generics::{extend_generics, spec_fresh_lifetimes};
use crate::props::{
    CmpSpec, Generics, Sizedness, TypeProps, seq_views, spec_cmp_ord, spec_cmp_partial_eq,
    spec_cmp_partial_ord, spec_outer_expr_as_inner, spec_params_text_of, spec_props_wf,
    spec_ty_outer_generic, spec_where_clause_text_of,
};

verus! {

/// The comparison trait an impl is generated for.
#[derive(Debug, Clone, Copy, PartialEq, Eq, Structural)]
pub enum CmpTraitSpec {
    /// `std::cmp::PartialEq`.
    PartialEq,
    /// `std::cmp::PartialOrd`.
    PartialOrd,
    /// `std::cmp::Ord`.
    Ord,
}

/// The path of the comparison trait.
pub open spec fn spec_cmp_target_trait(kind: CmpTraitSpec) -> Seq<char> {
    match kind {
        CmpTraitSpec::PartialEq => "::std::cmp::PartialEq"@,
        CmpTraitSpec::PartialOrd => "::std::cmp::PartialOrd"@,
        CmpTraitSpec::Ord => "::std::cmp::Ord"@,
    }
}

/// The name of the comparison method.
pub open spec fn spec_cmp_method_name(kind: CmpTraitSpec) -> Seq<char> {
    match kind {
        CmpTraitSpec::PartialEq => "eq"@,
        CmpTraitSpec::PartialOrd => "partial_cmp"@,
        CmpTraitSpec::Ord => "cmp"@,
    }
}

/// The return type of the comparison method.
pub open spec fn spec_cmp_ty_ret(kind: CmpTraitSpec) -> Seq<char> {
    match kind {
        CmpTraitSpec::PartialEq => "bool"@,
        CmpTraitSpec::PartialOrd => "Option<::std::cmp::Ordering>"@,
        CmpTraitSpec::Ord => "::std::cmp::Ordering"@,
    }
}

/// The comparator resolved for the trait: the override from the comparator
/// spec, or the natural comparison.
pub open spec fn spec_cmp_comparator(kind: CmpTraitSpec, cmp_spec: &CmpSpec) -> Seq<char> {
    match kind {
        CmpTraitSpec::PartialEq => spec_cmp_partial_eq(cmp_spec),
        CmpTraitSpec::PartialOrd => spec_cmp_partial_ord(cmp_spec),
        CmpTraitSpec::Ord => spec_cmp_ord(cmp_spec),
    }
}

impl CmpTraitSpec {
    /// Renders the path of the comparison trait.
    pub fn target_trait(self) -> (r: &'static str)
        ensures
            r@ == spec_cmp_target_trait(self),
    {
        match self {
            CmpTraitSpec::PartialEq => "::std::cmp::PartialEq",
            CmpTraitSpec::PartialOrd => "::std::cmp::PartialOrd",
            CmpTraitSpec::Ord => "::std::cmp::Ord",
        }
    }

    /// Renders the name of the comparison method.
    pub fn method_name(self) -> (r: &'static str)
        ensures
            r@ == spec_cmp_method_name(self),
    {
        match self {
            CmpTraitSpec::PartialEq => "eq",
            CmpTraitSpec::PartialOrd => "partial_cmp",
            CmpTraitSpec::Ord => "cmp",
        }
    }

    /// Renders the comparator resolved for the trait.
    pub fn comparator(self, cmp_spec: &CmpSpec) -> (r: String)
        ensures
            r@ == spec_cmp_comparator(self, cmp_spec),
    {
        match self {
            CmpTraitSpec::PartialEq => cmp_spec.partial_eq(),
            CmpTraitSpec::PartialOrd => cmp_spec.partial_ord(),
            CmpTraitSpec::Ord => cmp_spec.ord(),
        }
    }

    /// Renders the return type of the comparison method.
    pub fn ty_ret(self) -> (r: &'static str)
        ensures
            r@ == spec_cmp_ty_ret(self),
    {
        match self {
            CmpTraitSpec::PartialEq => "bool",
            CmpTraitSpec::PartialOrd => "Option<::std::cmp::Ordering>",
            CmpTraitSpec::Ord => "::std::cmp::Ordering",
        }
    }
}

/// The extra trait-bound predicate injected when the inner type carries
/// generic type parameters: the inner type must support the comparison
/// against itself.
pub open spec fn spec_cmp_extra_pred(kind: CmpTraitSpec, ty_inner: Seq<char>) -> Seq<char> {
    match kind {
        CmpTraitSpec::PartialEq => ty_inner + ": ::std::cmp::PartialEq<"@ + ty_inner + ">"@,
        CmpTraitSpec::PartialOrd => ty_inner + ": ::std::cmp::PartialOrd<"@ + ty_inner + ">"@,
        CmpTraitSpec::Ord => ty_inner + ": ::std::cmp::Ord"@,
    }
}

/// The trait the impl targets, with its right-hand operand type where the
/// trait takes one.
pub open spec fn spec_cmp_target_text(kind: CmpTraitSpec, ty_rhs: Seq<char>) -> Seq<char> {
    match kind {
        CmpTraitSpec::Ord => spec_cmp_target_trait(kind),
        _ => spec_cmp_target_trait(kind) + "<"@ + ty_rhs + ">"@,
    }
}

/// The text of one comparison impl: project both operands to the inner type
/// and hand them to the resolved comparator.
pub open spec fn spec_cmp_impl_text(
    kind: CmpTraitSpec,
    lifetimes: Seq<Seq<char>>,
    type_params: Seq<Seq<char>>,
    predicates: Seq<Seq<char>>,
    has_type_params: bool,
    comparator: Seq<char>,
    ty_inner: Seq<char>,
    ty_lhs: Seq<char>,
    lhs_self_as_inner: Seq<char>,
    ty_rhs: Seq<char>,
    rhs_other_as_inner: Seq<char>,
) -> Seq<char> {
    let all_preds = if has_type_params {
        predicates + seq![spec_cmp_extra_pred(kind, ty_inner)]
    } else {
        predicates + Seq::<Seq<char>>::empty()
    };
    "impl "@ + spec_params_text_of(lifetimes, type_params) + " "@ + spec_cmp_target_text(
        kind,
        ty_rhs,
    ) + " for "@ + ty_lhs + " "@ + spec_where_clause_text_of(all_preds) + " { fn "@
        + spec_cmp_method_name(kind) + "(&self, other: &"@ + ty_rhs + ") -> "@ + spec_cmp_ty_ret(
        kind,
    ) + " { "@ + comparator + "("@ + lhs_self_as_inner + " as &"@ + ty_inner + ", "@
        + rhs_other_as_inner + " as &"@ + ty_inner + ") } }"@
}

/// One comparison impl to generate: the trait, the generics to use, and the
/// two operands with their projections to the inner type.
struct CmpImplSpec {
    trait_spec: CmpTraitSpec,
    generics: Generics,
    has_type_params: bool,
    comparator: String,
    ty_inner: String,
    ty_lhs: String,
    lhs_self_as_inner: String,
    ty_rhs: String,
    rhs_other_as_inner: String,
}

impl CmpImplSpec {
    fn gen_impl(&self) -> (r: String)
        requires
            self.generics.lifetimes@.len() < usize::MAX,
        ensures
            r@ == spec_cmp_impl_text(
                self.trait_spec,
                seq_views(self.generics.lifetimes@),
                seq_views(self.generics.type_params@),
                seq_views(self.generics.predicates@),
                self.has_type_params,
                self.comparator@,
                self.ty_inner@,
                self.ty_lhs@,
                self.lhs_self_as_inner@,
                self.ty_rhs@,
                self.rhs_other_as_inner@,
            ),
    {
        let target_trait = self.trait_spec.target_trait();
        let mut extra_preds: Vec<String> = Vec::new();
        if self.has_type_params {
            let mut pred = self.ty_inner.clone();
            match self.trait_spec {
                CmpTraitSpec::PartialEq => {
                    pred.append(": ::std::cmp::PartialEq<");
                    pred.append(self.ty_inner.as_str());
                    pred.append(">");
                },
                CmpTraitSpec::PartialOrd => {
                    pred.append(": ::std::cmp::PartialOrd<");
                    pred.append(self.ty_inner.as_str());
                    pred.append(">");
                },
                CmpTraitSpec::Ord => {
                    pred.append(": ::std::cmp::Ord");
                },
            }
            extra_preds.push(pred);
        }
        let (generics, _new_lts) = extend_generics(&self.generics, 0, &extra_preds);
        proof {
            assert(generics.lifetimes@ =~= self.generics.lifetimes@);
            assert(seq_views(generics.predicates@) =~= seq_views(self.generics.predicates@)
                + seq_views(extra_preds@));
            if self.has_type_params {
                assert(seq_views(extra_preds@) =~= seq![
                    spec_cmp_extra_pred(self.trait_spec, self.ty_inner@),
                ]);
            } else {
                assert(seq_views(extra_preds@) =~= Seq::<Seq<char>>::empty());
            }
        }
        let impl_generics = generics.params_text();
        let where_clause = generics.where_clause_text();
        let target: String = match self.trait_spec {
            CmpTraitSpec::Ord => String::from_str(target_trait),
            _ => {
                let mut t = String::from_str(target_trait);
                t.append("<");
                t.append(self.ty_rhs.as_str());
                t.append(">");
                t
            },
        };
        let method_name = self.trait_spec.method_name();
        let ty_ret = self.trait_spec.ty_ret();
        let mut r = String::from_str("impl ");
        r.append(impl_generics.as_str());
        r.append(" ");
        r.append(target.as_str());
        r.append(" for ");
        r.append(self.ty_lhs.as_str());
        r.append(" ");
        r.append(where_clause.as_str());
        r.append(" { fn ");
        r.append(method_name);
        r.append("(&self, other: &");
        r.append(self.ty_rhs.as_str());
        r.append(") -> ");
        r.append(ty_ret);
        r.append(" { ");
        r.append(self.comparator.as_str());
        r.append("(");
        r.append(self.lhs_self_as_inner.as_str());
        r.append(" as &");
        r.append(self.ty_inner.as_str());
        r.append(", ");
        r.append(self.rhs_other_as_inner.as_str());
        r.append(" as &");
        r.append(self.ty_inner.as_str());
        r.append(") } }");
        r
    }
}

/// The emitted text for the total-ordering capability.
pub open spec fn spec_gen_impl_ord(p: &TypeProps) -> Seq<char> {
    spec_cmp_impl_text(
        CmpTraitSpec::Ord,
        seq_views(p.generics.lifetimes@),
        seq_views(p.generics.type_params@),
        seq_views(p.generics.predicates@),
        p.generics.type_params@.len() > 0,
        spec_cmp_ord(&p.cmp_spec),
        p.ty_inner@,
        spec_ty_outer_generic(p),
        spec_outer_expr_as_inner(p, "self"@),
        spec_ty_outer_generic(p),
        spec_outer_expr_as_inner(p, "other"@),
    )
}

/// Generates the impl of the total-ordering capability: its one pairing is
/// wrapper against wrapper, through the total-ordering comparator.
pub fn gen_impl_ord(props: &TypeProps) -> (r: String)
    requires
        spec_props_wf(props),
    ensures
        r@ == spec_gen_impl_ord(props),
{
    let htp = props.has_type_params();
    let spec = CmpImplSpec {
        trait_spec: CmpTraitSpec::Ord,
        generics: props.generics.duplicate(),
        has_type_params: htp,
        comparator: props.cmp_spec.ord(),
        ty_inner: props.ty_inner.clone(),
        ty_lhs: props.ty_outer_generic(),
        lhs_self_as_inner: props.tokens_outer_expr_as_inner("self"),
        ty_rhs: props.ty_outer_generic(),
        rhs_other_as_inner: props.tokens_outer_expr_as_inner("other"),
    };
    spec.gen_impl()
}

/// The emitted text for the `inner` pairing family.
pub open spec fn spec_cmp_inner_text(kind: CmpTraitSpec, comparator: Seq<char>, p: &TypeProps) -> Seq<char> {
    let lv = seq_views(p.generics.lifetimes@);
    let tv = seq_views(p.generics.type_params@);
    let pv = seq_views(p.generics.predicates@);
    let htp = p.generics.type_params@.len() > 0;
    let f1 = spec_fresh_lifetimes(lv, 1);
    let base = spec_cmp_impl_text(kind, lv, tv, pv, htp, comparator, p.ty_inner@, spec_ty_outer_generic(p), spec_outer_expr_as_inner(p, "self"@), p.ty_inner@, "other"@);
    if p.inner_sizedness == Sizedness::Sized && htp {
        base
    } else {
        base + spec_cmp_impl_text(kind, lv + f1, tv, pv, htp, comparator, p.ty_inner@, "&"@ + f1[0] + " "@ + spec_ty_outer_generic(p), spec_outer_expr_as_inner(p, "*self"@), p.ty_inner@, "other"@) + spec_cmp_impl_text(kind, lv + f1, tv, pv, htp, comparator, p.ty_inner@, spec_ty_outer_generic(p), spec_outer_expr_as_inner(p, "self"@), "&"@ + f1[0] + " "@ + p.ty_inner@, "*other"@)
    }
}

fn gen_cmp_inner(kind: CmpTraitSpec, comparator: &String, props: &TypeProps) -> (r: String)
    requires
        spec_props_wf(props),
    ensures
        r@ == spec_cmp_inner_text(kind, comparator@, props),
{
    let htp = props.has_type_params();
    let part_0 = CmpImplSpec {
        trait_spec: kind,
        generics: props.generics.duplicate(),
        has_type_params: htp,
        comparator: comparator.clone(),
        ty_inner: props.ty_inner.clone(),
        ty_lhs: props.ty_outer_generic(),
        lhs_self_as_inner: props.tokens_outer_expr_as_inner("self"),
        ty_rhs: props.ty_inner.clone(),
        rhs_other_as_inner: String::from_str("other"),
    };
    let mut r = part_0.gen_impl();
    if !(props.inner_sizedness.is_sized() && htp) {
        let empty_preds_1: Vec<String> = Vec::new();
        let (g_1, lts1) = extend_generics(&props.generics, 1, &empty_preds_1);
        proof {
            assert(seq_views(g_1.lifetimes@) =~= seq_views(props.generics.lifetimes@) + seq_views(lts1@));
            assert(g_1.predicates@ =~= props.generics.predicates@);
            assert(seq_views(lts1@)[0] == lts1@[0]@);
        }
        let mut ty_lhs_1 = String::from_str("&");
        ty_lhs_1.append(lts1[0].as_str());
        ty_lhs_1.append(" ");
        ty_lhs_1.append(props.ty_outer_generic().as_str());
        let part_1 = CmpImplSpec {
            trait_spec: kind,
            generics: g_1,
            has_type_params: htp,
            comparator: comparator.clone(),
            ty_inner: props.ty_inner.clone(),
            ty_lhs: ty_lhs_1,
            lhs_self_as_inner: props.tokens_outer_expr_as_inner("*self"),
            ty_rhs: props.ty_inner.clone(),
            rhs_other_as_inner: String::from_str("other"),
        };
        r.append(part_1.gen_impl().as_str());
        let empty_preds_2: Vec<String> = Vec::new();
        let (g_2, lts1) = extend_generics(&props.generics, 1, &empty_preds_2);
        proof {
            assert(seq_views(g_2.lifetimes@) =~= seq_views(props.generics.lifetimes@) + seq_views(lts1@));
            assert(g_2.predicates@ =~= props.generics.predicates@);
            assert(seq_views(lts1@)[0] == lts1@[0]@);
        }
        let mut ty_rhs_2 = String::from_str("&");
        ty_rhs_2.append(lts1[0].as_str());
        ty_rhs_2.append(" ");
        ty_rhs_2.append(props.ty_inner.as_str());
        let part_2 = CmpImplSpec {
            trait_spec: kind,
            generics: g_2,
            has_type_params: htp,
            comparator: comparator.clone(),
            ty_inner: props.ty_inner.clone(),
            ty_lhs: props.ty_outer_generic(),
            lhs_self_as_inner: props.tokens_outer_expr_as_inner("self"),
            ty_rhs: ty_rhs_2,
            rhs_other_as_inner: String::from_str("*other"),
        };
        r.append(part_2.gen_impl().as_str());
    }
    r
}

/// The emitted text for the `inner_rev` pairing family.
pub open spec fn spec_cmp_inner_rev_text(kind: CmpTraitSpec, comparator: Seq<char>, p: &TypeProps) -> Seq<char> {
    let lv = seq_views(p.generics.lifetimes@);
    let tv = seq_views(p.generics.type_params@);
    let pv = seq_views(p.generics.predicates@);
    let htp = p.generics.type_params@.len() > 0;
    let f1 = spec_fresh_lifetimes(lv, 1);
    let base = spec_cmp_impl_text(kind, lv, tv, pv, htp, comparator, p.ty_inner@, p.ty_inner@, "self"@, spec_ty_outer_generic(p), spec_outer_expr_as_inner(p, "other"@));
    if p.inner_sizedness == Sizedness::Sized && htp {
        base
    } else {
        base + spec_cmp_impl_text(kind, lv + f1, tv, pv, htp, comparator, p.ty_inner@, p.ty_inner@, "self"@, "&"@ + f1[0] + " "@ + spec_ty_outer_generic(p), spec_outer_expr_as_inner(p, "*other"@)) + spec_cmp_impl_text(kind, lv + f1, tv, pv, htp, comparator, p.ty_inner@, "&"@ + f1[0] + " "@ + p.ty_inner@, "*self"@, spec_ty_outer_generic(p), spec_outer_expr_as_inner(p, "other"@))
    }
}

fn gen_cmp_inner_rev(kind: CmpTraitSpec, comparator: &String, props: &TypeProps) -> (r: String)
    requires
        spec_props_wf(props),
    ensures
        r@ == spec_cmp_inner_rev_text(kind, comparator@, props),
{
    let htp = props.has_type_params();
    let part_0 = CmpImplSpec {
        trait_spec: kind,
        generics: props.generics.duplicate(),
        has_type_params: htp,
        comparator: comparator.clone(),
        ty_inner: props.ty_inner.clone(),
        ty_lhs: props.ty_inner.clone(),
        lhs_self_as_inner: String::from_str("self"),
        ty_rhs: props.ty_outer_generic(),
        rhs_other_as_inner: props.tokens_outer_expr_as_inner("other"),
    };
    let mut r = part_0.gen_impl();
    if !(props.inner_sizedness.is_sized() && htp) {
        let empty_preds_1: Vec<String> = Vec::new();
        let (g_1, lts1) = extend_generics(&props.generics, 1, &empty_preds_1);
        proof {
            assert(seq_views(g_1.lifetimes@) =~= seq_views(props.generics.lifetimes@) + seq_views(lts1@));
            assert(g_1.predicates@ =~= props.generics.predicates@);
            assert(seq_views(lts1@)[0] == lts1@[0]@);
        }
        let mut ty_rhs_1 = String::from_str("&");
        ty_rhs_1.append(lts1[0].as_str());
        ty_rhs_1.append(" ");
        ty_rhs_1.append(props.ty_outer_generic().as_str());
        let part_1 = CmpImplSpec {
            trait_spec: kind,
            generics: g_1,
            has_type_params: htp,
            comparator: comparator.clone(),
            ty_inner: props.ty_inner.clone(),
            ty_lhs: props.ty_inner.clone(),
            lhs_self_as_inner: String::from_str("self"),
            ty_rhs: ty_rhs_1,
            rhs_other_as_inner: props.tokens_outer_expr_as_inner("*other"),
        };
        r.append(part_1.gen_impl().as_str());
        let empty_preds_2: Vec<String> = Vec::new();
        let (g_2, lts1) = extend_generics(&props.generics, 1, &empty_preds_2);
        proof {
            assert(seq_views(g_2.lifetimes@) =~= seq_views(props.generics.lifetimes@) + seq_views(lts1@));
            assert(g_2.predicates@ =~= props.generics.predicates@);
            assert(seq_views(lts1@)[0] == lts1@[0]@);
        }
        let mut ty_lhs_2 = String::from_str("&");
        ty_lhs_2.append(lts1[0].as_str());
        ty_lhs_2.append(" ");
        ty_lhs_2.append(props.ty_inner.as_str());
        let part_2 = CmpImplSpec {
            trait_spec: kind,
            generics: g_2,
            has_type_params: htp,
            comparator: comparator.clone(),
            ty_inner: props.ty_inner.clone(),
            ty_lhs: ty_lhs_2,
            lhs_self_as_inner: String::from_str("*self"),
            ty_rhs: props.ty_outer_generic(),
            rhs_other_as_inner: props.tokens_outer_expr_as_inner("other"),
        };
        r.append(part_2.gen_impl().as_str());
    }
    r
}

/// The emitted text for the `inner_cow` pairing family.
pub open spec fn spec_cmp_inner_cow_text(kind: CmpTraitSpec, comparator: Seq<char>, p: &TypeProps) -> Seq<char> {
    let lv = seq_views(p.generics.lifetimes@);
    let tv = seq_views(p.generics.type_params@);
    let pv = seq_views(p.generics.predicates@);
    let htp = p.generics.type_params@.len() > 0;
    let f1 = spec_fresh_lifetimes(lv, 1);
    let f2 = spec_fresh_lifetimes(lv, 2);
    let base = spec_cmp_impl_text(kind, lv + f1, tv, pv, htp, comparator, p.ty_inner@, "::std::borrow::Cow<"@ + f1[0] + ", "@ + p.ty_inner@ + ">"@, "&*self"@, spec_ty_outer_generic(p), spec_outer_expr_as_inner(p, "other"@));
    base + spec_cmp_impl_text(kind, lv + f2, tv, pv, htp, comparator, p.ty_inner@, "::std::borrow::Cow<"@ + f2[0] + ", "@ + p.ty_inner@ + ">"@, "&*self"@, "&"@ + f2[1] + " "@ + spec_ty_outer_generic(p), spec_outer_expr_as_inner(p, "*other"@))
}

fn gen_cmp_inner_cow(kind: CmpTraitSpec, comparator: &String, props: &TypeProps) -> (r: String)
    requires
        spec_props_wf(props),
    ensures
        r@ == spec_cmp_inner_cow_text(kind, comparator@, props),
{
    let htp = props.has_type_params();
    let empty_preds_0: Vec<String> = Vec::new();
    let (g_0, lts1) = extend_generics(&props.generics, 1, &empty_preds_0);
    proof {
        assert(seq_views(g_0.lifetimes@) =~= seq_views(props.generics.lifetimes@) + seq_views(lts1@));
        assert(g_0.predicates@ =~= props.generics.predicates@);
        assert(seq_views(lts1@)[0] == lts1@[0]@);
    }
    let mut ty_lhs_0 = String::from_str("::std::borrow::Cow<");
    ty_lhs_0.append(lts1[0].as_str());
    ty_lhs_0.append(", ");
    ty_lhs_0.append(props.ty_inner.as_str());
    ty_lhs_0.append(">");
    let part_0 = CmpImplSpec {
        trait_spec: kind,
        generics: g_0,
        has_type_params: htp,
        comparator: comparator.clone(),
        ty_inner: props.ty_inner.clone(),
        ty_lhs: ty_lhs_0,
        lhs_self_as_inner: String::from_str("&*self"),
        ty_rhs: props.ty_outer_generic(),
        rhs_other_as_inner: props.tokens_outer_expr_as_inner("other"),
    };
    let mut r = part_0.gen_impl();
    let empty_preds_1: Vec<String> = Vec::new();
    let (g_1, lts2) = extend_generics(&props.generics, 2, &empty_preds_1);
    proof {
        assert(seq_views(g_1.lifetimes@) =~= seq_views(props.generics.lifetimes@) + seq_views(lts2@));
        assert(g_1.predicates@ =~= props.generics.predicates@);
        assert(seq_views(lts2@)[0] == lts2@[0]@);
        assert(seq_views(lts2@)[1] == lts2@[1]@);
    }
    let mut ty_lhs_1 = String::from_str("::std::borrow::Cow<");
    ty_lhs_1.append(lts2[0].as_str());
    ty_lhs_1.append(", ");
    ty_lhs_1.append(props.ty_inner.as_str());
    ty_lhs_1.append(">");
    let mut ty_rhs_1 = String::from_str("&");
    ty_rhs_1.append(lts2[1].as_str());
    ty_rhs_1.append(" ");
    ty_rhs_1.append(props.ty_outer_generic().as_str());
    let part_1 = CmpImplSpec {
        trait_spec: kind,
        generics: g_1,
        has_type_params: htp,
        comparator: comparator.clone(),
        ty_inner: props.ty_inner.clone(),
        ty_lhs: ty_lhs_1,
        lhs_self_as_inner: String::from_str("&*self"),
        ty_rhs: ty_rhs_1,
        rhs_other_as_inner: props.tokens_outer_expr_as_inner("*other"),
    };
    r.append(part_1.gen_impl().as_str());
    r
}

/// The emitted text for the `inner_cow_rev` pairing family.
pub open spec fn spec_cmp_inner_cow_rev_text(kind: CmpTraitSpec, comparator: Seq<char>, p: &TypeProps) -> Seq<char> {
    let lv = seq_views(p.generics.lifetimes@);
    let tv = seq_views(p.generics.type_params@);
    let pv = seq_views(p.generics.predicates@);
    let htp = p.generics.type_params@.len() > 0;
    let f1 = spec_fresh_lifetimes(lv, 1);
    let f2 = spec_fresh_lifetimes(lv, 2);
    let base = spec_cmp_impl_text(kind, lv + f1, tv, pv, htp, comparator, p.ty_inner@, spec_ty_outer_generic(p), spec_outer_expr_as_inner(p, "self"@), "::std::borrow::Cow<"@ + f1[0] + ", "@ + p.ty_inner@ + ">"@, "&*other"@);
    base + spec_cmp_impl_text(kind, lv + f2, tv, pv, htp, comparator, p.ty_inner@, "&"@ + f2[0] + " "@ + spec_ty_outer_generic(p), spec_outer_expr_as_inner(p, "*self"@), "::std::borrow::Cow<"@ + f2[1] + ", "@ + p.ty_inner@ + ">"@, "&*other"@)
}

fn gen_cmp_inner_cow_rev(kind: CmpTraitSpec, comparator: &String, props: &TypeProps) -> (r: String)
    requires
        spec_props_wf(props),
    ensures
        r@ == spec_cmp_inner_cow_rev_text(kind, comparator@, props),
{
    let htp = props.has_type_params();
    let empty_preds_0: Vec<String> = Vec::new();
    let (g_0, lts1) = extend_generics(&props.generics, 1, &empty_preds_0);
    proof {
        assert(seq_views(g_0.lifetimes@) =~= seq_views(props.generics.lifetimes@) + seq_views(lts1@));
        assert(g_0.predicates@ =~= props.generics.predicates@);
        assert(seq_views(lts1@)[0] == lts1@[0]@);
    }
    let mut ty_rhs_0 = String::from_str("::std::borrow::Cow<");
    ty_rhs_0.append(lts1[0].as_str());
    ty_rhs_0.append(", ");
    ty_rhs_0.append(props.ty_inner.as_str());
    ty_rhs_0.append(">");
    let part_0 = CmpImplSpec {
        trait_spec: kind,
        generics: g_0,
        has_type_params: htp,
        comparator: comparator.clone(),
        ty_inner: props.ty_inner.clone(),
        ty_lhs: props.ty_outer_generic(),
        lhs_self_as_inner: props.tokens_outer_expr_as_inner("self"),
        ty_rhs: ty_rhs_0,
        rhs_other_as_inner: String::from_str("&*other"),
    };
    let mut r = part_0.gen_impl();
    let empty_preds_1: Vec<String> = Vec::new();
    let (g_1, lts2) = extend_generics(&props.generics, 2, &empty_preds_1);
    proof {
        assert(seq_views(g_1.lifetimes@) =~= seq_views(props.generics.lifetimes@) + seq_views(lts2@));
        assert(g_1.predicates@ =~= props.generics.predicates@);
        assert(seq_views(lts2@)[0] == lts2@[0]@);
        assert(seq_views(lts2@)[1] == lts2@[1]@);
    }
    let mut ty_lhs_1 = String::from_str("&");
    ty_lhs_1.append(lts2[0].as_str());
    ty_lhs_1.append(" ");
    ty_lhs_1.append(props.ty_outer_generic().as_str());
    let mut ty_rhs_1 = String::from_str("::std::borrow::Cow<");
    ty_rhs_1.append(lts2[1].as_str());
    ty_rhs_1.append(", ");
    ty_rhs_1.append(props.ty_inner.as_str());
    ty_rhs_1.append(">");
    let part_1 = CmpImplSpec {
        trait_spec: kind,
        generics: g_1,
        has_type_params: htp,
        comparator: comparator.clone(),
        ty_inner: props.ty_inner.clone(),
        ty_lhs: ty_lhs_1,
        lhs_self_as_inner: props.tokens_outer_expr_as_inner("*self"),
        ty_rhs: ty_rhs_1,
        rhs_other_as_inner: String::from_str("&*other"),
    };
    r.append(part_1.gen_impl().as_str());
    r
}

/// The emitted text for the `self_only` pairing family.
pub open spec fn spec_cmp_self_only_text(kind: CmpTraitSpec, comparator: Seq<char>, p: &TypeProps) -> Seq<char> {
    let lv = seq_views(p.generics.lifetimes@);
    let tv = seq_views(p.generics.type_params@);
    let pv = seq_views(p.generics.predicates@);
    let htp = p.generics.type_params@.len() > 0;
    let base = spec_cmp_impl_text(kind, lv, tv, pv, htp, comparator, p.ty_inner@, spec_ty_outer_generic(p), spec_outer_expr_as_inner(p, "self"@), spec_ty_outer_generic(p), spec_outer_expr_as_inner(p, "other"@));
    base
}

fn gen_cmp_self_only(kind: CmpTraitSpec, comparator: &String, props: &TypeProps) -> (r: String)
    requires
        spec_props_wf(props),
    ensures
        r@ == spec_cmp_self_only_text(kind, comparator@, props),
{
    let htp = props.has_type_params();
    let part_0 = CmpImplSpec {
        trait_spec: kind,
        generics: props.generics.duplicate(),
        has_type_params: htp,
        comparator: comparator.clone(),
        ty_inner: props.ty_inner.clone(),
        ty_lhs: props.ty_outer_generic(),
        lhs_self_as_inner: props.tokens_outer_expr_as_inner("self"),
        ty_rhs: props.ty_outer_generic(),
        rhs_other_as_inner: props.tokens_outer_expr_as_inner("other"),
    };
    let mut r = part_0.gen_impl();
    r
}

/// The emitted text for the `self_cow` pairing family.
pub open spec fn spec_cmp_self_cow_text(kind: CmpTraitSpec, comparator: Seq<char>, p: &TypeProps) -> Seq<char> {
    let lv = seq_views(p.generics.lifetimes@);
    let tv = seq_views(p.generics.type_params@);
    let pv = seq_views(p.generics.predicates@);
    let htp = p.generics.type_params@.len() > 0;
    let f1 = spec_fresh_lifetimes(lv, 1);
    let f2 = spec_fresh_lifetimes(lv, 2);
    let base = spec_cmp_impl_text(kind, lv + f1, tv, pv, htp, comparator, p.ty_inner@, "::std::borrow::Cow<"@ + f1[0] + ", "@ + spec_ty_outer_generic(p) + ">"@, spec_outer_expr_as_inner(p, "&*self"@), spec_ty_outer_generic(p), spec_outer_expr_as_inner(p, "other"@));
    base + spec_cmp_impl_text(kind, lv + f2, tv, pv, htp, comparator, p.ty_inner@, "::std::borrow::Cow<"@ + f2[0] + ", "@ + spec_ty_outer_generic(p) + ">"@, spec_outer_expr_as_inner(p, "&*self"@), "&"@ + f2[1] + " "@ + spec_ty_outer_generic(p), spec_outer_expr_as_inner(p, "*other"@))
}

fn gen_cmp_self_cow(kind: CmpTraitSpec, comparator: &String, props: &TypeProps) -> (r: String)
    requires
        spec_props_wf(props),
    ensures
        r@ == spec_cmp_self_cow_text(kind, comparator@, props),
{
    let htp = props.has_type_params();
    let empty_preds_0: Vec<String> = Vec::new();
    let (g_0, lts1) = extend_generics(&props.generics, 1, &empty_preds_0);
    proof {
        assert(seq_views(g_0.lifetimes@) =~= seq_views(props.generics.lifetimes@) + seq_views(lts1@));
        assert(g_0.predicates@ =~= props.generics.predicates@);
        assert(seq_views(lts1@)[0] == lts1@[0]@);
    }
    let mut ty_lhs_0 = String::from_str("::std::borrow::Cow<");
    ty_lhs_0.append(lts1[0].as_str());
    ty_lhs_0.append(", ");
    ty_lhs_0.append(props.ty_outer_generic().as_str());
    ty_lhs_0.append(">");
    let part_0 = CmpImplSpec {
        trait_spec: kind,
        generics: g_0,
        has_type_params: htp,
        comparator: comparator.clone(),
        ty_inner: props.ty_inner.clone(),
        ty_lhs: ty_lhs_0,
        lhs_self_as_inner: props.tokens_outer_expr_as_inner("&*self"),
        ty_rhs: props.ty_outer_generic(),
        rhs_other_as_inner: props.tokens_outer_expr_as_inner("other"),
    };
    let mut r = part_0.gen_impl();
    let empty_preds_1: Vec<String> = Vec::new();
    let (g_1, lts2) = extend_generics(&props.generics, 2, &empty_preds_1);
    proof {
        assert(seq_views(g_1.lifetimes@) =~= seq_views(props.generics.lifetimes@) + seq_views(lts2@));
        assert(g_1.predicates@ =~= props.generics.predicates@);
        assert(seq_views(lts2@)[0] == lts2@[0]@);
        assert(seq_views(lts2@)[1] == lts2@[1]@);
    }
    let mut ty_lhs_1 = String::from_str("::std::borrow::Cow<");
    ty_lhs_1.append(lts2[0].as_str());
    ty_lhs_1.append(", ");
    ty_lhs_1.append(props.ty_outer_generic().as_str());
    ty_lhs_1.append(">");
    let mut ty_rhs_1 = String::from_str("&");
    ty_rhs_1.append(lts2[1].as_str());
    ty_rhs_1.append(" ");
    ty_rhs_1.append(props.ty_outer_generic().as_str());
    let part_1 = CmpImplSpec {
        trait_spec: kind,
        generics: g_1,
        has_type_params: htp,
        comparator: comparator.clone(),
        ty_inner: props.ty_inner.clone(),
        ty_lhs: ty_lhs_1,
        lhs_self_as_inner: props.tokens_outer_expr_as_inner("&*self"),
        ty_rhs: ty_rhs_1,
        rhs_other_as_inner: props.tokens_outer_expr_as_inner("*other"),
    };
    r.append(part_1.gen_impl().as_str());
    r
}

/// The emitted text for the `self_cow_rev` pairing family.
pub open spec fn spec_cmp_self_cow_rev_text(kind: CmpTraitSpec, comparator: Seq<char>, p: &TypeProps) -> Seq<char> {
    let lv = seq_views(p.generics.lifetimes@);
    let tv = seq_views(p.generics.type_params@);
    let pv = seq_views(p.generics.predicates@);
    let htp = p.generics.type_params@.len() > 0;
    let f1 = spec_fresh_lifetimes(lv, 1);
    let f2 = spec_fresh_lifetimes(lv, 2);
    let base = spec_cmp_impl_text(kind, lv + f1, tv, pv, htp, comparator, p.ty_inner@, spec_ty_outer_generic(p), spec_outer_expr_as_inner(p, "self"@), "::std::borrow::Cow<"@ + f1[0] + ", "@ + spec_ty_outer_generic(p) + ">"@, spec_outer_expr_as_inner(p, "&*other"@));
    base + spec_cmp_impl_text(kind, lv + f2, tv, pv, htp, comparator, p.ty_inner@, "&"@ + f2[0] + " "@ + spec_ty_outer_generic(p), spec_outer_expr_as_inner(p, "*self"@), "::std::borrow::Cow<"@ + f2[1] + ", "@ + spec_ty_outer_generic(p) + ">"@, spec_outer_expr_as_inner(p, "&*other"@))
}

fn gen_cmp_self_cow_rev(kind: CmpTraitSpec, comparator: &String, props: &TypeProps) -> (r: String)
    requires
        spec_props_wf(props),
    ensures
        r@ == spec_cmp_self_cow_rev_text(kind, comparator@, props),
{
    let htp = props.has_type_params();
    let empty_preds_0: Vec<String> = Vec::new();
    let (g_0, lts1) = extend_generics(&props.generics, 1, &empty_preds_0);
    proof {
        assert(seq_views(g_0.lifetimes@) =~= seq_views(props.generics.lifetimes@) + seq_views(lts1@));
        assert(g_0.predicates@ =~= props.generics.predicates@);
        assert(seq_views(lts1@)[0] == lts1@[0]@);
    }
    let mut ty_rhs_0 = String::from_str("::std::borrow::Cow<");
    ty_rhs_0.append(lts1[0].as_str());
    ty_rhs_0.append(", ");
    ty_rhs_0.append(props.ty_outer_generic().as_str());
    ty_rhs_0.append(">");
    let part_0 = CmpImplSpec {
        trait_spec: kind,
        generics: g_0,
        has_type_params: htp,
        comparator: comparator.clone(),
        ty_inner: props.ty_inner.clone(),
        ty_lhs: props.ty_outer_generic(),
        lhs_self_as_inner: props.tokens_outer_expr_as_inner("self"),
        ty_rhs: ty_rhs_0,
        rhs_other_as_inner: props.tokens_outer_expr_as_inner("&*other"),
    };
    let mut r = part_0.gen_impl();
    let empty_preds_1: Vec<String> = Vec::new();
    let (g_1, lts2) = extend_generics(&props.generics, 2, &empty_preds_1);
    proof {
        assert(seq_views(g_1.lifetimes@) =~= seq_views(props.generics.lifetimes@) + seq_views(lts2@));
        assert(g_1.predicates@ =~= props.generics.predicates@);
        assert(seq_views(lts2@)[0] == lts2@[0]@);
        assert(seq_views(lts2@)[1] == lts2@[1]@);
    }
    let mut ty_lhs_1 = String::from_str("&");
    ty_lhs_1.append(lts2[0].as_str());
    ty_lhs_1.append(" ");
    ty_lhs_1.append(props.ty_outer_generic().as_str());
    let mut ty_rhs_1 = String::from_str("::std::borrow::Cow<");
    ty_rhs_1.append(lts2[1].as_str());
    ty_rhs_1.append(", ");
    ty_rhs_1.append(props.ty_outer_generic().as_str());
    ty_rhs_1.append(">");
    let part_1 = CmpImplSpec {
        trait_spec: kind,
        generics: g_1,
        has_type_params: htp,
        comparator: comparator.clone(),
        ty_inner: props.ty_inner.clone(),
        ty_lhs: ty_lhs_1,
        lhs_self_as_inner: props.tokens_outer_expr_as_inner("*self"),
        ty_rhs: ty_rhs_1,
        rhs_other_as_inner: props.tokens_outer_expr_as_inner("&*other"),
    };
    r.append(part_1.gen_impl().as_str());
    r
}

/// The emitted text for the `self_cow_and_inner` pairing family.
pub open spec fn spec_cmp_self_cow_and_inner_text(kind: CmpTraitSpec, comparator: Seq<char>, p: &TypeProps) -> Seq<char> {
    let lv = seq_views(p.generics.lifetimes@);
    let tv = seq_views(p.generics.type_params@);
    let pv = seq_views(p.generics.predicates@);
    let htp = p.generics.type_params@.len() > 0;
    let f1 = spec_fresh_lifetimes(lv, 1);
    let f2 = spec_fresh_lifetimes(lv, 2);
    let base = spec_cmp_impl_text(kind, lv + f1, tv, pv, htp, comparator, p.ty_inner@, "::std::borrow::Cow<"@ + f1[0] + ", "@ + spec_ty_outer_generic(p) + ">"@, spec_outer_expr_as_inner(p, "&*self"@), p.ty_inner@, "other"@);
    base + spec_cmp_impl_text(kind, lv + f2, tv, pv, htp, comparator, p.ty_inner@, "::std::borrow::Cow<"@ + f2[0] + ", "@ + spec_ty_outer_generic(p) + ">"@, spec_outer_expr_as_inner(p, "&*self"@), "&"@ + f2[1] + " "@ + p.ty_inner@, "*other"@)
}

fn gen_cmp_self_cow_and_inner(kind: CmpTraitSpec, comparator: &String, props: &TypeProps) -> (r: String)
    requires
        spec_props_wf(props),
    ensures
        r@ == spec_cmp_self_cow_and_inner_text(kind, comparator@, props),
{
    let htp = props.has_type_params();
    let empty_preds_0: Vec<String> = Vec::new();
    let (g_0, lts1) = extend_generics(&props.generics, 1, &empty_preds_0);
    proof {
        assert(seq_views(g_0.lifetimes@) =~= seq_views(props.generics.lifetimes@) + seq_views(lts1@));
        assert(g_0.predicates@ =~= props.generics.predicates@);
        assert(seq_views(lts1@)[0] == lts1@[0]@);
    }
    let mut ty_lhs_0 = String::from_str("::std::borrow::Cow<");
    ty_lhs_0.append(lts1[0].as_str());
    ty_lhs_0.append(", ");
    ty_lhs_0.append(props.ty_outer_generic().as_str());
    ty_lhs_0.append(">");
    let part_0 = CmpImplSpec {
        trait_spec: kind,
        generics: g_0,
        has_type_params: htp,
        comparator: comparator.clone(),
        ty_inner: props.ty_inner.clone(),
        ty_lhs: ty_lhs_0,
        lhs_self_as_inner: props.tokens_outer_expr_as_inner("&*self"),
        ty_rhs: props.ty_inner.clone(),
        rhs_other_as_inner: String::from_str("other"),
    };
    let mut r = part_0.gen_impl();
    let empty_preds_1: Vec<String> = Vec::new();
    let (g_1, lts2) = extend_generics(&props.generics, 2, &empty_preds_1);
    proof {
        assert(seq_views(g_1.lifetimes@) =~= seq_views(props.generics.lifetimes@) + seq_views(lts2@));
        assert(g_1.predicates@ =~= props.generics.predicates@);
        assert(seq_views(lts2@)[0] == lts2@[0]@);
        assert(seq_views(lts2@)[1] == lts2@[1]@);
    }
    let mut ty_lhs_1 = String::from_str("::std::borrow::Cow<");
    ty_lhs_1.append(lts2[0].as_str());
    ty_lhs_1.append(", ");
    ty_lhs_1.append(props.ty_outer_generic().as_str());
    ty_lhs_1.append(">");
    let mut ty_rhs_1 = String::from_str("&");
    ty_rhs_1.append(lts2[1].as_str());
    ty_rhs_1.append(" ");
    ty_rhs_1.append(props.ty_inner.as_str());
    let part_1 = CmpImplSpec {
        trait_spec: kind,
        generics: g_1,
        has_type_params: htp,
        comparator: comparator.clone(),
        ty_inner: props.ty_inner.clone(),
        ty_lhs: ty_lhs_1,
        lhs_self_as_inner: props.tokens_outer_expr_as_inner("&*self"),
        ty_rhs: ty_rhs_1,
        rhs_other_as_inner: String::from_str("*other"),
    };
    r.append(part_1.gen_impl().as_str());
    r
}

/// The emitted text for the `self_cow_and_inner_rev` pairing family.
pub open spec fn spec_cmp_self_cow_and_inner_rev_text(kind: CmpTraitSpec, comparator: Seq<char>, p: &TypeProps) -> Seq<char> {
    let lv = seq_views(p.generics.lifetimes@);
    let tv = seq_views(p.generics.type_params@);
    let pv = seq_views(p.generics.predicates@);
    let htp = p.generics.type_params@.len() > 0;
    let f1 = spec_fresh_lifetimes(lv, 1);
    let f2 = spec_fresh_lifetimes(lv, 2);
    let base = spec_cmp_impl_text(kind, lv + f1, tv, pv, htp, comparator, p.ty_inner@, p.ty_inner@, "self"@, "::std::borrow::Cow<"@ + f1[0] + ", "@ + spec_ty_outer_generic(p) + ">"@, spec_outer_expr_as_inner(p, "&*other"@));
    base + spec_cmp_impl_text(kind, lv + f2, tv, pv, htp, comparator, p.ty_inner@, "&"@ + f2[0] + " "@ + p.ty_inner@, "*self"@, "::std::borrow::Cow<"@ + f2[1] + ", "@ + spec_ty_outer_generic(p) + ">"@, spec_outer_expr_as_inner(p, "&*other"@))
}

fn gen_cmp_self_cow_and_inner_rev(kind: CmpTraitSpec, comparator: &String, props: &TypeProps) -> (r: String)
    requires
        spec_props_wf(props),
    ensures
        r@ == spec_cmp_self_cow_and_inner_rev_text(kind, comparator@, props),
{
    let htp = props.has_type_params();
    let empty_preds_0: Vec<String> = Vec::new();
    let (g_0, lts1) = extend_generics(&props.generics, 1, &empty_preds_0);
    proof {
        assert(seq_views(g_0.lifetimes@) =~= seq_views(props.generics.lifetimes@) + seq_views(lts1@));
        assert(g_0.predicates@ =~= props.generics.predicates@);
        assert(seq_views(lts1@)[0] == lts1@[0]@);
    }
    let mut ty_rhs_0 = String::from_str("::std::borrow::Cow<");
    ty_rhs_0.append(lts1[0].as_str());
    ty_rhs_0.append(", ");
    ty_rhs_0.append(props.ty_outer_generic().as_str());
    ty_rhs_0.append(">");
    let part_0 = CmpImplSpec {
        trait_spec: kind,
        generics: g_0,
        has_type_params: htp,
        comparator: comparator.clone(),
        ty_inner: props.ty_inner.clone(),
        ty_lhs: props.ty_inner.clone(),
        lhs_self_as_inner: String::from_str("self"),
        ty_rhs: ty_rhs_0,
        rhs_other_as_inner: props.tokens_outer_expr_as_inner("&*other"),
    };
    let mut r = part_0.gen_impl();
    let empty_preds_1: Vec<String> = Vec::new();
    let (g_1, lts2) = extend_generics(&props.generics, 2, &empty_preds_1);
    proof {
        assert(seq_views(g_1.lifetimes@) =~= seq_views(props.generics.lifetimes@) + seq_views(lts2@));
        assert(g_1.predicates@ =~= props.generics.predicates@);
        assert(seq_views(lts2@)[0] == lts2@[0]@);
        assert(seq_views(lts2@)[1] == lts2@[1]@);
    }
    let mut ty_lhs_1 = String::from_str("&");
    ty_lhs_1.append(lts2[0].as_str());
    ty_lhs_1.append(" ");
    ty_lhs_1.append(props.ty_inner.as_str());
    let mut ty_rhs_1 = String::from_str("::std::borrow::Cow<");
    ty_rhs_1.append(lts2[1].as_str());
    ty_rhs_1.append(", ");
    ty_rhs_1.append(props.ty_outer_generic().as_str());
    ty_rhs_1.append(">");
    let part_1 = CmpImplSpec {
        trait_spec: kind,
        generics: g_1,
        has_type_params: htp,
        comparator: comparator.clone(),
        ty_inner: props.ty_inner.clone(),
        ty_lhs: ty_lhs_1,
        lhs_self_as_inner: String::from_str("*self"),
        ty_rhs: ty_rhs_1,
        rhs_other_as_inner: props.tokens_outer_expr_as_inner("&*other"),
    };
    r.append(part_1.gen_impl().as_str());
    r
}

/// Whether the derive target is one of the equality or partial-ordering
/// pairings this generator handles.
pub open spec fn spec_is_partial_cmp_target(d: Derive) -> bool {
    d == Derive::PartialEqInner || d == Derive::PartialOrdInner || d == Derive::PartialEqInnerRev || d == Derive::PartialOrdInnerRev || d == Derive::PartialEqInnerCow || d == Derive::PartialOrdInnerCow || d == Derive::PartialEqInnerCowRev || d == Derive::PartialOrdInnerCowRev || d == Derive::PartialEqSelf || d == Derive::PartialOrdSelf || d == Derive::PartialEqSelfCow || d == Derive::PartialOrdSelfCow || d == Derive::PartialEqSelfCowRev || d == Derive::PartialOrdSelfCowRev || d == Derive::PartialEqSelfCowAndInner || d == Derive::PartialOrdSelfCowAndInner || d == Derive::PartialEqSelfCowAndInnerRev || d == Derive::PartialOrdSelfCowAndInnerRev
}

/// The emitted text for one equality or partial-ordering derive target.
pub open spec fn spec_gen_impl_partial_cmp(target: Derive, p: &TypeProps) -> Seq<char> {
    match target {
        Derive::PartialEqInner => spec_cmp_inner_text(CmpTraitSpec::PartialEq, spec_cmp_partial_eq(&p.cmp_spec), p),
        Derive::PartialOrdInner => spec_cmp_inner_text(CmpTraitSpec::PartialOrd, spec_cmp_partial_ord(&p.cmp_spec), p),
        Derive::PartialEqInnerRev => spec_cmp_inner_rev_text(CmpTraitSpec::PartialEq, spec_cmp_partial_eq(&p.cmp_spec), p),
        Derive::PartialOrdInnerRev => spec_cmp_inner_rev_text(CmpTraitSpec::PartialOrd, spec_cmp_partial_ord(&p.cmp_spec), p),
        Derive::PartialEqInnerCow => spec_cmp_inner_cow_text(CmpTraitSpec::PartialEq, spec_cmp_partial_eq(&p.cmp_spec), p),
        Derive::PartialOrdInnerCow => spec_cmp_inner_cow_text(CmpTraitSpec::PartialOrd, spec_cmp_partial_ord(&p.cmp_spec), p),
        Derive::PartialEqInnerCowRev => spec_cmp_inner_cow_rev_text(CmpTraitSpec::PartialEq, spec_cmp_partial_eq(&p.cmp_spec), p),
        Derive::PartialOrdInnerCowRev => spec_cmp_inner_cow_rev_text(CmpTraitSpec::PartialOrd, spec_cmp_partial_ord(&p.cmp_spec), p),
        Derive::PartialEqSelf => spec_cmp_self_only_text(CmpTraitSpec::PartialEq, spec_cmp_partial_eq(&p.cmp_spec), p),
        Derive::PartialOrdSelf => spec_cmp_self_only_text(CmpTraitSpec::PartialOrd, spec_cmp_partial_ord(&p.cmp_spec), p),
        Derive::PartialEqSelfCow => spec_cmp_self_cow_text(CmpTraitSpec::PartialEq, spec_cmp_partial_eq(&p.cmp_spec), p),
        Derive::PartialOrdSelfCow => spec_cmp_self_cow_text(CmpTraitSpec::PartialOrd, spec_cmp_partial_ord(&p.cmp_spec), p),
        Derive::PartialEqSelfCowRev => spec_cmp_self_cow_rev_text(CmpTraitSpec::PartialEq, spec_cmp_partial_eq(&p.cmp_spec), p),
        Derive::PartialOrdSelfCowRev => spec_cmp_self_cow_rev_text(CmpTraitSpec::PartialOrd, spec_cmp_partial_ord(&p.cmp_spec), p),
        Derive::PartialEqSelfCowAndInner => spec_cmp_self_cow_and_inner_text(CmpTraitSpec::PartialEq, spec_cmp_partial_eq(&p.cmp_spec), p),
        Derive::PartialOrdSelfCowAndInner => spec_cmp_self_cow_and_inner_text(CmpTraitSpec::PartialOrd, spec_cmp_partial_ord(&p.cmp_spec), p),
        Derive::PartialEqSelfCowAndInnerRev => spec_cmp_self_cow_and_inner_rev_text(CmpTraitSpec::PartialEq, spec_cmp_partial_eq(&p.cmp_spec), p),
        Derive::PartialOrdSelfCowAndInnerRev => spec_cmp_self_cow_and_inner_rev_text(CmpTraitSpec::PartialOrd, spec_cmp_partial_ord(&p.cmp_spec), p),
        _ => Seq::empty(),
    }
}

/// Generates the impls for an equality or partial-ordering derive target:
/// one impl per operand pairing of the requested family, with the
/// reference-operand variants where the family provides them.
pub fn gen_impl_partial_cmp(target: Derive, props: &TypeProps) -> (r: String)
    requires
        spec_is_partial_cmp_target(target),
        spec_props_wf(props),
    ensures
        r@ == spec_gen_impl_partial_cmp(target, props),
{
    match target {
        Derive::PartialEqInner => {
            let comparator = props.cmp_spec.partial_eq();
            gen_cmp_inner(CmpTraitSpec::PartialEq, &comparator, props)
        },
        Derive::PartialOrdInner => {
            let comparator = props.cmp_spec.partial_ord();
            gen_cmp_inner(CmpTraitSpec::PartialOrd, &comparator, props)
        },
        Derive::PartialEqInnerRev => {
            let comparator = props.cmp_spec.partial_eq();
            gen_cmp_inner_rev(CmpTraitSpec::PartialEq, &comparator, props)
        },
        Derive::PartialOrdInnerRev => {
            let comparator = props.cmp_spec.partial_ord();
            gen_cmp_inner_rev(CmpTraitSpec::PartialOrd, &comparator, props)
        },
        Derive::PartialEqInnerCow => {
            let comparator = props.cmp_spec.partial_eq();
            gen_cmp_inner_cow(CmpTraitSpec::PartialEq, &comparator, props)
        },
        Derive::PartialOrdInnerCow => {
            let comparator = props.cmp_spec.partial_ord();
            gen_cmp_inner_cow(CmpTraitSpec::PartialOrd, &comparator, props)
        },
        Derive::PartialEqInnerCowRev => {
            let comparator = props.cmp_spec.partial_eq();
            gen_cmp_inner_cow_rev(CmpTraitSpec::PartialEq, &comparator, props)
        },
        Derive::PartialOrdInnerCowRev => {
            let comparator = props.cmp_spec.partial_ord();
            gen_cmp_inner_cow_rev(CmpTraitSpec::PartialOrd, &comparator, props)
        },
        Derive::PartialEqSelf => {
            let comparator = props.cmp_spec.partial_eq();
            gen_cmp_self_only(CmpTraitSpec::PartialEq, &comparator, props)
        },
        Derive::PartialOrdSelf => {
            let comparator = props.cmp_spec.partial_ord();
            gen_cmp_self_only(CmpTraitSpec::PartialOrd, &comparator, props)
        },
        Derive::PartialEqSelfCow => {
            let comparator = props.cmp_spec.partial_eq();
            gen_cmp_self_cow(CmpTraitSpec::PartialEq, &comparator, props)
        },
        Derive::PartialOrdSelfCow => {
            let comparator = props.cmp_spec.partial_ord();
            gen_cmp_self_cow(CmpTraitSpec::PartialOrd, &comparator, props)
        },
        Derive::PartialEqSelfCowRev => {
            let comparator = props.cmp_spec.partial_eq();
            gen_cmp_self_cow_rev(CmpTraitSpec::PartialEq, &comparator, props)
        },
        Derive::PartialOrdSelfCowRev => {
            let comparator = props.cmp_spec.partial_ord();
            gen_cmp_self_cow_rev(CmpTraitSpec::PartialOrd, &comparator, props)
        },
        Derive::PartialEqSelfCowAndInner => {
            let comparator = props.cmp_spec.partial_eq();
            gen_cmp_self_cow_and_inner(CmpTraitSpec::PartialEq, &comparator, props)
        },
        Derive::PartialOrdSelfCowAndInner => {
            let comparator = props.cmp_spec.partial_ord();
            gen_cmp_self_cow_and_inner(CmpTraitSpec::PartialOrd, &comparator, props)
        },
        Derive::PartialEqSelfCowAndInnerRev => {
            let comparator = props.cmp_spec.partial_eq();
            gen_cmp_self_cow_and_inner_rev(CmpTraitSpec::PartialEq, &comparator, props)
        },
        Derive::PartialOrdSelfCowAndInnerRev => {
            let comparator = props.cmp_spec.partial_ord();
            gen_cmp_self_cow_and_inner_rev(CmpTraitSpec::PartialOrd, &comparator, props)
        },
        _ => {
            proof {
                assert(false);
            }
            String::new()
        },
    }
}
} // verus!
