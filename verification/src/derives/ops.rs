//! Impl generators for the arithmetic capabilities: value-producing and
//! compound-assignment forms of the five operation families, over the
//! requested operand pairings, with reference-operand variants.
//!
//! Value-producing forms re-wrap the arithmetic result through the
//! unchecked construction path: arithmetic results are trusted to remain
//! valid under the wrapper's invariants, and are not re-validated.
//! Compound-assignment forms mutate the inner value in place through the
//! mutable-view accessor, again without re-validation.

use vstd::prelude::*;
use vstd::string::StringExecFns;

use crate::catalog::Derive;
use crate::generics::{extend_generics, spec_fresh_lifetimes};
use crate::props::{
    Sizedness, TypeProps, seq_views, spec_outer_expr_as_inner, spec_outer_expr_as_inner_mut,
    spec_outer_expr_into_inner, spec_params_text_of, spec_props_wf, spec_ty_outer_generic,
    spec_where_clause_text_of,
};

verus! {

/// The operand pairing of one arithmetic capability.
#[derive(Debug, Clone, Copy, PartialEq, Eq, Structural)]
pub enum OpPairing {
    /// Wrapper on both sides.
    SelfPair,
    /// Wrapper on the left, inner value on the right.
    InnerPair,
    /// Inner value on the left, wrapper on the right.
    InnerRevPair,
}

/// The operation family of one arithmetic capability.
#[derive(Debug, Clone, Copy, PartialEq, Eq, Structural)]
pub enum OpFamily {
    /// `std::ops::Add`.
    Add,
    /// `std::ops::Div`.
    Div,
    /// `std::ops::Mul`.
    Mul,
    /// `std::ops::Rem`.
    Rem,
    /// `std::ops::Sub`.
    Sub,
}

/// The structural metadata of one arithmetic capability: operation
/// family, value-producing or compound-assignment form, operand pairing,
/// and whether the right-hand operand is taken by reference.
#[derive(Debug, Clone, Copy, PartialEq, Eq, Structural)]
pub struct OpSpec {
    /// Operation family.
    pub family: OpFamily,
    /// Compound-assignment form when true, value-producing form otherwise.
    pub assign: bool,
    /// Operand pairing.
    pub pairing: OpPairing,
    /// Whether the right-hand operand is taken by reference.
    pub by_ref: bool,
}

/// The structural metadata of an arithmetic derive target, if it is one.
pub open spec fn spec_op_spec_of(d: Derive) -> Option<OpSpec> {
    match d {
        Derive::AddSelf => Some(OpSpec { family: OpFamily::Add, assign: false, pairing: OpPairing::SelfPair, by_ref: false }),
        Derive::AddInner => Some(OpSpec { family: OpFamily::Add, assign: false, pairing: OpPairing::InnerPair, by_ref: false }),
        Derive::AddInnerRev => Some(OpSpec { family: OpFamily::Add, assign: false, pairing: OpPairing::InnerRevPair, by_ref: false }),
        Derive::AddRefSelf => Some(OpSpec { family: OpFamily::Add, assign: false, pairing: OpPairing::SelfPair, by_ref: true }),
        Derive::AddRefInner => Some(OpSpec { family: OpFamily::Add, assign: false, pairing: OpPairing::InnerPair, by_ref: true }),
        Derive::AddRefInnerRev => Some(OpSpec { family: OpFamily::Add, assign: false, pairing: OpPairing::InnerRevPair, by_ref: true }),
        Derive::AddAssignSelf => Some(OpSpec { family: OpFamily::Add, assign: true, pairing: OpPairing::SelfPair, by_ref: false }),
        Derive::AddAssignInner => Some(OpSpec { family: OpFamily::Add, assign: true, pairing: OpPairing::InnerPair, by_ref: false }),
        Derive::AddAssignRefSelf => Some(OpSpec { family: OpFamily::Add, assign: true, pairing: OpPairing::SelfPair, by_ref: true }),
        Derive::AddAssignRefInner => Some(OpSpec { family: OpFamily::Add, assign: true, pairing: OpPairing::InnerPair, by_ref: true }),
        Derive::DivSelf => Some(OpSpec { family: OpFamily::Div, assign: false, pairing: OpPairing::SelfPair, by_ref: false }),
        Derive::DivInner => Some(OpSpec { family: OpFamily::Div, assign: false, pairing: OpPairing::InnerPair, by_ref: false }),
        Derive::DivInnerRev => Some(OpSpec { family: OpFamily::Div, assign: false, pairing: OpPairing::InnerRevPair, by_ref: false }),
        Derive::DivRefSelf => Some(OpSpec { family: OpFamily::Div, assign: false, pairing: OpPairing::SelfPair, by_ref: true }),
        Derive::DivRefInner => Some(OpSpec { family: OpFamily::Div, assign: false, pairing: OpPairing::InnerPair, by_ref: true }),
        Derive::DivRefInnerRev => Some(OpSpec { family: OpFamily::Div, assign: false, pairing: OpPairing::InnerRevPair, by_ref: true }),
        Derive::DivAssignSelf => Some(OpSpec { family: OpFamily::Div, assign: true, pairing: OpPairing::SelfPair, by_ref: false }),
        Derive::DivAssignInner => Some(OpSpec { family: OpFamily::Div, assign: true, pairing: OpPairing::InnerPair, by_ref: false }),
        Derive::DivAssignRefSelf => Some(OpSpec { family: OpFamily::Div, assign: true, pairing: OpPairing::SelfPair, by_ref: true }),
        Derive::DivAssignRefInner => Some(OpSpec { family: OpFamily::Div, assign: true, pairing: OpPairing::InnerPair, by_ref: true }),
        Derive::MulSelf => Some(OpSpec { family: OpFamily::Mul, assign: false, pairing: OpPairing::SelfPair, by_ref: false }),
        Derive::MulInner => Some(OpSpec { family: OpFamily::Mul, assign: false, pairing: OpPairing::InnerPair, by_ref: false }),
        Derive::MulInnerRev => Some(OpSpec { family: OpFamily::Mul, assign: false, pairing: OpPairing::InnerRevPair, by_ref: false }),
        Derive::MulRefSelf => Some(OpSpec { family: OpFamily::Mul, assign: false, pairing: OpPairing::SelfPair, by_ref: true }),
        Derive::MulRefInner => Some(OpSpec { family: OpFamily::Mul, assign: false, pairing: OpPairing::InnerPair, by_ref: true }),
        Derive::MulRefInnerRev => Some(OpSpec { family: OpFamily::Mul, assign: false, pairing: OpPairing::InnerRevPair, by_ref: true }),
        Derive::MulAssignSelf => Some(OpSpec { family: OpFamily::Mul, assign: true, pairing: OpPairing::SelfPair, by_ref: false }),
        Derive::MulAssignInner => Some(OpSpec { family: OpFamily::Mul, assign: true, pairing: OpPairing::InnerPair, by_ref: false }),
        Derive::MulAssignRefSelf => Some(OpSpec { family: OpFamily::Mul, assign: true, pairing: OpPairing::SelfPair, by_ref: true }),
        Derive::MulAssignRefInner => Some(OpSpec { family: OpFamily::Mul, assign: true, pairing: OpPairing::InnerPair, by_ref: true }),
        Derive::RemSelf => Some(OpSpec { family: OpFamily::Rem, assign: false, pairing: OpPairing::SelfPair, by_ref: false }),
        Derive::RemInner => Some(OpSpec { family: OpFamily::Rem, assign: false, pairing: OpPairing::InnerPair, by_ref: false }),
        Derive::RemInnerRev => Some(OpSpec { family: OpFamily::Rem, assign: false, pairing: OpPairing::InnerRevPair, by_ref: false }),
        Derive::RemRefSelf => Some(OpSpec { family: OpFamily::Rem, assign: false, pairing: OpPairing::SelfPair, by_ref: true }),
        Derive::RemRefInner => Some(OpSpec { family: OpFamily::Rem, assign: false, pairing: OpPairing::InnerPair, by_ref: true }),
        Derive::RemRefInnerRev => Some(OpSpec { family: OpFamily::Rem, assign: false, pairing: OpPairing::InnerRevPair, by_ref: true }),
        Derive::RemAssignSelf => Some(OpSpec { family: OpFamily::Rem, assign: true, pairing: OpPairing::SelfPair, by_ref: false }),
        Derive::RemAssignInner => Some(OpSpec { family: OpFamily::Rem, assign: true, pairing: OpPairing::InnerPair, by_ref: false }),
        Derive::RemAssignRefSelf => Some(OpSpec { family: OpFamily::Rem, assign: true, pairing: OpPairing::SelfPair, by_ref: true }),
        Derive::RemAssignRefInner => Some(OpSpec { family: OpFamily::Rem, assign: true, pairing: OpPairing::InnerPair, by_ref: true }),
        Derive::SubSelf => Some(OpSpec { family: OpFamily::Sub, assign: false, pairing: OpPairing::SelfPair, by_ref: false }),
        Derive::SubInner => Some(OpSpec { family: OpFamily::Sub, assign: false, pairing: OpPairing::InnerPair, by_ref: false }),
        Derive::SubInnerRev => Some(OpSpec { family: OpFamily::Sub, assign: false, pairing: OpPairing::InnerRevPair, by_ref: false }),
        Derive::SubRefSelf => Some(OpSpec { family: OpFamily::Sub, assign: false, pairing: OpPairing::SelfPair, by_ref: true }),
        Derive::SubRefInner => Some(OpSpec { family: OpFamily::Sub, assign: false, pairing: OpPairing::InnerPair, by_ref: true }),
        Derive::SubRefInnerRev => Some(OpSpec { family: OpFamily::Sub, assign: false, pairing: OpPairing::InnerRevPair, by_ref: true }),
        Derive::SubAssignSelf => Some(OpSpec { family: OpFamily::Sub, assign: true, pairing: OpPairing::SelfPair, by_ref: false }),
        Derive::SubAssignInner => Some(OpSpec { family: OpFamily::Sub, assign: true, pairing: OpPairing::InnerPair, by_ref: false }),
        Derive::SubAssignRefSelf => Some(OpSpec { family: OpFamily::Sub, assign: true, pairing: OpPairing::SelfPair, by_ref: true }),
        Derive::SubAssignRefInner => Some(OpSpec { family: OpFamily::Sub, assign: true, pairing: OpPairing::InnerPair, by_ref: true }),
        _ => None,
    }
}

impl OpSpec {
    /// Returns the structural metadata of an arithmetic derive target,
    /// if it is one.
    pub fn from_derive_target(d: Derive) -> (r: Option<OpSpec>)
        ensures
            r == spec_op_spec_of(d),
    {
        match d {
            Derive::AddSelf => Some(OpSpec { family: OpFamily::Add, assign: false, pairing: OpPairing::SelfPair, by_ref: false }),
            Derive::AddInner => Some(OpSpec { family: OpFamily::Add, assign: false, pairing: OpPairing::InnerPair, by_ref: false }),
            Derive::AddInnerRev => Some(OpSpec { family: OpFamily::Add, assign: false, pairing: OpPairing::InnerRevPair, by_ref: false }),
            Derive::AddRefSelf => Some(OpSpec { family: OpFamily::Add, assign: false, pairing: OpPairing::SelfPair, by_ref: true }),
            Derive::AddRefInner => Some(OpSpec { family: OpFamily::Add, assign: false, pairing: OpPairing::InnerPair, by_ref: true }),
            Derive::AddRefInnerRev => Some(OpSpec { family: OpFamily::Add, assign: false, pairing: OpPairing::InnerRevPair, by_ref: true }),
            Derive::AddAssignSelf => Some(OpSpec { family: OpFamily::Add, assign: true, pairing: OpPairing::SelfPair, by_ref: false }),
            Derive::AddAssignInner => Some(OpSpec { family: OpFamily::Add, assign: true, pairing: OpPairing::InnerPair, by_ref: false }),
            Derive::AddAssignRefSelf => Some(OpSpec { family: OpFamily::Add, assign: true, pairing: OpPairing::SelfPair, by_ref: true }),
            Derive::AddAssignRefInner => Some(OpSpec { family: OpFamily::Add, assign: true, pairing: OpPairing::InnerPair, by_ref: true }),
            Derive::DivSelf => Some(OpSpec { family: OpFamily::Div, assign: false, pairing: OpPairing::SelfPair, by_ref: false }),
            Derive::DivInner => Some(OpSpec { family: OpFamily::Div, assign: false, pairing: OpPairing::InnerPair, by_ref: false }),
            Derive::DivInnerRev => Some(OpSpec { family: OpFamily::Div, assign: false, pairing: OpPairing::InnerRevPair, by_ref: false }),
            Derive::DivRefSelf => Some(OpSpec { family: OpFamily::Div, assign: false, pairing: OpPairing::SelfPair, by_ref: true }),
            Derive::DivRefInner => Some(OpSpec { family: OpFamily::Div, assign: false, pairing: OpPairing::InnerPair, by_ref: true }),
            Derive::DivRefInnerRev => Some(OpSpec { family: OpFamily::Div, assign: false, pairing: OpPairing::InnerRevPair, by_ref: true }),
            Derive::DivAssignSelf => Some(OpSpec { family: OpFamily::Div, assign: true, pairing: OpPairing::SelfPair, by_ref: false }),
            Derive::DivAssignInner => Some(OpSpec { family: OpFamily::Div, assign: true, pairing: OpPairing::InnerPair, by_ref: false }),
            Derive::DivAssignRefSelf => Some(OpSpec { family: OpFamily::Div, assign: true, pairing: OpPairing::SelfPair, by_ref: true }),
            Derive::DivAssignRefInner => Some(OpSpec { family: OpFamily::Div, assign: true, pairing: OpPairing::InnerPair, by_ref: true }),
            Derive::MulSelf => Some(OpSpec { family: OpFamily::Mul, assign: false, pairing: OpPairing::SelfPair, by_ref: false }),
            Derive::MulInner => Some(OpSpec { family: OpFamily::Mul, assign: false, pairing: OpPairing::InnerPair, by_ref: false }),
            Derive::MulInnerRev => Some(OpSpec { family: OpFamily::Mul, assign: false, pairing: OpPairing::InnerRevPair, by_ref: false }),
            Derive::MulRefSelf => Some(OpSpec { family: OpFamily::Mul, assign: false, pairing: OpPairing::SelfPair, by_ref: true }),
            Derive::MulRefInner => Some(OpSpec { family: OpFamily::Mul, assign: false, pairing: OpPairing::InnerPair, by_ref: true }),
            Derive::MulRefInnerRev => Some(OpSpec { family: OpFamily::Mul, assign: false, pairing: OpPairing::InnerRevPair, by_ref: true }),
            Derive::MulAssignSelf => Some(OpSpec { family: OpFamily::Mul, assign: true, pairing: OpPairing::SelfPair, by_ref: false }),
            Derive::MulAssignInner => Some(OpSpec { family: OpFamily::Mul, assign: true, pairing: OpPairing::InnerPair, by_ref: false }),
            Derive::MulAssignRefSelf => Some(OpSpec { family: OpFamily::Mul, assign: true, pairing: OpPairing::SelfPair, by_ref: true }),
            Derive::MulAssignRefInner => Some(OpSpec { family: OpFamily::Mul, assign: true, pairing: OpPairing::InnerPair, by_ref: true }),
            Derive::RemSelf => Some(OpSpec { family: OpFamily::Rem, assign: false, pairing: OpPairing::SelfPair, by_ref: false }),
            Derive::RemInner => Some(OpSpec { family: OpFamily::Rem, assign: false, pairing: OpPairing::InnerPair, by_ref: false }),
            Derive::RemInnerRev => Some(OpSpec { family: OpFamily::Rem, assign: false, pairing: OpPairing::InnerRevPair, by_ref: false }),
            Derive::RemRefSelf => Some(OpSpec { family: OpFamily::Rem, assign: false, pairing: OpPairing::SelfPair, by_ref: true }),
            Derive::RemRefInner => Some(OpSpec { family: OpFamily::Rem, assign: false, pairing: OpPairing::InnerPair, by_ref: true }),
            Derive::RemRefInnerRev => Some(OpSpec { family: OpFamily::Rem, assign: false, pairing: OpPairing::InnerRevPair, by_ref: true }),
            Derive::RemAssignSelf => Some(OpSpec { family: OpFamily::Rem, assign: true, pairing: OpPairing::SelfPair, by_ref: false }),
            Derive::RemAssignInner => Some(OpSpec { family: OpFamily::Rem, assign: true, pairing: OpPairing::InnerPair, by_ref: false }),
            Derive::RemAssignRefSelf => Some(OpSpec { family: OpFamily::Rem, assign: true, pairing: OpPairing::SelfPair, by_ref: true }),
            Derive::RemAssignRefInner => Some(OpSpec { family: OpFamily::Rem, assign: true, pairing: OpPairing::InnerPair, by_ref: true }),
            Derive::SubSelf => Some(OpSpec { family: OpFamily::Sub, assign: false, pairing: OpPairing::SelfPair, by_ref: false }),
            Derive::SubInner => Some(OpSpec { family: OpFamily::Sub, assign: false, pairing: OpPairing::InnerPair, by_ref: false }),
            Derive::SubInnerRev => Some(OpSpec { family: OpFamily::Sub, assign: false, pairing: OpPairing::InnerRevPair, by_ref: false }),
            Derive::SubRefSelf => Some(OpSpec { family: OpFamily::Sub, assign: false, pairing: OpPairing::SelfPair, by_ref: true }),
            Derive::SubRefInner => Some(OpSpec { family: OpFamily::Sub, assign: false, pairing: OpPairing::InnerPair, by_ref: true }),
            Derive::SubRefInnerRev => Some(OpSpec { family: OpFamily::Sub, assign: false, pairing: OpPairing::InnerRevPair, by_ref: true }),
            Derive::SubAssignSelf => Some(OpSpec { family: OpFamily::Sub, assign: true, pairing: OpPairing::SelfPair, by_ref: false }),
            Derive::SubAssignInner => Some(OpSpec { family: OpFamily::Sub, assign: true, pairing: OpPairing::InnerPair, by_ref: false }),
            Derive::SubAssignRefSelf => Some(OpSpec { family: OpFamily::Sub, assign: true, pairing: OpPairing::SelfPair, by_ref: true }),
            Derive::SubAssignRefInner => Some(OpSpec { family: OpFamily::Sub, assign: true, pairing: OpPairing::InnerPair, by_ref: true }),
            _ => None,
        }
    }
}
/// The name of the operation trait under `std::ops`.
pub open spec fn spec_op_trait_name(family: OpFamily, assign: bool) -> Seq<char> {
    match family {
        OpFamily::Add => if assign {
            "AddAssign"@
        } else {
            "Add"@
        },
        OpFamily::Div => if assign {
            "DivAssign"@
        } else {
            "Div"@
        },
        OpFamily::Mul => if assign {
            "MulAssign"@
        } else {
            "Mul"@
        },
        OpFamily::Rem => if assign {
            "RemAssign"@
        } else {
            "Rem"@
        },
        OpFamily::Sub => if assign {
            "SubAssign"@
        } else {
            "Sub"@
        },
    }
}

/// The name of the operation method.
pub open spec fn spec_op_method_name(family: OpFamily, assign: bool) -> Seq<char> {
    match family {
        OpFamily::Add => if assign {
            "add_assign"@
        } else {
            "add"@
        },
        OpFamily::Div => if assign {
            "div_assign"@
        } else {
            "div"@
        },
        OpFamily::Mul => if assign {
            "mul_assign"@
        } else {
            "mul"@
        },
        OpFamily::Rem => if assign {
            "rem_assign"@
        } else {
            "rem"@
        },
        OpFamily::Sub => if assign {
            "sub_assign"@
        } else {
            "sub"@
        },
    }
}

/// The operator symbol of the operation family.
pub open spec fn spec_op_symbol(family: OpFamily) -> Seq<char> {
    match family {
        OpFamily::Add => "+"@,
        OpFamily::Div => "/"@,
        OpFamily::Mul => "*"@,
        OpFamily::Rem => "%"@,
        OpFamily::Sub => "-"@,
    }
}

fn op_trait_name(family: OpFamily, assign: bool) -> (r: &'static str)
    ensures
        r@ == spec_op_trait_name(family, assign),
{
    match family {
        OpFamily::Add => if assign {
            "AddAssign"
        } else {
            "Add"
        },
        OpFamily::Div => if assign {
            "DivAssign"
        } else {
            "Div"
        },
        OpFamily::Mul => if assign {
            "MulAssign"
        } else {
            "Mul"
        },
        OpFamily::Rem => if assign {
            "RemAssign"
        } else {
            "Rem"
        },
        OpFamily::Sub => if assign {
            "SubAssign"
        } else {
            "Sub"
        },
    }
}

fn op_method_name(family: OpFamily, assign: bool) -> (r: &'static str)
    ensures
        r@ == spec_op_method_name(family, assign),
{
    match family {
        OpFamily::Add => if assign {
            "add_assign"
        } else {
            "add"
        },
        OpFamily::Div => if assign {
            "div_assign"
        } else {
            "div"
        },
        OpFamily::Mul => if assign {
            "mul_assign"
        } else {
            "mul"
        },
        OpFamily::Rem => if assign {
            "rem_assign"
        } else {
            "rem"
        },
        OpFamily::Sub => if assign {
            "sub_assign"
        } else {
            "sub"
        },
    }
}

fn op_symbol(family: OpFamily) -> (r: &'static str)
    ensures
        r@ == spec_op_symbol(family),
{
    match family {
        OpFamily::Add => "+",
        OpFamily::Div => "/",
        OpFamily::Mul => "*",
        OpFamily::Rem => "%",
        OpFamily::Sub => "-",
    }
}

/// The left-hand operand type of a value-producing impl.
pub open spec fn spec_op_lhs_ty(pairing: OpPairing, p: &TypeProps) -> Seq<char> {
    match pairing {
        OpPairing::InnerRevPair => p.ty_inner@,
        _ => spec_ty_outer_generic(p),
    }
}

/// The core right-hand operand type, before any reference is applied.
pub open spec fn spec_op_rhs_ty(pairing: OpPairing, p: &TypeProps) -> Seq<char> {
    match pairing {
        OpPairing::InnerPair => p.ty_inner@,
        _ => spec_ty_outer_generic(p),
    }
}

/// The projection of the consumed left-hand operand to the inner type.
pub open spec fn spec_op_lexpr(pairing: OpPairing, p: &TypeProps) -> Seq<char> {
    match pairing {
        OpPairing::InnerRevPair => "self"@,
        _ => spec_outer_expr_into_inner(p, "self"@),
    }
}

/// The projection of the right-hand operand to the inner type.
pub open spec fn spec_op_rexpr(pairing: OpPairing, by_ref: bool, p: &TypeProps) -> Seq<char> {
    match pairing {
        OpPairing::InnerPair => if by_ref {
            "*other"@
        } else {
            "other"@
        },
        _ => if by_ref {
            "*"@ + spec_outer_expr_as_inner(p, "other"@)
        } else {
            spec_outer_expr_into_inner(p, "other"@)
        },
    }
}

/// The extra trait-bound predicate injected when the wrapper carries type
/// parameters: the inner type must support the operation on itself.
pub open spec fn spec_op_extra_pred(op: OpSpec, p: &TypeProps) -> Seq<char> {
    if op.assign {
        p.ty_inner@ + ": ::std::ops::"@ + spec_op_trait_name(op.family, true) + "<"@ + p.ty_inner@
            + ">"@
    } else {
        p.ty_inner@ + ": ::std::ops::"@ + spec_op_trait_name(op.family, false) + "<"@ + p.ty_inner@
            + ", Output = "@ + p.ty_inner@ + ">"@
    }
}

/// The emitted text for one arithmetic capability over a `Fixed` inner
/// type.
pub open spec fn spec_gen_impl_op_sized(op: OpSpec, p: &TypeProps) -> Seq<char> {
    let lv = seq_views(p.generics.lifetimes@);
    let tv = seq_views(p.generics.type_params@);
    let pv = seq_views(p.generics.predicates@);
    let extra = if p.generics.type_params@.len() > 0 {
        seq![spec_op_extra_pred(op, p)]
    } else {
        Seq::<Seq<char>>::empty()
    };
    let wc = spec_where_clause_text_of(pv + extra);
    let tn = spec_op_trait_name(op.family, op.assign);
    let m = spec_op_method_name(op.family, op.assign);
    let sym = spec_op_symbol(op.family);
    let rhs = spec_op_rhs_ty(op.pairing, p);
    let rexpr = spec_op_rexpr(op.pairing, op.by_ref, p);
    if !op.assign {
        if !op.by_ref {
            "impl "@ + spec_params_text_of(lv, tv) + " ::std::ops::"@ + tn + "<"@ + rhs + "> for "@
                + spec_op_lhs_ty(op.pairing, p) + " "@ + wc + " { type Output = "@
                + spec_ty_outer_generic(p) + "; fn "@ + m + "(self, other: "@ + rhs
                + ") -> Self::Output { unsafe { <"@ + spec_ty_outer_generic(p)
                + " as ::opaque_typedef::OpaqueTypedef>::from_inner_unchecked("@ + spec_op_lexpr(
                op.pairing,
                p,
            ) + " "@ + sym + " "@ + rexpr + ") } } }"@
        } else {
            let lt = spec_fresh_lifetimes(lv, 1)[0];
            "impl "@ + spec_params_text_of(lv + spec_fresh_lifetimes(lv, 1), tv) + " ::std::ops::"@
                + tn + "<&"@ + lt + " "@ + rhs + "> for "@ + spec_op_lhs_ty(op.pairing, p) + " "@
                + wc + " { type Output = "@ + spec_ty_outer_generic(p) + "; fn "@ + m
                + "(self, other: &"@ + lt + " "@ + rhs + ") -> Self::Output { unsafe { <"@
                + spec_ty_outer_generic(p)
                + " as ::opaque_typedef::OpaqueTypedef>::from_inner_unchecked("@ + spec_op_lexpr(
                op.pairing,
                p,
            ) + " "@ + sym + " "@ + rexpr + ") } } }"@
        }
    } else {
        if !op.by_ref {
            "impl "@ + spec_params_text_of(lv, tv) + " ::std::ops::"@ + tn + "<"@ + rhs + "> for "@
                + spec_ty_outer_generic(p) + " "@ + wc + " { fn "@ + m + "(&mut self, other: "@
                + rhs + ") { *"@ + spec_outer_expr_as_inner_mut(p, "self"@) + " "@ + sym + "= "@
                + rexpr + "; } }"@
        } else {
            let lt = spec_fresh_lifetimes(lv, 1)[0];
            "impl "@ + spec_params_text_of(lv + spec_fresh_lifetimes(lv, 1), tv) + " ::std::ops::"@
                + tn + "<&"@ + lt + " "@ + rhs + "> for "@ + spec_ty_outer_generic(p) + " "@ + wc
                + " { fn "@ + m + "(&mut self, other: &"@ + lt + " "@ + rhs + ") { *"@
                + spec_outer_expr_as_inner_mut(p, "self"@) + " "@ + sym + "= "@ + rexpr + "; } }"@
        }
    }
}

impl OpSpec {
    /// Generates the impl for one arithmetic capability over a `Fixed`
    /// inner type. Compound assignment needs the descriptor's
    /// mutable-reference permission.
    pub fn gen_impl_sized(&self, props: &TypeProps) -> (r: String)
        requires
            props.inner_sizedness == Sizedness::Sized,
            self.assign ==> props.is_mut_ref_allowed,
            spec_props_wf(props),
        ensures
            r@ == spec_gen_impl_op_sized(*self, props),
    {
        let tn = op_trait_name(self.family, self.assign);
        let m = op_method_name(self.family, self.assign);
        let sym = op_symbol(self.family);
        let mut extra_preds: Vec<String> = Vec::new();
        if props.has_type_params() {
            let mut pred = props.ty_inner.clone();
            pred.append(": ::std::ops::");
            pred.append(tn);
            pred.append("<");
            pred.append(props.ty_inner.as_str());
            if self.assign {
                pred.append(">");
            } else {
                pred.append(", Output = ");
                pred.append(props.ty_inner.as_str());
                pred.append(">");
            }
            extra_preds.push(pred);
            proof {
                assert(seq_views(extra_preds@) =~= seq![spec_op_extra_pred(*self, props)]);
            }
        }
        let rhs: String = match self.pairing {
            OpPairing::InnerPair => props.ty_inner.clone(),
            _ => props.ty_outer_generic(),
        };
        let rexpr: String = match self.pairing {
            OpPairing::InnerPair => {
                if self.by_ref {
                    String::from_str("*other")
                } else {
                    String::from_str("other")
                }
            },
            _ => {
                if self.by_ref {
                    let mut e = String::from_str("*");
                    e.append(props.tokens_outer_expr_as_inner("other").as_str());
                    e
                } else {
                    props.tokens_outer_expr_into_inner("other")
                }
            },
        };
        if !self.assign {
            let lhs: String = match self.pairing {
                OpPairing::InnerRevPair => props.ty_inner.clone(),
                _ => props.ty_outer_generic(),
            };
            let lexpr: String = match self.pairing {
                OpPairing::InnerRevPair => String::from_str("self"),
                _ => props.tokens_outer_expr_into_inner("self"),
            };
            if !self.by_ref {
                let (generics, _lts) = extend_generics(&props.generics, 0, &extra_preds);
                proof {
                    assert(generics.lifetimes@ =~= props.generics.lifetimes@);
                    assert(seq_views(generics.predicates@) =~= seq_views(
                        props.generics.predicates@,
                    ) + seq_views(extra_preds@));
                    if !(props.generics.type_params@.len() > 0) {
                        assert(seq_views(extra_preds@) =~= Seq::<Seq<char>>::empty());
                    }
                }
                let params = generics.params_text();
                let wc = generics.where_clause_text();
                let mut r = String::from_str("impl ");
                r.append(params.as_str());
                r.append(" ::std::ops::");
                r.append(tn);
                r.append("<");
                r.append(rhs.as_str());
                r.append("> for ");
                r.append(lhs.as_str());
                r.append(" ");
                r.append(wc.as_str());
                r.append(" { type Output = ");
                r.append(props.ty_outer_generic().as_str());
                r.append("; fn ");
                r.append(m);
                r.append("(self, other: ");
                r.append(rhs.as_str());
                r.append(") -> Self::Output { unsafe { <");
                r.append(props.ty_outer_generic().as_str());
                r.append(" as ::opaque_typedef::OpaqueTypedef>::from_inner_unchecked(");
                r.append(lexpr.as_str());
                r.append(" ");
                r.append(sym);
                r.append(" ");
                r.append(rexpr.as_str());
                r.append(") } } }");
                r
            } else {
                let (generics, lts) = extend_generics(&props.generics, 1, &extra_preds);
                proof {
                    assert(seq_views(generics.lifetimes@) =~= seq_views(props.generics.lifetimes@)
                        + seq_views(lts@));
                    assert(seq_views(lts@)[0] == lts@[0]@);
                    assert(seq_views(generics.predicates@) =~= seq_views(
                        props.generics.predicates@,
                    ) + seq_views(extra_preds@));
                    if !(props.generics.type_params@.len() > 0) {
                        assert(seq_views(extra_preds@) =~= Seq::<Seq<char>>::empty());
                    }
                }
                let params = generics.params_text();
                let wc = generics.where_clause_text();
                let mut r = String::from_str("impl ");
                r.append(params.as_str());
                r.append(" ::std::ops::");
                r.append(tn);
                r.append("<&");
                r.append(lts[0].as_str());
                r.append(" ");
                r.append(rhs.as_str());
                r.append("> for ");
                r.append(lhs.as_str());
                r.append(" ");
                r.append(wc.as_str());
                r.append(" { type Output = ");
                r.append(props.ty_outer_generic().as_str());
                r.append("; fn ");
                r.append(m);
                r.append("(self, other: &");
                r.append(lts[0].as_str());
                r.append(" ");
                r.append(rhs.as_str());
                r.append(") -> Self::Output { unsafe { <");
                r.append(props.ty_outer_generic().as_str());
                r.append(" as ::opaque_typedef::OpaqueTypedef>::from_inner_unchecked(");
                r.append(lexpr.as_str());
                r.append(" ");
                r.append(sym);
                r.append(" ");
                r.append(rexpr.as_str());
                r.append(") } } }");
                r
            }
        } else {
            let asmut = props.tokens_outer_expr_as_inner_mut("self");
            if !self.by_ref {
                let (generics, _lts) = extend_generics(&props.generics, 0, &extra_preds);
                proof {
                    assert(generics.lifetimes@ =~= props.generics.lifetimes@);
                    assert(seq_views(generics.predicates@) =~= seq_views(
                        props.generics.predicates@,
                    ) + seq_views(extra_preds@));
                    if !(props.generics.type_params@.len() > 0) {
                        assert(seq_views(extra_preds@) =~= Seq::<Seq<char>>::empty());
                    }
                }
                let params = generics.params_text();
                let wc = generics.where_clause_text();
                let mut r = String::from_str("impl ");
                r.append(params.as_str());
                r.append(" ::std::ops::");
                r.append(tn);
                r.append("<");
                r.append(rhs.as_str());
                r.append("> for ");
                r.append(props.ty_outer_generic().as_str());
                r.append(" ");
                r.append(wc.as_str());
                r.append(" { fn ");
                r.append(m);
                r.append("(&mut self, other: ");
                r.append(rhs.as_str());
                r.append(") { *");
                r.append(asmut.as_str());
                r.append(" ");
                r.append(sym);
                r.append("= ");
                r.append(rexpr.as_str());
                r.append("; } }");
                r
            } else {
                let (generics, lts) = extend_generics(&props.generics, 1, &extra_preds);
                proof {
                    assert(seq_views(generics.lifetimes@) =~= seq_views(props.generics.lifetimes@)
                        + seq_views(lts@));
                    assert(seq_views(lts@)[0] == lts@[0]@);
                    assert(seq_views(generics.predicates@) =~= seq_views(
                        props.generics.predicates@,
                    ) + seq_views(extra_preds@));
                    if !(props.generics.type_params@.len() > 0) {
                        assert(seq_views(extra_preds@) =~= Seq::<Seq<char>>::empty());
                    }
                }
                let params = generics.params_text();
                let wc = generics.where_clause_text();
                let mut r = String::from_str("impl ");
                r.append(params.as_str());
                r.append(" ::std::ops::");
                r.append(tn);
                r.append("<&");
                r.append(lts[0].as_str());
                r.append(" ");
                r.append(rhs.as_str());
                r.append("> for ");
                r.append(props.ty_outer_generic().as_str());
                r.append(" ");
                r.append(wc.as_str());
                r.append(" { fn ");
                r.append(m);
                r.append("(&mut self, other: &");
                r.append(lts[0].as_str());
                r.append(" ");
                r.append(rhs.as_str());
                r.append(") { *");
                r.append(asmut.as_str());
                r.append(" ");
                r.append(sym);
                r.append("= ");
                r.append(rexpr.as_str());
                r.append("; } }");
                r
            }
        }
    }
}

} // verus!
