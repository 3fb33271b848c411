//! The attribute model loader: turns the flat property bag found in the
//! `#[opaque_typedef(..)]` attributes into the structured descriptor the
//! engine consumes.

use vstd::prelude::*;

use crate::attrs::{Attribute, Meta, spec_has_word_meta, spec_is_attr_with_path, has_word_meta,
    is_attr_with_path};
use crate::catalog::{CatalogError, Derive, spec_derive_metas, spec_metas_err, spec_metas_targets};
use crate::props::{
    CmpSpec, DerefSpec, Field, Generics, Sizedness, TypeProps, ValidationSpec,
};
use crate::text::str_eq;

verus! {

/// A fault of the attribute model itself; fatal for the declaration.
#[derive(Debug)]
pub enum LoadError {
    /// A capability request was malformed or unknown.
    Catalog(CatalogError),
    /// `deref(..)` was given without its target type.
    MissingDerefTarget,
    /// `deref(..)` was given without its read converter.
    MissingDerefConverter,
    /// No field stands out as the inner field.
    MissingInnerField,
    /// The parameter list leaves no room for fresh lifetimes.
    OversizedParameterList,
}

/// The views of a sequence of name-value pairs.
pub open spec fn pair_views(ps: Seq<(String, String)>) -> Seq<(Seq<char>, Seq<char>)> {
    ps.map_values(|p: (String, String)| (p.0@, p.1@))
}

/// The name-value pairs among the entries of one list, from position `i`
/// on.
pub open spec fn spec_nv_pairs_from(entries: Seq<Meta>, i: int) -> Seq<(Seq<char>, Seq<char>)>
    decreases entries.len() - i,
{
    if i < 0 || i >= entries.len() {
        Seq::empty()
    } else {
        let head: Seq<(Seq<char>, Seq<char>)> = match entries[i] {
            Meta::NameValue(k, v) => seq![(k@, v@)],
            _ => Seq::empty(),
        };
        head + spec_nv_pairs_from(entries, i + 1)
    }
}

/// The name-value pairs under every `list(..)` entry among the given
/// items, from position `i` on.
pub open spec fn spec_list_pairs_from(items: Seq<Meta>, list: Seq<char>, i: int) -> Seq<
    (Seq<char>, Seq<char>),
>
    decreases items.len() - i,
{
    if i < 0 || i >= items.len() {
        Seq::empty()
    } else {
        let head: Seq<(Seq<char>, Seq<char>)> = match items[i] {
            Meta::List(ident, entries) => {
                if ident@ == list {
                    spec_nv_pairs_from(entries@, 0)
                } else {
                    Seq::empty()
                }
            },
            _ => Seq::empty(),
        };
        head + spec_list_pairs_from(items, list, i + 1)
    }
}

/// The name-value pairs under `#[opaque_typedef(<list>(..))]` across the
/// given attributes, from position `i` on.
pub open spec fn spec_attr_pairs_from(attrs: Seq<Attribute>, list: Seq<char>, i: int) -> Seq<
    (Seq<char>, Seq<char>),
>
    decreases attrs.len() - i,
{
    if i < 0 || i >= attrs.len() {
        Seq::empty()
    } else {
        let head: Seq<(Seq<char>, Seq<char>)> = match attrs[i].meta {
            Option::Some(m) => {
                if spec_is_attr_with_path(&attrs[i], seq!["opaque_typedef"@]) {
                    match m {
                        Meta::List(ident, items) => {
                            if ident@ == "opaque_typedef"@ {
                                spec_list_pairs_from(items@, list, 0)
                            } else {
                                Seq::empty()
                            }
                        },
                        _ => Seq::empty(),
                    }
                } else {
                    Seq::empty()
                }
            },
            Option::None => Seq::empty(),
        };
        head + spec_attr_pairs_from(attrs, list, i + 1)
    }
}

/// The value of the last pair with the given key, if any: a later
/// occurrence of a property overrides an earlier one.
pub open spec fn spec_last_value(pairs: Seq<(Seq<char>, Seq<char>)>, key: Seq<char>) -> Option<
    Seq<char>,
>
    decreases pairs.len(),
{
    if pairs.len() == 0 {
        None
    } else if pairs.last().0 == key {
        Some(pairs.last().1)
    } else {
        spec_last_value(pairs.drop_last(), key)
    }
}

/// The value of the `key = "value"` property under
/// `#[opaque_typedef(<list>(..))]`, across all attributes, the last
/// occurrence winning.
pub open spec fn spec_prop_value(attrs: Seq<Attribute>, list: Seq<char>, key: Seq<char>) -> Option<
    Seq<char>,
> {
    spec_last_value(spec_attr_pairs_from(attrs, list, 0), key)
}

/// The view of an optional string.
pub open spec fn opt_view(o: Option<String>) -> Option<Seq<char>> {
    match o {
        Some(s) => Some(s@),
        None => None,
    }
}

fn push_nv_pairs(entries: &Vec<Meta>, out: &mut Vec<(String, String)>)
    ensures
        pair_views(final(out)@) == pair_views(old(out)@) + spec_nv_pairs_from(entries@, 0),
{
    let n = entries.len();
    let mut i: usize = 0;
    while i < n
        invariant
            i <= n,
            n == entries@.len(),
            pair_views(out@) + spec_nv_pairs_from(entries@, i as int) == pair_views(old(out)@)
                + spec_nv_pairs_from(entries@, 0),
        decreases n - i,
    {
        let ghost prev = out@;
        match &entries[i] {
            Meta::NameValue(k, v) => {
                out.push((k.clone(), v.clone()));
                proof {
                    assert(pair_views(out@) =~= pair_views(prev) + seq![
                        (entries@[i as int]->NameValue_0@, entries@[i as int]->NameValue_1@),
                    ]);
                    assert(pair_views(out@) + spec_nv_pairs_from(entries@, i + 1) =~= pair_views(
                        prev,
                    ) + spec_nv_pairs_from(entries@, i as int));
                }
            },
            _ => {
                proof {
                    assert(pair_views(out@) + spec_nv_pairs_from(entries@, i + 1) =~= pair_views(
                        out@,
                    ) + spec_nv_pairs_from(entries@, i as int));
                }
            },
        }
        i = i + 1;
    }
    proof {
        assert(pair_views(out@) + spec_nv_pairs_from(entries@, n as int) =~= pair_views(out@));
    }
}

fn push_list_pairs(items: &Vec<Meta>, list: &str, out: &mut Vec<(String, String)>)
    ensures
        pair_views(final(out)@) == pair_views(old(out)@) + spec_list_pairs_from(
            items@,
            list@,
            0,
        ),
{
    let n = items.len();
    let mut i: usize = 0;
    while i < n
        invariant
            i <= n,
            n == items@.len(),
            pair_views(out@) + spec_list_pairs_from(items@, list@, i as int) == pair_views(
                old(out)@,
            ) + spec_list_pairs_from(items@, list@, 0),
        decreases n - i,
    {
        let ghost prev = out@;
        match &items[i] {
            Meta::List(ident, entries) => {
                if str_eq(ident.as_str(), list) {
                    push_nv_pairs(entries, out);
                    proof {
                        assert((pair_views(prev) + spec_nv_pairs_from(
                            items@[i as int]->List_1@,
                            0,
                        )) + spec_list_pairs_from(items@, list@, i + 1) =~= pair_views(prev) + (
                        spec_nv_pairs_from(items@[i as int]->List_1@, 0) + spec_list_pairs_from(
                            items@,
                            list@,
                            i + 1,
                        )));
                    }
                } else {
                    proof {
                        assert(pair_views(out@) + spec_list_pairs_from(items@, list@, i + 1)
                            =~= pair_views(out@) + spec_list_pairs_from(items@, list@, i as int));
                    }
                }
            },
            _ => {
                proof {
                    assert(pair_views(out@) + spec_list_pairs_from(items@, list@, i + 1)
                        =~= pair_views(out@) + spec_list_pairs_from(items@, list@, i as int));
                }
            },
        }
        i = i + 1;
    }
    proof {
        assert(pair_views(out@) + spec_list_pairs_from(items@, list@, n as int) =~= pair_views(
            out@,
        ));
    }
}

fn collect_prop_pairs(attrs: &Vec<Attribute>, list: &str) -> (r: Vec<(String, String)>)
    ensures
        pair_views(r@) == spec_attr_pairs_from(attrs@, list@, 0),
{
    let mut out: Vec<(String, String)> = Vec::new();
    let n = attrs.len();
    let mut i: usize = 0;
    while i < n
        invariant
            i <= n,
            n == attrs@.len(),
            pair_views(out@) + spec_attr_pairs_from(attrs@, list@, i as int)
                == spec_attr_pairs_from(attrs@, list@, 0),
        decreases n - i,
    {
        let ghost prev = out@;
        let attr_path: Vec<&str> = vec!["opaque_typedef"];
        let on_path = is_attr_with_path(&attrs[i], attr_path.as_slice());
        proof {
            assert(crate::attrs::path_views(attr_path@) =~= seq!["opaque_typedef"@]);
        }
        if on_path {
            match &attrs[i].meta {
                Option::Some(m) => {
                    match m {
                        Meta::List(ident, items) => {
                            if str_eq(ident.as_str(), "opaque_typedef") {
                                push_list_pairs(items, list, &mut out);
                                proof {
                                    assert((pair_views(prev) + spec_list_pairs_from(
                                        attrs@[i as int].meta->0->List_1@,
                                        list@,
                                        0,
                                    )) + spec_attr_pairs_from(attrs@, list@, i + 1) =~= pair_views(
                                        prev,
                                    ) + (spec_list_pairs_from(
                                        attrs@[i as int].meta->0->List_1@,
                                        list@,
                                        0,
                                    ) + spec_attr_pairs_from(attrs@, list@, i + 1)));
                                }
                            } else {
                                proof {
                                    assert(pair_views(out@) + spec_attr_pairs_from(
                                        attrs@,
                                        list@,
                                        i + 1,
                                    ) =~= pair_views(out@) + spec_attr_pairs_from(
                                        attrs@,
                                        list@,
                                        i as int,
                                    ));
                                }
                            }
                        },
                        _ => {
                            proof {
                                assert(pair_views(out@) + spec_attr_pairs_from(
                                    attrs@,
                                    list@,
                                    i + 1,
                                ) =~= pair_views(out@) + spec_attr_pairs_from(
                                    attrs@,
                                    list@,
                                    i as int,
                                ));
                            }
                        },
                    }
                },
                Option::None => {
                    proof {
                        assert(pair_views(out@) + spec_attr_pairs_from(attrs@, list@, i + 1)
                            =~= pair_views(out@) + spec_attr_pairs_from(attrs@, list@, i as int));
                    }
                },
            }
        } else {
            proof {
                assert(pair_views(out@) + spec_attr_pairs_from(attrs@, list@, i + 1) =~= pair_views(
                    out@,
                ) + spec_attr_pairs_from(attrs@, list@, i as int));
            }
        }
        i = i + 1;
    }
    proof {
        assert(pair_views(out@) + spec_attr_pairs_from(attrs@, list@, n as int) =~= pair_views(
            out@,
        ));
    }
    out
}

fn last_value(pairs: &Vec<(String, String)>, key: &str) -> (r: Option<String>)
    ensures
        opt_view(r) == spec_last_value(pair_views(pairs@), key@),
{
    let mut i = pairs.len();
    proof {
        assert(pair_views(pairs@).take(i as int) =~= pair_views(pairs@));
    }
    while i > 0
        invariant
            i <= pairs@.len(),
            spec_last_value(pair_views(pairs@).take(i as int), key@) == spec_last_value(
                pair_views(pairs@),
                key@,
            ),
        decreases i,
    {
        i = i - 1;
        proof {
            assert(pair_views(pairs@).take(i + 1).last() == pair_views(pairs@)[i as int]);
            assert(pair_views(pairs@).take(i + 1).drop_last() =~= pair_views(pairs@).take(
                i as int,
            ));
        }
        if str_eq(pairs[i].0.as_str(), key) {
            return Some(pairs[i].1.clone());
        }
    }
    proof {
        assert(pair_views(pairs@).take(0) =~= Seq::<(Seq<char>, Seq<char>)>::empty());
    }
    None
}

impl DerefSpec {
    /// Loads the dereference spec from the given property-bag items: the
    /// `name = "value"` properties under every `deref(..)` entry, a later
    /// occurrence overriding an earlier one. No `deref` property at all
    /// means no override; otherwise the target type and the read converter
    /// are required, the mutable converter optional.
    pub fn from_metaitems(metaitems: &Vec<Meta>) -> (r: Result<Option<DerefSpec>, LoadError>)
        ensures
            ({
                let pairs = spec_list_pairs_from(metaitems@, "deref"@, 0);
                if pairs.len() == 0 {
                    r matches Ok(o) && o is None
                } else if spec_last_value(pairs, "target"@) is None {
                    r matches Err(e) && e is MissingDerefTarget
                } else if spec_last_value(pairs, "deref"@) is None {
                    r matches Err(e) && e is MissingDerefConverter
                } else {
                    r matches Ok(o) && o matches Some(d) && opt_view(d.ty_deref_target)
                        == spec_last_value(pairs, "target"@) && opt_view(d.fn_name_deref)
                        == spec_last_value(pairs, "deref"@) && opt_view(d.fn_name_deref_mut)
                        == spec_last_value(pairs, "deref_mut"@)
                }
            }),
    {
        let mut pairs: Vec<(String, String)> = Vec::new();
        push_list_pairs(metaitems, "deref", &mut pairs);
        if pairs.len() == 0 {
            proof {
                assert(pair_views(pairs@).len() == 0);
                assert(spec_list_pairs_from(metaitems@, "deref"@, 0).len() == 0);
            }
            return Ok(None);
        }
        let target = match last_value(&pairs, "target") {
            Some(t) => t,
            None => {
                return Err(LoadError::MissingDerefTarget);
            },
        };
        let conv = match last_value(&pairs, "deref") {
            Some(c) => c,
            None => {
                return Err(LoadError::MissingDerefConverter);
            },
        };
        let conv_mut = last_value(&pairs, "deref_mut");
        Ok(
            Some(
                DerefSpec {
                    ty_deref_target: Some(target),
                    fn_name_deref: Some(conv),
                    fn_name_deref_mut: conv_mut,
                },
            ),
        )
    }
}

impl ValidationSpec {
    /// Loads the validation spec from the given property-bag items: the
    /// validator function, error type and error message are each optional.
    pub fn from_metaitems(metaitems: &Vec<Meta>) -> (r: ValidationSpec)
        ensures
            ({
                let pairs = spec_list_pairs_from(metaitems@, "validation"@, 0);
                &&& opt_view(r.fn_validator) == spec_last_value(pairs, "validator"@)
                &&& opt_view(r.ty_error) == spec_last_value(pairs, "error_type"@)
                &&& opt_view(r.error_msg) == spec_last_value(pairs, "error_msg"@)
            }),
    {
        let mut pairs: Vec<(String, String)> = Vec::new();
        push_list_pairs(metaitems, "validation", &mut pairs);
        ValidationSpec {
            fn_validator: last_value(&pairs, "validator"),
            ty_error: last_value(&pairs, "error_type"),
            error_msg: last_value(&pairs, "error_msg"),
        }
    }
}

impl CmpSpec {
    /// Loads the comparator spec from the given property-bag items: each
    /// comparison override is optional.
    pub fn from_metaitems(metaitems: &Vec<Meta>) -> (r: CmpSpec)
        ensures
            ({
                let pairs = spec_list_pairs_from(metaitems@, "cmp"@, 0);
                &&& opt_view(r.partial_eq) == spec_last_value(pairs, "partial_eq"@)
                &&& opt_view(r.partial_ord) == spec_last_value(pairs, "partial_ord"@)
                &&& opt_view(r.ord) == spec_last_value(pairs, "ord"@)
            }),
    {
        let mut pairs: Vec<(String, String)> = Vec::new();
        push_list_pairs(metaitems, "cmp", &mut pairs);
        CmpSpec {
            partial_eq: last_value(&pairs, "partial_eq"),
            partial_ord: last_value(&pairs, "partial_ord"),
            ord: last_value(&pairs, "ord"),
        }
    }
}

/// Whether the attribute is `#[opaque_typedef(.. allow_mut_ref ..)]`.
pub open spec fn spec_attr_allows_mut(a: Attribute) -> bool {
    match a.meta {
        Option::Some(m) => spec_is_attr_with_path(&a, seq!["opaque_typedef"@])
            && spec_has_word_meta(&m, seq!["opaque_typedef"@, "allow_mut_ref"@]),
        Option::None => false,
    }
}

/// Whether any attribute permits exposing a mutable reference to the inner
/// field.
pub open spec fn spec_allow_mut_ref(attrs: Seq<Attribute>) -> bool {
    exists|i: int| 0 <= i < attrs.len() && spec_attr_allows_mut(#[trigger] attrs[i])
}

fn allow_mut_ref(attrs: &Vec<Attribute>) -> (r: bool)
    ensures
        r == spec_allow_mut_ref(attrs@),
{
    let n = attrs.len();
    let mut i: usize = 0;
    let mut found = false;
    while i < n
        invariant
            i <= n,
            n == attrs@.len(),
            found <==> exists|j: int| 0 <= j < i && spec_attr_allows_mut(#[trigger] attrs@[j]),
        decreases n - i,
    {
        let attr_path: Vec<&str> = vec!["opaque_typedef"];
        proof {
            assert(crate::attrs::path_views(attr_path@) =~= seq!["opaque_typedef"@]);
        }
        if is_attr_with_path(&attrs[i], attr_path.as_slice()) {
            match &attrs[i].meta {
                Option::Some(m) => {
                    let word_path: Vec<&str> = vec!["opaque_typedef", "allow_mut_ref"];
                    proof {
                        assert(crate::attrs::path_views(word_path@) =~= seq![
                            "opaque_typedef"@,
                            "allow_mut_ref"@,
                        ]);
                    }
                    if has_word_meta(m, word_path.as_slice()) {
                        found = true;
                    }
                },
                Option::None => {},
            }
        }
        i = i + 1;
    }
    found
}

/// One field of the wrapper type declaration, as the loader sees it.
#[derive(Debug)]
pub struct FieldDef {
    /// The field name; none for a positional field.
    pub name: Option<String>,
    /// The field type text.
    pub ty: String,
    /// The field's own attributes.
    pub attrs: Vec<Attribute>,
}

/// Whether the field is marked `#[opaque_typedef(inner)]`.
pub open spec fn spec_field_marked_inner(f: &FieldDef) -> bool {
    exists|i: int|
        0 <= i < f.attrs@.len() && match (#[trigger] f.attrs@[i]).meta {
            Option::Some(m) => spec_is_attr_with_path(&f.attrs@[i], seq!["opaque_typedef"@])
                && spec_has_word_meta(&m, seq!["opaque_typedef"@, "inner"@]),
            Option::None => false,
        }
}

fn field_marked_inner(f: &FieldDef) -> (r: bool)
    ensures
        r == spec_field_marked_inner(f),
{
    let n = f.attrs.len();
    let mut i: usize = 0;
    let mut found = false;
    while i < n
        invariant
            i <= n,
            n == f.attrs@.len(),
            found <==> exists|j: int|
                0 <= j < i && match (#[trigger] f.attrs@[j]).meta {
                    Option::Some(m) => spec_is_attr_with_path(
                        &f.attrs@[j],
                        seq!["opaque_typedef"@],
                    ) && spec_has_word_meta(&m, seq!["opaque_typedef"@, "inner"@]),
                    Option::None => false,
                },
        decreases n - i,
    {
        let attr_path: Vec<&str> = vec!["opaque_typedef"];
        proof {
            assert(crate::attrs::path_views(attr_path@) =~= seq!["opaque_typedef"@]);
        }
        if is_attr_with_path(&f.attrs[i], attr_path.as_slice()) {
            match &f.attrs[i].meta {
                Option::Some(m) => {
                    let word_path: Vec<&str> = vec!["opaque_typedef", "inner"];
                    proof {
                        assert(crate::attrs::path_views(word_path@) =~= seq![
                            "opaque_typedef"@,
                            "inner"@,
                        ]);
                    }
                    if has_word_meta(m, word_path.as_slice()) {
                        found = true;
                    }
                },
                Option::None => {},
            }
        }
        i = i + 1;
    }
    found
}

/// The position of the first field marked as the inner field, from `i` on.
pub open spec fn spec_inner_index_from(fields: Seq<FieldDef>, i: int) -> Option<int>
    decreases fields.len() - i,
{
    if i < 0 || i >= fields.len() {
        None
    } else if spec_field_marked_inner(&fields[i]) {
        Some(i)
    } else {
        spec_inner_index_from(fields, i + 1)
    }
}

/// The position of the inner field: the only field when there is exactly
/// one, otherwise the first field marked `#[opaque_typedef(inner)]`.
pub open spec fn spec_inner_index(fields: Seq<FieldDef>) -> Option<int> {
    if fields.len() == 1 {
        Some(0int)
    } else {
        spec_inner_index_from(fields, 0)
    }
}

fn inner_index(fields: &Vec<FieldDef>) -> (r: Option<usize>)
    ensures
        match r {
            Option::Some(i) => spec_inner_index(fields@) == Some(i as int) && i < fields@.len(),
            Option::None => spec_inner_index(fields@) is None,
        },
{
    if fields.len() == 1 {
        return Some(0);
    }
    let n = fields.len();
    let mut i: usize = 0;
    while i < n
        invariant
            i <= n,
            n == fields@.len(),
            n != 1,
            spec_inner_index_from(fields@, i as int) == spec_inner_index_from(fields@, 0),
        decreases n - i,
    {
        if field_marked_inner(&fields[i]) {
            return Some(i);
        }
        i = i + 1;
    }
    None
}

/// A derive input as the loader consumes it: identifier, generic
/// parameters, attributes and fields, all as plain values.
#[derive(Debug)]
pub struct DeriveInput {
    /// The wrapper type identifier.
    pub ident: String,
    /// The generic parameters of the wrapper type.
    pub generics: Generics,
    /// The attributes on the wrapper type.
    pub attrs: Vec<Attribute>,
    /// The fields of the wrapper type.
    pub fields: Vec<FieldDef>,
}

/// Whether a loaded descriptor corresponds to the input: every hook and
/// flag comes from the property bag, the derive targets from the resolved
/// capability requests, and the inner field from the field selection.
pub open spec fn spec_loaded_ok(p: &TypeProps, input: &DeriveInput, sizedness: Sizedness) -> bool {
    let attrs = input.attrs@;
    &&& p.ty_outer@ == input.ident@
    &&& p.generics.lifetimes@ == input.generics.lifetimes@
    &&& p.generics.type_params@ == input.generics.type_params@
    &&& p.generics.predicates@ == input.generics.predicates@
    &&& p.inner_sizedness == sizedness
    &&& p.derives@ == spec_metas_targets(spec_derive_metas(attrs))
    &&& p.is_mut_ref_allowed == spec_allow_mut_ref(attrs)
    &&& opt_view(p.deref_spec.ty_deref_target) == if spec_attr_pairs_from(attrs, "deref"@, 0).len()
        == 0 {
        Option::<Seq<char>>::None
    } else {
        spec_prop_value(attrs, "deref"@, "target"@)
    }
    &&& opt_view(p.deref_spec.fn_name_deref) == if spec_attr_pairs_from(attrs, "deref"@, 0).len()
        == 0 {
        Option::<Seq<char>>::None
    } else {
        spec_prop_value(attrs, "deref"@, "deref"@)
    }
    &&& opt_view(p.deref_spec.fn_name_deref_mut) == if spec_attr_pairs_from(
        attrs,
        "deref"@,
        0,
    ).len() == 0 {
        Option::<Seq<char>>::None
    } else {
        spec_prop_value(attrs, "deref"@, "deref_mut"@)
    }
    &&& opt_view(p.validation_spec.fn_validator) == spec_prop_value(
        attrs,
        "validation"@,
        "validator"@,
    )
    &&& opt_view(p.validation_spec.ty_error) == spec_prop_value(attrs, "validation"@, "error_type"@)
    &&& opt_view(p.validation_spec.error_msg) == spec_prop_value(attrs, "validation"@, "error_msg"@)
    &&& opt_view(p.cmp_spec.partial_eq) == spec_prop_value(attrs, "cmp"@, "partial_eq"@)
    &&& opt_view(p.cmp_spec.partial_ord) == spec_prop_value(attrs, "cmp"@, "partial_ord"@)
    &&& opt_view(p.cmp_spec.ord) == spec_prop_value(attrs, "cmp"@, "ord"@)
    &&& match spec_inner_index(input.fields@) {
        Some(idx) => {
            &&& p.ty_inner@ == input.fields@[idx].ty@
            &&& match input.fields@[idx].name {
                Option::Some(n) => p.field_inner matches Field::Named(s) && s@ == n@,
                Option::None => p.field_inner == Field::Unnamed(idx as u64),
            }
        },
        None => false,
    }
    &&& crate::props::spec_props_wf(p)
}

impl TypeProps {
    /// Loads the descriptor for one wrapper type declaration from its
    /// input. All faults of the attribute model are detected here, before
    /// any generation starts: an unparseable capability request, an
    /// incomplete dereference override, or a declaration with no
    /// discernible inner field.
    pub fn load(input: DeriveInput, sizedness: Sizedness) -> (r: Result<TypeProps, LoadError>)
        ensures
            ({
                let attrs = input.attrs@;
                let deref_pairs = spec_attr_pairs_from(attrs, "deref"@, 0);
                if input.generics.lifetimes@.len() + 2 >= usize::MAX {
                    r matches Err(e) && e is OversizedParameterList
                } else if deref_pairs.len() != 0 && spec_prop_value(attrs, "deref"@, "target"@)
                    is None {
                    r matches Err(e) && e is MissingDerefTarget
                } else if deref_pairs.len() != 0 && spec_prop_value(attrs, "deref"@, "deref"@)
                    is None {
                    r matches Err(e) && e is MissingDerefConverter
                } else if spec_inner_index(input.fields@) is None {
                    r matches Err(e) && e is MissingInnerField
                } else if spec_metas_err(spec_derive_metas(attrs)) is Some {
                    r matches Err(e) && e is Catalog
                } else {
                    r matches Ok(p) && spec_loaded_ok(&p, &input, sizedness)
                }
            }),
    {
        let DeriveInput { ident, generics, attrs, fields } = input;
        if generics.lifetimes.len() >= usize::MAX - 2 {
            return Err(LoadError::OversizedParameterList);
        }
        let deref_pairs = collect_prop_pairs(&attrs, "deref");
        let deref_spec = if deref_pairs.len() == 0 {
            proof {
                assert(spec_attr_pairs_from(attrs@, "deref"@, 0).len() == 0);
            }
            DerefSpec { ty_deref_target: None, fn_name_deref: None, fn_name_deref_mut: None }
        } else {
            let target = match last_value(&deref_pairs, "target") {
                Some(t) => t,
                None => {
                    return Err(LoadError::MissingDerefTarget);
                },
            };
            let conv = match last_value(&deref_pairs, "deref") {
                Some(c) => c,
                None => {
                    return Err(LoadError::MissingDerefConverter);
                },
            };
            let conv_mut = last_value(&deref_pairs, "deref_mut");
            DerefSpec {
                ty_deref_target: Some(target),
                fn_name_deref: Some(conv),
                fn_name_deref_mut: conv_mut,
            }
        };
        let validation_pairs = collect_prop_pairs(&attrs, "validation");
        let validation_spec = ValidationSpec {
            fn_validator: last_value(&validation_pairs, "validator"),
            ty_error: last_value(&validation_pairs, "error_type"),
            error_msg: last_value(&validation_pairs, "error_msg"),
        };
        let cmp_pairs = collect_prop_pairs(&attrs, "cmp");
        let cmp_spec = CmpSpec {
            partial_eq: last_value(&cmp_pairs, "partial_eq"),
            partial_ord: last_value(&cmp_pairs, "partial_ord"),
            ord: last_value(&cmp_pairs, "ord"),
        };
        let is_mut_ref_allowed = allow_mut_ref(&attrs);
        let (field_inner, ty_inner) = match inner_index(&fields) {
            Some(idx) => {
                let field = &fields[idx];
                let model = match &field.name {
                    Some(name) => Field::Named(name.clone()),
                    None => Field::Unnamed(idx as u64),
                };
                (model, field.ty.clone())
            },
            None => {
                return Err(LoadError::MissingInnerField);
            },
        };
        let derives = match Derive::from_attrs(attrs) {
            Ok(derives) => derives,
            Err(e) => {
                return Err(LoadError::Catalog(e));
            },
        };
        Ok(
            TypeProps {
                ty_outer: ident,
                field_inner,
                ty_inner,
                generics,
                inner_sizedness: sizedness,
                derives,
                deref_spec,
                is_mut_ref_allowed,
                validation_spec,
                cmp_spec,
            },
        )
    }
}

} // verus!
