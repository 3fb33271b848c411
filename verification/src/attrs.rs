//! The plain attribute model: the property bag handed over by the
//! attribute-syntax parser, and utilities to query it.

use vstd::prelude::*;

use crate::text::str_eq;

verus! {

/// One meta item of an attribute.
#[derive(Debug)]
pub enum Meta {
    /// A bare word, `name`.
    Word(String),
    /// A parenthesized list, `name(item, ...)`.
    List(String, Vec<Meta>),
    /// A name-value pair, `name = "value"`.
    NameValue(String, String),
    /// A literal standing where a meta item was expected, carried as its
    /// display text.
    Literal(String),
}

/// One attribute: its path and its interpreted meta item, when it has one.
#[derive(Debug)]
pub struct Attribute {
    /// The path of the attribute, one segment per entry.
    pub path: Vec<String>,
    /// The interpreted meta item.
    pub meta: Option<Meta>,
}

/// The views of a sequence of string slices.
pub open spec fn path_views(ss: Seq<&str>) -> Seq<Seq<char>> {
    ss.map_values(|s: &str| s@)
}

/// Whether the attribute has the given path.
pub open spec fn spec_is_attr_with_path(attr: &Attribute, path: Seq<Seq<char>>) -> bool {
    crate::props::seq_views(attr.path@) == path
}

/// Checks whether the attribute has the given path.
pub fn is_attr_with_path(attr: &Attribute, path: &[&str]) -> (r: bool)
    ensures
        r == spec_is_attr_with_path(attr, path_views(path@)),
{
    if attr.path.len() != path.len() {
        proof {
            assert(crate::props::seq_views(attr.path@).len() == attr.path@.len());
            assert(path_views(path@).len() == path@.len());
        }
        return false;
    }
    let n = path.len();
    let mut i: usize = 0;
    while i < n
        invariant
            i <= n,
            n == attr.path@.len() == path@.len(),
            forall|j: int| 0 <= j < i ==> attr.path@[j]@ == path@[j]@,
        decreases n - i,
    {
        if !str_eq(attr.path[i].as_str(), path[i]) {
            proof {
                assert(crate::props::seq_views(attr.path@)[i as int] == attr.path@[i as int]@);
                assert(path_views(path@)[i as int] == path@[i as int]@);
            }
            return false;
        }
        i = i + 1;
    }
    proof {
        assert(crate::props::seq_views(attr.path@) =~= path_views(path@));
    }
    true
}

/// Whether the word meta item with the given path is specified.
pub open spec fn spec_has_word_meta(meta: &Meta, ident_path: Seq<Seq<char>>) -> bool
    decreases ident_path.len(),
{
    match meta {
        Meta::Word(ident) => ident_path.len() == 1 && ident@ == ident_path[0],
        Meta::List(ident, nested) => {
            if ident_path.len() > 1 && ident@ == ident_path[0] {
                exists|i: int|
                    0 <= i < nested@.len() && spec_has_word_meta(
                        #[trigger] &nested@[i],
                        ident_path.drop_first(),
                    )
            } else {
                false
            }
        },
        Meta::NameValue(_, _) => false,
        Meta::Literal(_) => false,
    }
}

/// Checks whether the word meta item with the given path is specified.
pub fn has_word_meta(meta: &Meta, ident_path: &[&str]) -> (r: bool)
    ensures
        r == spec_has_word_meta(meta, path_views(ident_path@)),
    decreases ident_path@.len(),
{
    match meta {
        Meta::Word(ident) => ident_path.len() == 1 && str_eq(ident.as_str(), ident_path[0]),
        Meta::List(ident, nested) => {
            if ident_path.len() > 1 && str_eq(ident.as_str(), ident_path[0]) {
                let rest = vstd::slice::slice_subrange(ident_path, 1, ident_path.len());
                proof {
                    assert(path_views(rest@) =~= path_views(ident_path@).drop_first());
                }
                let n = nested.len();
                let mut i: usize = 0;
                let mut found = false;
                while i < n
                    invariant
                        i <= n,
                        n == nested@.len(),
                        path_views(rest@) =~= path_views(ident_path@).drop_first(),
                        rest@.len() < ident_path@.len(),
                        found <==> exists|j: int|
                            0 <= j < i && spec_has_word_meta(
                                #[trigger] &nested@[j],
                                path_views(ident_path@).drop_first(),
                            ),
                    decreases n - i,
                {
                    if has_word_meta(&nested[i], rest) {
                        found = true;
                    }
                    i = i + 1;
                }
                found
            } else {
                false
            }
        },
        Meta::NameValue(_, _) => false,
        Meta::Literal(_) => false,
    }
}

/// The content of the meta item under the given path: the items of the list
/// reached by following the path idents, or nothing when the path does not
/// match.
pub open spec fn spec_meta_content_by_path(meta: Meta, path: Seq<Seq<char>>) -> Seq<Meta>
    decreases path.len(), 0int, 0int,
{
    if path.len() == 0 {
        Seq::empty()
    } else {
        match meta {
            Meta::List(ident, nested) => {
                if ident@ == path[0] {
                    spec_meta_items_by_path(nested@, path.drop_first())
                } else {
                    Seq::empty()
                }
            },
            _ => Seq::empty(),
        }
    }
}

/// The content of the meta items under the given path: everything when the
/// path is exhausted, otherwise the concatenation of the content of each
/// item.
pub open spec fn spec_meta_items_by_path(items: Seq<Meta>, path: Seq<Seq<char>>) -> Seq<Meta>
    decreases path.len(), 1int, items.len(),
{
    if items.len() == 0 {
        Seq::empty()
    } else if path.len() == 0 {
        items
    } else {
        spec_meta_content_by_path(items[0], path) + spec_meta_items_by_path(
            items.drop_first(),
            path,
        )
    }
}

/// Returns the content of the meta item under the given path.
pub fn get_meta_content_by_path(meta: Meta, path: &[&str]) -> (r: Vec<Meta>)
    ensures
        r@ == spec_meta_content_by_path(meta, path_views(path@)),
{
    let mut res: Vec<Meta> = Vec::new();
    append_meta_content_by_path(meta, path, &mut res);
    res
}

fn append_meta_content_by_path(meta: Meta, path: &[&str], vec: &mut Vec<Meta>)
    ensures
        final(vec)@ == old(vec)@ + spec_meta_content_by_path(meta, path_views(path@)),
    decreases path@.len(), 0int, 0int,
{
    if path.len() == 0 {
        proof {
            assert(old(vec)@ + spec_meta_content_by_path(meta, path_views(path@)) =~= old(vec)@);
        }
        return ;
    }
    match meta {
        Meta::List(ident, nested) => {
            if str_eq(ident.as_str(), path[0]) {
                let rest = vstd::slice::slice_subrange(path, 1, path.len());
                proof {
                    assert(path_views(rest@) =~= path_views(path@).drop_first());
                }
                append_meta_items_by_path(nested, rest, vec);
            } else {
                proof {
                    assert(old(vec)@ + spec_meta_content_by_path(
                        Meta::List(ident, nested),
                        path_views(path@),
                    ) =~= old(vec)@);
                }
            }
        },
        _ => {
            proof {
                assert(old(vec)@ + spec_meta_content_by_path(meta, path_views(path@)) =~= old(
                    vec,
                )@);
            }
        },
    }
}

fn append_meta_items_by_path(items: Vec<Meta>, path: &[&str], vec: &mut Vec<Meta>)
    ensures
        final(vec)@ == old(vec)@ + spec_meta_items_by_path(items@, path_views(path@)),
    decreases path@.len(), 1int, items@.len(),
{
    if items.len() == 0 {
        proof {
            assert(old(vec)@ + spec_meta_items_by_path(items@, path_views(path@)) =~= old(vec)@);
        }
        return ;
    }
    let mut items = items;
    let ghost all = items@;
    let first = items.remove(0);
    proof {
        assert(all[0] == first);
        assert(items@ =~= all.drop_first());
    }
    if path.len() == 0 {
        vec.push(first);
        append_meta_items_by_path(items, path, vec);
        proof {
            assert((old(vec)@ + seq![first]) + all.drop_first() =~= old(vec)@ + all);
        }
    } else {
        append_meta_content_by_path(first, path, vec);
        append_meta_items_by_path(items, path, vec);
        proof {
            assert((old(vec)@ + spec_meta_content_by_path(first, path_views(path@)))
                + spec_meta_items_by_path(all.drop_first(), path_views(path@)) =~= old(vec)@ + (
            spec_meta_content_by_path(first, path_views(path@)) + spec_meta_items_by_path(
                all.drop_first(),
                path_views(path@),
            )));
        }
    }
}

} // verus!
