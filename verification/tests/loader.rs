//! Tests for the attribute model loader.

use opaque_typedef::attrs::{Attribute, Meta};
use opaque_typedef::catalog::{CatalogError, Derive};
use opaque_typedef::load::{DeriveInput, FieldDef, LoadError};
use opaque_typedef::props::{CmpSpec, DerefSpec, Field, Generics, Sizedness, TypeProps, ValidationSpec};

fn nv(k: &str, v: &str) -> Meta {
    Meta::NameValue(k.to_string(), v.to_string())
}

fn list(name: &str, items: Vec<Meta>) -> Meta {
    Meta::List(name.to_string(), items)
}

fn opaque_attr(items: Vec<Meta>) -> Attribute {
    Attribute {
        path: vec!["opaque_typedef".to_string()],
        meta: Some(list("opaque_typedef", items)),
    }
}

fn empty_generics() -> Generics {
    Generics { lifetimes: vec![], type_params: vec![], predicates: vec![] }
}

#[test]
fn deref_spec_absent() {
    let items = vec![list("derive", vec![Meta::Word("Deref".to_string())])];
    assert!(matches!(DerefSpec::from_metaitems(&items), Ok(None)));
}

#[test]
fn deref_spec_complete() {
    let items = vec![list(
        "deref",
        vec![nv("target", "[T]"), nv("deref", "Vec::<T>::as_slice")],
    )];
    let spec = DerefSpec::from_metaitems(&items).unwrap().unwrap();
    assert_eq!(spec.ty_deref_target.as_deref(), Some("[T]"));
    assert_eq!(spec.fn_name_deref.as_deref(), Some("Vec::<T>::as_slice"));
    assert_eq!(spec.fn_name_deref_mut, None);
}

#[test]
fn deref_spec_later_value_overrides() {
    let items = vec![
        list("deref", vec![nv("target", "str"), nv("deref", "first")]),
        list("deref", vec![nv("deref", "second")]),
    ];
    let spec = DerefSpec::from_metaitems(&items).unwrap().unwrap();
    assert_eq!(spec.ty_deref_target.as_deref(), Some("str"));
    assert_eq!(spec.fn_name_deref.as_deref(), Some("second"));
}

#[test]
fn deref_spec_missing_properties() {
    let no_target = vec![list("deref", vec![nv("deref", "conv")])];
    assert!(matches!(
        DerefSpec::from_metaitems(&no_target),
        Err(LoadError::MissingDerefTarget)
    ));
    let no_conv = vec![list("deref", vec![nv("target", "str")])];
    assert!(matches!(
        DerefSpec::from_metaitems(&no_conv),
        Err(LoadError::MissingDerefConverter)
    ));
}

#[test]
fn validation_spec_loading() {
    let items = vec![list(
        "validation",
        vec![
            nv("validator", "validate_even32"),
            nv("error_type", "OddError"),
            nv("error_msg", "Failed to create `Even32`"),
        ],
    )];
    let spec = ValidationSpec::from_metaitems(&items);
    assert_eq!(spec.fn_validator.as_deref(), Some("validate_even32"));
    assert_eq!(spec.ty_error.as_deref(), Some("OddError"));
    assert_eq!(spec.error_msg.as_deref(), Some("Failed to create `Even32`"));
    let none = ValidationSpec::from_metaitems(&vec![]);
    assert_eq!(none.fn_validator, None);
}

#[test]
fn cmp_spec_loading() {
    let items = vec![list("cmp", vec![nv("partial_eq", "my_eq"), nv("ord", "my_cmp")])];
    let spec = CmpSpec::from_metaitems(&items);
    assert_eq!(spec.partial_eq.as_deref(), Some("my_eq"));
    assert_eq!(spec.partial_ord, None);
    assert_eq!(spec.ord.as_deref(), Some("my_cmp"));
}

#[test]
fn load_full_descriptor() {
    let input = DeriveInput {
        ident: "Even32".to_string(),
        generics: empty_generics(),
        attrs: vec![
            opaque_attr(vec![list(
                "derive",
                vec![
                    Meta::Word("FromInner".to_string()),
                    list("Add", vec![Meta::Word("Self_".to_string())]),
                ],
            )]),
            opaque_attr(vec![list(
                "validation",
                vec![nv("validator", "validate_even32"), nv("error_type", "OddError")],
            )]),
        ],
        fields: vec![FieldDef { name: None, ty: "i32".to_string(), attrs: vec![] }],
    };
    let props = TypeProps::load(input, Sizedness::Sized).unwrap();
    assert_eq!(props.ty_outer, "Even32");
    assert_eq!(props.ty_inner, "i32");
    assert!(matches!(props.field_inner, Field::Unnamed(0)));
    assert_eq!(props.inner_sizedness, Sizedness::Sized);
    assert_eq!(props.derives, vec![Derive::FromInner, Derive::AddSelf]);
    assert!(!props.is_mut_ref_allowed);
    assert_eq!(props.validation_spec.fn_validator.as_deref(), Some("validate_even32"));
    assert_eq!(props.validation_spec.ty_error.as_deref(), Some("OddError"));
    let text = props.gen_impls().unwrap();
    assert!(text.contains("type Error = OddError;"));
    assert!(text.contains("Ok(Self { 0: validate_even32(__inner)? })"));
    assert!(text.contains("::std::ops::Add<Even32> for Even32"));
}

#[test]
fn load_allow_mut_ref_flag() {
    let input = DeriveInput {
        ident: "Int32".to_string(),
        generics: empty_generics(),
        attrs: vec![
            opaque_attr(vec![Meta::Word("allow_mut_ref".to_string())]),
            opaque_attr(vec![list(
                "derive",
                vec![list("AddAssign", vec![Meta::Word("Self_".to_string())])],
            )]),
        ],
        fields: vec![FieldDef { name: None, ty: "i32".to_string(), attrs: vec![] }],
    };
    let props = TypeProps::load(input, Sizedness::Sized).unwrap();
    assert!(props.is_mut_ref_allowed);
    assert_eq!(props.derives, vec![Derive::AddAssignSelf]);
    assert!(props.gen_impls().is_ok());
}

#[test]
fn load_selects_marked_inner_field() {
    let marked = Attribute {
        path: vec!["opaque_typedef".to_string()],
        meta: Some(list("opaque_typedef", vec![Meta::Word("inner".to_string())])),
    };
    let input = DeriveInput {
        ident: "Pair".to_string(),
        generics: empty_generics(),
        attrs: vec![],
        fields: vec![
            FieldDef { name: Some("tag".to_string()), ty: "u8".to_string(), attrs: vec![] },
            FieldDef {
                name: Some("value".to_string()),
                ty: "String".to_string(),
                attrs: vec![marked],
            },
        ],
    };
    let props = TypeProps::load(input, Sizedness::Sized).unwrap();
    assert!(matches!(&props.field_inner, Field::Named(n) if n == "value"));
    assert_eq!(props.ty_inner, "String");
}

#[test]
fn load_reports_missing_inner_field() {
    let input = DeriveInput {
        ident: "Pair".to_string(),
        generics: empty_generics(),
        attrs: vec![],
        fields: vec![
            FieldDef { name: Some("a".to_string()), ty: "u8".to_string(), attrs: vec![] },
            FieldDef { name: Some("b".to_string()), ty: "u8".to_string(), attrs: vec![] },
        ],
    };
    assert!(matches!(
        TypeProps::load(input, Sizedness::Sized),
        Err(LoadError::MissingInnerField)
    ));
}

#[test]
fn load_reports_catalog_faults() {
    let input = DeriveInput {
        ident: "Odd".to_string(),
        generics: empty_generics(),
        attrs: vec![opaque_attr(vec![list(
            "derive",
            vec![Meta::Word("Bogus".to_string())],
        )])],
        fields: vec![FieldDef { name: None, ty: "i32".to_string(), attrs: vec![] }],
    };
    match TypeProps::load(input, Sizedness::Sized) {
        Err(LoadError::Catalog(CatalogError::UnknownCapability(name))) => {
            assert_eq!(name, "Bogus");
        }
        other => panic!("unexpected result: {:?}", other.map(|_| ())),
    }
}
