//! Tests for the engine: catalog resolution, attribute queries, generic
//! extension, and the emitted code text.

use opaque_typedef::attrs::{
    get_meta_content_by_path, has_word_meta, is_attr_with_path, Attribute, Meta,
};
use opaque_typedef::catalog::{
    flat_target, group_target, is_group_parent, CatalogError, Derive,
};
use opaque_typedef::derives::{check_derive, ConfigError};
use opaque_typedef::generics::extend_generics;
use opaque_typedef::props::{
    CmpSpec, DerefSpec, Field, Generics, Sizedness, TypeProps, ValidationSpec,
};
use opaque_typedef::text::decimal;

fn empty_generics() -> Generics {
    Generics { lifetimes: vec![], type_params: vec![], predicates: vec![] }
}

fn my_int_props(derives: Vec<Derive>) -> TypeProps {
    TypeProps {
        ty_outer: "MyInt".to_string(),
        field_inner: Field::Unnamed(0),
        ty_inner: "i32".to_string(),
        generics: empty_generics(),
        inner_sizedness: Sizedness::Sized,
        derives,
        deref_spec: DerefSpec { ty_deref_target: None, fn_name_deref: None, fn_name_deref_mut: None },
        is_mut_ref_allowed: false,
        validation_spec: ValidationSpec { fn_validator: None, ty_error: None, error_msg: None },
        cmp_spec: CmpSpec { partial_eq: None, partial_ord: None, ord: None },
    }
}

const ASI_SELF: &str = "<MyInt as ::opaque_typedef::OpaqueTypedef>::as_inner(self)";
const ASI_OTHER: &str = "<MyInt as ::opaque_typedef::OpaqueTypedef>::as_inner(other)";
const INTO_SELF: &str = "<MyInt as ::opaque_typedef::OpaqueTypedef>::into_inner(self)";
const INTO_OTHER: &str = "<MyInt as ::opaque_typedef::OpaqueTypedef>::into_inner(other)";

#[test]
fn sizedness_queries() {
    assert!(Sizedness::Sized.is_sized());
    assert!(!Sizedness::Sized.is_unsized());
    assert!(Sizedness::Unsized.is_unsized());
    assert!(!Sizedness::Unsized.is_sized());
}

#[test]
fn decimal_rendering() {
    assert_eq!(decimal(0), "0");
    assert_eq!(decimal(7), "7");
    assert_eq!(decimal(1230), "1230");
}

#[test]
fn field_names() {
    assert_eq!(Field::Named("value".to_string()).name(), "value");
    assert_eq!(Field::Unnamed(0).name(), "0");
    assert_eq!(Field::Unnamed(17).name(), "17");
}

#[test]
fn generics_rendering() {
    let g = Generics {
        lifetimes: vec!["'a".to_string()],
        type_params: vec!["T".to_string()],
        predicates: vec!["T: Clone".to_string()],
    };
    assert_eq!(g.params_text(), "<'a, T>");
    assert_eq!(g.where_clause_text(), "where T: Clone");
    assert_eq!(empty_generics().params_text(), "");
    assert_eq!(empty_generics().where_clause_text(), "");
}

#[test]
fn extend_generics_fresh_lifetimes() {
    let g = Generics {
        lifetimes: vec!["'a".to_string()],
        type_params: vec!["T".to_string()],
        predicates: vec![],
    };
    let (extended, fresh) = extend_generics(&g, 2, &vec!["T: Copy".to_string()]);
    assert_eq!(fresh, vec!["'__0".to_string(), "'__1".to_string()]);
    assert_eq!(
        extended.lifetimes,
        vec!["'a".to_string(), "'__0".to_string(), "'__1".to_string()]
    );
    assert_eq!(extended.type_params, vec!["T".to_string()]);
    assert_eq!(extended.predicates, vec!["T: Copy".to_string()]);
}

#[test]
fn extend_generics_skips_taken_names() {
    let g = Generics {
        lifetimes: vec!["'__0".to_string()],
        type_params: vec![],
        predicates: vec![],
    };
    let (_, fresh) = extend_generics(&g, 1, &vec![]);
    assert_eq!(fresh, vec!["'__1".to_string()]);
}

#[test]
fn flat_resolution() {
    assert_eq!(flat_target("AddSelf"), Some(Derive::AddSelf));
    assert_eq!(flat_target("PartialEqSelfCowAndInnerRev"), Some(Derive::PartialEqSelfCowAndInnerRev));
    assert_eq!(flat_target("FromInner"), Some(Derive::FromInner));
    assert_eq!(flat_target("UpperHex"), Some(Derive::UpperHex));
    assert_eq!(flat_target("Self_"), None);
    assert_eq!(flat_target("Bogus"), None);
    assert_eq!(Derive::AddSelf.as_str(), "AddSelf");
    assert_eq!(Derive::PartialOrdInnerCowRev.as_str(), "PartialOrdInnerCowRev");
}

#[test]
fn group_resolution() {
    assert!(is_group_parent("Add"));
    assert!(is_group_parent("PartialEq"));
    assert!(!is_group_parent("Bogus"));
    assert_eq!(group_target("Add", "Self_"), Some(Derive::AddSelf));
    assert_eq!(group_target("Into", "Arc"), Some(Derive::IntoArc));
    assert_eq!(group_target("AsMut", "Deref"), Some(Derive::AsMutDeref));
    assert_eq!(group_target("Add", "Bogus"), None);
    assert_eq!(group_target("Bogus", "Self_"), None);
}

#[test]
fn nested_names_append_in_order() {
    let mut derives = Vec::new();
    Derive::append_from_nested_names("PartialEq", &["Inner", "InnerRev"], &mut derives).unwrap();
    assert_eq!(derives, vec![Derive::PartialEqInner, Derive::PartialEqInnerRev]);
}

#[test]
fn nested_names_unknown_parent() {
    let mut derives = vec![Derive::Ord];
    let err = Derive::append_from_nested_names("Bogus", &["Self_"], &mut derives).unwrap_err();
    match err {
        CatalogError::UnknownCapability(text) => assert_eq!(text, "Bogus(..)"),
        other => panic!("unexpected error: {:?}", other),
    }
    assert_eq!(derives, vec![Derive::Ord]);
}

#[test]
fn nested_names_unknown_child() {
    let mut derives = Vec::new();
    let err = Derive::append_from_nested_names("Add", &["Self_", "Bogus"], &mut derives)
        .unwrap_err();
    match err {
        CatalogError::UnknownCapability(text) => assert_eq!(text, "Add(Bogus)"),
        other => panic!("unexpected error: {:?}", other),
    }
    assert!(derives.is_empty());
}

fn derive_attr(items: Vec<Meta>) -> Attribute {
    Attribute {
        path: vec!["opaque_typedef".to_string()],
        meta: Some(Meta::List(
            "opaque_typedef".to_string(),
            vec![Meta::List("derive".to_string(), items)],
        )),
    }
}

#[test]
fn from_attrs_resolves_in_request_order() {
    let attr = derive_attr(vec![
        Meta::Word("FromInner".to_string()),
        Meta::List("Add".to_string(), vec![Meta::Word("Self_".to_string())]),
        Meta::Word("Display".to_string()),
    ]);
    let derives = Derive::from_attrs(vec![attr]).unwrap();
    assert_eq!(derives, vec![Derive::FromInner, Derive::AddSelf, Derive::Display]);
}

#[test]
fn from_attrs_keeps_duplicates() {
    let attr = derive_attr(vec![Meta::List(
        "Add".to_string(),
        vec![Meta::Word("Self_".to_string()), Meta::Word("Self_".to_string())],
    )]);
    let derives = Derive::from_attrs(vec![attr]).unwrap();
    assert_eq!(derives, vec![Derive::AddSelf, Derive::AddSelf]);
}

#[test]
fn from_attrs_unknown_flat_name() {
    let attr = derive_attr(vec![Meta::Word("Bogus".to_string())]);
    match Derive::from_attrs(vec![attr]).unwrap_err() {
        CatalogError::UnknownCapability(text) => assert_eq!(text, "Bogus"),
        other => panic!("unexpected error: {:?}", other),
    }
}

#[test]
fn from_attrs_unsupported_forms() {
    let attr = derive_attr(vec![Meta::NameValue("x".to_string(), "1".to_string())]);
    match Derive::from_attrs(vec![attr]).unwrap_err() {
        CatalogError::UnsupportedGroupedForm(text) => assert_eq!(text, "x = .."),
        other => panic!("unexpected error: {:?}", other),
    }
    let attr = derive_attr(vec![Meta::List(
        "Add".to_string(),
        vec![Meta::Literal("1".to_string())],
    )]);
    match Derive::from_attrs(vec![attr]).unwrap_err() {
        CatalogError::UnsupportedGroupedForm(text) => assert_eq!(text, "Add(1)"),
        other => panic!("unexpected error: {:?}", other),
    }
}

#[test]
fn from_attrs_ignores_other_attributes() {
    let unrelated = Attribute {
        path: vec!["derive".to_string()],
        meta: Some(Meta::Word("Debug".to_string())),
    };
    let derives = Derive::from_attrs(vec![unrelated]).unwrap();
    assert!(derives.is_empty());
}

#[test]
fn attr_path_query() {
    let attr = Attribute {
        path: vec!["opaque_typedef".to_string()],
        meta: None,
    };
    assert!(is_attr_with_path(&attr, &["opaque_typedef"]));
    assert!(!is_attr_with_path(&attr, &["derive"]));
    assert!(!is_attr_with_path(&attr, &["opaque_typedef", "derive"]));
}

#[test]
fn word_meta_query() {
    let meta = Meta::List(
        "opaque_typedef".to_string(),
        vec![Meta::Word("allow_mut_ref".to_string())],
    );
    assert!(has_word_meta(&meta, &["opaque_typedef", "allow_mut_ref"]));
    assert!(!has_word_meta(&meta, &["opaque_typedef", "derive"]));
    assert!(!has_word_meta(&meta, &["allow_mut_ref"]));
}

#[test]
fn meta_content_query() {
    let meta = Meta::List(
        "opaque_typedef".to_string(),
        vec![Meta::List(
            "derive".to_string(),
            vec![Meta::Word("Display".to_string()), Meta::Word("Binary".to_string())],
        )],
    );
    let content = get_meta_content_by_path(meta, &["opaque_typedef", "derive"]);
    assert_eq!(content.len(), 2);
    assert!(matches!(&content[0], Meta::Word(w) if w == "Display"));
    assert!(matches!(&content[1], Meta::Word(w) if w == "Binary"));
}

#[test]
fn basic_impl_text() {
    let props = my_int_props(vec![]);
    let expected = format!(
        "impl  ::opaque_typedef::OpaqueTypedef for MyInt  {{ type Inner = i32; \
         type Error = ::opaque_typedef::Infallible; \
         unsafe fn from_inner_unchecked(__inner: Self::Inner) -> Self {{ Self {{ 0: __inner }} }} \
         fn try_from_inner(__inner: Self::Inner) -> std::result::Result<Self, Self::Error> {{ Ok(Self {{ 0: __inner }}) }} \
         fn from_inner(__inner: Self::Inner) -> Self {{ Self {{ 0: __inner }} }} \
         fn into_inner(self) -> Self::Inner {{ self.0 }} \
         fn as_inner(&self) -> &Self::Inner {{ &self.0 }} \
         unsafe fn as_inner_mut(&mut self) -> &mut Self::Inner {{ &mut self.0 }} }}"
    );
    assert_eq!(props.impl_basic_helper_trait(), expected);
}

#[test]
fn basic_impl_text_with_validator() {
    let mut props = my_int_props(vec![]);
    props.validation_spec = ValidationSpec {
        fn_validator: Some("validate".to_string()),
        ty_error: Some("MyError".to_string()),
        error_msg: Some("bad value".to_string()),
    };
    let text = props.impl_basic_helper_trait();
    assert!(text.contains("type Error = MyError;"));
    assert!(text.contains("Ok(Self { 0: validate(__inner)? })"));
    assert!(text.contains("Self { 0: validate(__inner).expect(\"bad value\") }"));
}

#[test]
fn fmt_impl_text() {
    let props = my_int_props(vec![]);
    let expected = format!(
        "impl  ::std::fmt::Display for MyInt  {{ fn fmt(&self, f: &mut ::std::fmt::Formatter<'_>) \
         -> ::std::fmt::Result {{ <i32 as ::std::fmt::Display>::fmt({ASI_SELF}, f) }} }}"
    );
    assert_eq!(Derive::Display.impl_auto_derive(&props), expected);
}

#[test]
fn ord_impl_text() {
    let props = my_int_props(vec![]);
    let expected = format!(
        "impl  ::std::cmp::Ord for MyInt  {{ fn cmp(&self, other: &MyInt) -> ::std::cmp::Ordering \
         {{ Ord::cmp({ASI_SELF} as &i32, {ASI_OTHER} as &i32) }} }}"
    );
    assert_eq!(Derive::Ord.impl_auto_derive(&props), expected);
}

#[test]
fn from_inner_impl_text() {
    let props = my_int_props(vec![]);
    let expected = "impl  ::std::convert::From<i32> for MyInt  { fn from(__inner: i32) -> Self \
                    { <MyInt as ::opaque_typedef::OpaqueTypedef>::from_inner(__inner) } }";
    assert_eq!(Derive::FromInner.impl_auto_derive(&props), expected);
}

#[test]
fn add_self_impl_text() {
    let props = my_int_props(vec![]);
    let expected = format!(
        "impl  ::std::ops::Add<MyInt> for MyInt  {{ type Output = MyInt; \
         fn add(self, other: MyInt) -> Self::Output {{ unsafe {{ \
         <MyInt as ::opaque_typedef::OpaqueTypedef>::from_inner_unchecked({INTO_SELF} + {INTO_OTHER}) }} }} }}"
    );
    assert_eq!(Derive::AddSelf.impl_auto_derive(&props), expected);
}

#[test]
fn deref_impl_text() {
    let props = my_int_props(vec![]);
    let expected = format!(
        "impl  ::std::ops::Deref for MyInt  {{ type Target = i32; \
         fn deref(&self) -> &Self::Target {{ {ASI_SELF} }} }}"
    );
    assert_eq!(Derive::Deref.impl_auto_derive(&props), expected);
}

#[test]
fn partial_eq_inner_impl_text() {
    let props = my_int_props(vec![]);
    let base = format!(
        "impl  ::std::cmp::PartialEq<i32> for MyInt  {{ fn eq(&self, other: &i32) -> bool \
         {{ PartialEq::eq({ASI_SELF} as &i32, other as &i32) }} }}"
    );
    let ref_lhs = format!(
        "impl <'__0> ::std::cmp::PartialEq<i32> for &'__0 MyInt  {{ fn eq(&self, other: &i32) -> bool \
         {{ PartialEq::eq(<MyInt as ::opaque_typedef::OpaqueTypedef>::as_inner(*self) as &i32, other as &i32) }} }}"
    );
    let ref_rhs = format!(
        "impl <'__0> ::std::cmp::PartialEq<&'__0 i32> for MyInt  {{ fn eq(&self, other: &&'__0 i32) -> bool \
         {{ PartialEq::eq({ASI_SELF} as &i32, *other as &i32) }} }}"
    );
    let expected = format!("{base}{ref_lhs}{ref_rhs}");
    assert_eq!(Derive::PartialEqInner.impl_auto_derive(&props), expected);
}

#[test]
fn gen_impls_concatenates_in_request_order() {
    let props = my_int_props(vec![Derive::FromInner, Derive::Display]);
    let basic = my_int_props(vec![]).impl_basic_helper_trait();
    let from = Derive::FromInner.impl_auto_derive(&props);
    let display = Derive::Display.impl_auto_derive(&props);
    let expected = format!("{basic}{from}{display}");
    assert_eq!(props.gen_impls().unwrap(), expected);
}

#[test]
fn gen_impls_regenerates_duplicates() {
    let props = my_int_props(vec![Derive::Display, Derive::Display]);
    let basic = my_int_props(vec![]).impl_basic_helper_trait();
    let display = Derive::Display.impl_auto_derive(&props);
    let expected = format!("{basic}{display}{display}");
    assert_eq!(props.gen_impls().unwrap(), expected);
}

#[test]
fn check_derive_gates() {
    let props = my_int_props(vec![]);
    assert_eq!(
        check_derive(Derive::IntoBox, &props),
        Err(ConfigError::IncompatibleSizedness(Derive::IntoBox))
    );
    assert_eq!(
        check_derive(Derive::AddAssignSelf, &props),
        Err(ConfigError::MutableAccessNotPermitted(Derive::AddAssignSelf))
    );
    assert_eq!(
        check_derive(Derive::DerefMut, &props),
        Err(ConfigError::MutableAccessNotPermitted(Derive::DerefMut))
    );
    assert_eq!(check_derive(Derive::FromInner, &props), Ok(()));
    let mut unsized_props = my_int_props(vec![]);
    unsized_props.inner_sizedness = Sizedness::Unsized;
    assert_eq!(
        check_derive(Derive::AddSelf, &unsized_props),
        Err(ConfigError::IncompatibleSizedness(Derive::AddSelf))
    );
    let mut hooked = my_int_props(vec![]);
    hooked.is_mut_ref_allowed = true;
    hooked.deref_spec = DerefSpec {
        ty_deref_target: Some("[T]".to_string()),
        fn_name_deref: Some("Vec::as_slice".to_string()),
        fn_name_deref_mut: None,
    };
    assert_eq!(
        check_derive(Derive::DerefMut, &hooked),
        Err(ConfigError::MissingRequiredHookProperty(Derive::DerefMut))
    );
}

#[test]
fn gen_impls_fails_eagerly_without_partial_output() {
    let props = my_int_props(vec![Derive::FromInner, Derive::IntoBox]);
    assert_eq!(
        props.gen_impls(),
        Err(ConfigError::IncompatibleSizedness(Derive::IntoBox))
    );
}

fn my_str2_props() -> TypeProps {
    TypeProps {
        ty_outer: "MyStr2".to_string(),
        field_inner: Field::Named("inner".to_string()),
        ty_inner: "str".to_string(),
        generics: empty_generics(),
        inner_sizedness: Sizedness::Unsized,
        derives: vec![],
        deref_spec: DerefSpec { ty_deref_target: None, fn_name_deref: None, fn_name_deref_mut: None },
        is_mut_ref_allowed: false,
        validation_spec: ValidationSpec { fn_validator: None, ty_error: None, error_msg: None },
        cmp_spec: CmpSpec { partial_eq: None, partial_ord: None, ord: None },
    }
}

#[test]
fn from_inner_unsized_impl_text() {
    let props = my_str2_props();
    let expected = "impl <'__0> ::std::convert::From<&'__0 str> for &'__0 MyStr2  \
                    { fn from(__inner: &'__0 str) -> Self \
                    { <MyStr2 as ::opaque_typedef::OpaqueTypedefUnsized>::from_inner(__inner) } }";
    assert_eq!(Derive::FromInner.impl_auto_derive(&props), expected);
}

#[test]
fn default_ref_impl_text() {
    let props = my_str2_props();
    let expected = "impl <'__0> ::std::default::Default for &'__0 MyStr2  \
                    { fn default() -> Self { let __inner = <&'__0 str as ::std::default::Default>::default(); \
                    <MyStr2 as ::opaque_typedef::OpaqueTypedefUnsized>::from_inner(__inner) } }";
    assert_eq!(Derive::DefaultRef.impl_auto_derive(&props), expected);
}

#[test]
fn into_box_impl_text() {
    let props = my_str2_props();
    let expected = "impl <'__0> ::std::convert::From<&'__0 MyStr2> for ::std::boxed::Box<MyStr2>  \
                    { fn from(__other: &'__0 MyStr2) -> Self { let __inner_ptr: ::std::boxed::Box<str> = \
                    ::std::convert::From::from(<MyStr2 as ::opaque_typedef::OpaqueTypedefUnsized>::as_inner(__other)); \
                    unsafe { ::std::boxed::Box::from_raw(::std::boxed::Box::into_raw(__inner_ptr) as *mut MyStr2) } } }";
    assert_eq!(Derive::IntoBox.impl_auto_derive(&props), expected);
}

#[test]
fn add_assign_impl_text() {
    let mut props = my_int_props(vec![]);
    props.is_mut_ref_allowed = true;
    let expected = format!(
        "impl  ::std::ops::AddAssign<MyInt> for MyInt  {{ fn add_assign(&mut self, other: MyInt) \
         {{ *unsafe {{ <MyInt as ::opaque_typedef::OpaqueTypedef>::as_inner_mut(self) }} += {INTO_OTHER}; }} }}"
    );
    assert_eq!(Derive::AddAssignSelf.impl_auto_derive(&props), expected);
}

fn generic_wrap_props() -> TypeProps {
    TypeProps {
        ty_outer: "Wrap".to_string(),
        field_inner: Field::Named("inner".to_string()),
        ty_inner: "Vec<T>".to_string(),
        generics: Generics {
            lifetimes: vec![],
            type_params: vec!["T".to_string()],
            predicates: vec![],
        },
        inner_sizedness: Sizedness::Sized,
        derives: vec![],
        deref_spec: DerefSpec { ty_deref_target: None, fn_name_deref: None, fn_name_deref_mut: None },
        is_mut_ref_allowed: false,
        validation_spec: ValidationSpec { fn_validator: None, ty_error: None, error_msg: None },
        cmp_spec: CmpSpec { partial_eq: None, partial_ord: None, ord: None },
    }
}

#[test]
fn generic_partial_eq_injects_bound_and_skips_reference_variants() {
    let props = generic_wrap_props();
    let expected = "impl <T> ::std::cmp::PartialEq<Vec<T>> for Wrap<T> \
                    where Vec<T>: ::std::cmp::PartialEq<Vec<T>> \
                    { fn eq(&self, other: &Vec<T>) -> bool \
                    { PartialEq::eq(<Wrap<T> as ::opaque_typedef::OpaqueTypedef>::as_inner(self) as &Vec<T>, \
                    other as &Vec<T>) } }";
    assert_eq!(Derive::PartialEqInner.impl_auto_derive(&props), expected);
}

#[test]
fn generic_fmt_injects_bound() {
    let props = generic_wrap_props();
    let expected = "impl <T> ::std::fmt::Display for Wrap<T> where Vec<T>: ::std::fmt::Display \
                    { fn fmt(&self, f: &mut ::std::fmt::Formatter<'_>) -> ::std::fmt::Result \
                    { <Vec<T> as ::std::fmt::Display>::fmt(<Wrap<T> as ::opaque_typedef::OpaqueTypedef>::as_inner(self), f) } }";
    assert_eq!(Derive::Display.impl_auto_derive(&props), expected);
}

#[test]
fn custom_deref_impl_text() {
    let mut props = generic_wrap_props();
    props.deref_spec = DerefSpec {
        ty_deref_target: Some("[T]".to_string()),
        fn_name_deref: Some("Vec::<T>::as_slice".to_string()),
        fn_name_deref_mut: None,
    };
    let expected = "impl <T> ::std::ops::Deref for Wrap<T>  { type Target = [T]; \
                    fn deref(&self) -> &Self::Target \
                    { Vec::<T>::as_slice(<Wrap<T> as ::opaque_typedef::OpaqueTypedef>::as_inner(self)) } }";
    assert_eq!(Derive::Deref.impl_auto_derive(&props), expected);
}
