use named_ctor::decl::{Attribute, DeclInput, Field, Generics, MetaItem, MetaValue, Shape};
use named_ctor::directive::{ConstructorType, StructValuesAttr};
use named_ctor::error::MacroError;
use named_ctor::ident::is_valid_ident;
use named_ctor::params::{param_name, without_default};
use named_ctor::struct_values_macro;

fn s(t: &str) -> String {
    t.to_string()
}

fn field(name: &str, ty: &str) -> Field {
    Field { name: s(name), ty: s(ty) }
}

fn no_generics() -> Generics {
    Generics { lifetimes: vec![], type_params: vec![], where_clause: None }
}

fn item(key: &str, value: MetaValue) -> MetaItem {
    MetaItem { key: Some(s(key)), value }
}

fn directive(items: Vec<MetaItem>) -> Attribute {
    Attribute { path: Some(s("named_ctor")), args: Some(items) }
}

fn user(attrs: Vec<Attribute>) -> DeclInput {
    DeclInput {
        attrs,
        ident: s("User"),
        generics: no_generics(),
        shape: Shape::Named(vec![field("id", "u8"), field("name", "String")]),
    }
}

fn error_of(d: DeclInput) -> MacroError {
    match struct_values_macro(d) {
        Err(e) => e,
        Ok(t) => panic!("expected an error, got {t}"),
    }
}

#[test]
fn default_config_generates_from_impl() {
    let out = struct_values_macro(user(vec![])).unwrap();
    let expected = "pub struct _User<> {\n    pub id: u8,\n    pub name: String,\n}\n\n\
impl<> From<_User<>> for User<> {\n    fn from(values: _User<>) -> Self {\n        Self {\n            \
id: values.id,\n            name: values.name,\n        }\n    }\n}\n";
    assert_eq!(out, expected);
}

#[test]
fn unrelated_attributes_are_ignored() {
    let other = Attribute { path: Some(s("derive")), args: None };
    let doc = Attribute { path: None, args: None };
    let with = struct_values_macro(user(vec![other, doc])).unwrap();
    let without = struct_values_macro(user(vec![])).unwrap();
    assert_eq!(with, without);
}

#[test]
fn custom_name_and_new_constructor_with_generics() {
    let attrs = vec![directive(vec![
        item("name", MetaValue::Str(s("TaskInitValues"))),
        item("constructor", MetaValue::Str(s("new"))),
    ])];
    let d = DeclInput {
        attrs,
        ident: s("Task"),
        generics: Generics {
            lifetimes: vec![s("'a")],
            type_params: vec![s("T")],
            where_clause: Some(s("where T: Display")),
        },
        shape: Shape::Named(vec![field("id", "T"), field("name", "&'a str")]),
    };
    let out = struct_values_macro(d).unwrap();
    let expected = "pub struct TaskInitValues<'a, T> where T: Display {\n    pub id: T,\n    \
pub name: &'a str,\n}\n\nimpl<'a, T> Task<'a, T> where T: Display {\n    \
fn new(values: TaskInitValues<'a, T>) -> Self {\n        Self {\n            id: values.id,\n            \
name: values.name,\n        }\n    }\n}\n";
    assert_eq!(out, expected);
}

#[test]
fn explicit_from_constructor() {
    let attrs = vec![directive(vec![item("constructor", MetaValue::Str(s("from")))])];
    let a = struct_values_macro(user(attrs)).unwrap();
    let b = struct_values_macro(user(vec![])).unwrap();
    assert_eq!(a, b);
}

#[test]
fn name_override_only() {
    let attrs = vec![directive(vec![item("name", MetaValue::Str(s("UserValues")))])];
    let out = struct_values_macro(user(attrs)).unwrap();
    assert!(out.starts_with("pub struct UserValues<> {\n"));
    assert!(out.contains("impl<> From<UserValues<>> for User<> {\n"));
    assert!(out.contains("fn from(values: UserValues<>) -> Self {\n"));
    assert!(!out.contains("_User"));
}

#[test]
fn generics_on_both_declarations() {
    let d = DeclInput {
        attrs: vec![],
        ident: s("Pair"),
        generics: Generics {
            lifetimes: vec![s("'a"), s("'b")],
            type_params: vec![s("T"), s("U")],
            where_clause: Some(s("where T: Clone")),
        },
        shape: Shape::Named(vec![field("left", "&'a T"), field("right", "&'b U")]),
    };
    let out = struct_values_macro(d).unwrap();
    assert!(out.starts_with("pub struct _Pair<'a, 'b, T, U> where T: Clone {\n"));
    assert!(out.contains(
        "impl<'a, 'b, T, U> From<_Pair<'a, 'b, T, U>> for Pair<'a, 'b, T, U> where T: Clone {\n"
    ));
    assert!(out.contains("fn from(values: _Pair<'a, 'b, T, U>) -> Self {\n"));
}

#[test]
fn lifetime_only_generics() {
    let d = DeclInput {
        attrs: vec![],
        ident: s("View"),
        generics: Generics { lifetimes: vec![s("'a")], type_params: vec![], where_clause: None },
        shape: Shape::Named(vec![field("text", "&'a str")]),
    };
    let out = struct_values_macro(d).unwrap();
    assert!(out.starts_with("pub struct _View<'a, > {\n    pub text: &'a str,\n}\n"));
}

#[test]
fn field_order_is_kept() {
    let d = DeclInput {
        attrs: vec![],
        ident: s("Abc"),
        generics: no_generics(),
        shape: Shape::Named(vec![field("c", "u8"), field("a", "u16"), field("b", "u32")]),
    };
    let out = struct_values_macro(d).unwrap();
    let pc = out.find("pub c: u8").unwrap();
    let pa = out.find("pub a: u16").unwrap();
    let pb = out.find("pub b: u32").unwrap();
    assert!(pc < pa && pa < pb);
    let mc = out.find("c: values.c").unwrap();
    let ma = out.find("a: values.a").unwrap();
    let mb = out.find("b: values.b").unwrap();
    assert!(mc < ma && ma < mb);
}

#[test]
fn output_is_deterministic() {
    let first = struct_values_macro(user(vec![])).unwrap();
    let second = struct_values_macro(user(vec![])).unwrap();
    assert_eq!(first.as_bytes(), second.as_bytes());
}

#[test]
fn empty_named_struct() {
    let d = DeclInput {
        attrs: vec![],
        ident: s("Empty"),
        generics: no_generics(),
        shape: Shape::Named(vec![]),
    };
    let out = struct_values_macro(d).unwrap();
    let expected = "pub struct _Empty<> {\n}\n\nimpl<> From<_Empty<>> for Empty<> {\n    \
fn from(values: _Empty<>) -> Self {\n        Self {\n        }\n    }\n}\n";
    assert_eq!(out, expected);
}

#[test]
fn later_directive_overrides_earlier() {
    let attrs = vec![
        directive(vec![item("name", MetaValue::Str(s("First"))), item("name", MetaValue::Str(s("Second")))]),
        directive(vec![item("constructor", MetaValue::Str(s("new")))]),
    ];
    let out = struct_values_macro(user(attrs)).unwrap();
    assert!(out.starts_with("pub struct Second<> {\n"));
    assert!(out.contains("impl<> User<> {\n    fn new(values: Second<>) -> Self {\n"));
}

#[test]
fn unexpected_key_is_rejected() {
    let attrs = vec![directive(vec![item("foo", MetaValue::Str(s("x")))])];
    let e = error_of(user(attrs));
    assert!(matches!(e, MacroError::UnexpectedAttribute));
    assert_eq!(e.message(), "unexpected attribute, use `name` or `constructor`");
}

#[test]
fn key_that_is_not_an_identifier_is_rejected() {
    let attrs = vec![directive(vec![MetaItem { key: None, value: MetaValue::Str(s("x")) }])];
    let e = error_of(user(attrs));
    assert!(matches!(e, MacroError::UnexpectedAttribute));
}

#[test]
fn bogus_constructor_is_rejected() {
    let attrs = vec![directive(vec![item("constructor", MetaValue::Str(s("bogus")))])];
    let e = error_of(user(attrs));
    assert_eq!(e.message(), "invalid attribute value: `bogus`; use `new` or `from` instead");
}

#[test]
fn non_string_name_is_rejected() {
    let attrs = vec![directive(vec![item("name", MetaValue::OtherLit)])];
    let e = error_of(user(attrs));
    assert!(matches!(e, MacroError::InvalidName));
    assert_eq!(e.message(), "invalid `name` attribute");
}

#[test]
fn non_string_constructor_is_rejected() {
    let attrs = vec![directive(vec![item("constructor", MetaValue::NotNameValue)])];
    let e = error_of(user(attrs));
    assert!(matches!(e, MacroError::InvalidConstructor));
    assert_eq!(e.message(), "invalid `constructor` attribute");
}

#[test]
fn malformed_directive_is_rejected() {
    let attrs = vec![Attribute { path: Some(s("named_ctor")), args: None }];
    let e = error_of(user(attrs));
    assert!(matches!(e, MacroError::MalformedDirective));
}

#[test]
fn enum_is_rejected() {
    let d = DeclInput { attrs: vec![], ident: s("Kind"), generics: no_generics(), shape: Shape::NotStruct };
    let e = error_of(d);
    assert!(matches!(e, MacroError::UnsupportedShape));
    assert_eq!(e.message(), "NamedCtor only supports structs with named fields");
}

#[test]
fn tuple_struct_is_rejected() {
    let d = DeclInput { attrs: vec![], ident: s("Point"), generics: no_generics(), shape: Shape::Unnamed };
    let e = error_of(d);
    assert!(matches!(e, MacroError::UnsupportedShape));
    assert_eq!(e.message(), "NamedCtor only supports structs with named fields");
}

#[test]
fn unit_struct_is_rejected() {
    let d = DeclInput { attrs: vec![], ident: s("Marker"), generics: no_generics(), shape: Shape::Unit };
    assert!(matches!(error_of(d), MacroError::UnsupportedShape));
}

#[test]
fn invalid_mirror_name_is_rejected() {
    let attrs = vec![directive(vec![item("name", MetaValue::Str(s("two words")))])];
    let e = error_of(user(attrs));
    assert_eq!(e.message(), "`two words` is not a valid Ident");
}

#[test]
fn directive_error_comes_before_shape_error() {
    let d = DeclInput {
        attrs: vec![directive(vec![item("foo", MetaValue::OtherLit)])],
        ident: s("Kind"),
        generics: no_generics(),
        shape: Shape::NotStruct,
    };
    assert!(matches!(error_of(d), MacroError::UnexpectedAttribute));
}

#[test]
fn constructor_values() {
    assert_eq!(ConstructorType::from_value(&s("new")).unwrap(), ConstructorType::New);
    assert_eq!(ConstructorType::from_value(&s("from")).unwrap(), ConstructorType::From);
    assert!(matches!(
        ConstructorType::from_value(&s("New")),
        Err(MacroError::InvalidConstructorValue(v)) if v == "New"
    ));
}

#[test]
fn config_reading() {
    let cfg = StructValuesAttr::new(&vec![directive(vec![item("name", MetaValue::Str(s("X")))])]).unwrap();
    assert_eq!(cfg.name, Some(s("X")));
    assert_eq!(cfg.constructor_type, ConstructorType::From);
    let dflt = StructValuesAttr::new(&vec![]).unwrap();
    assert_eq!(dflt.name, None);
    assert_eq!(dflt.name_as_ident(&s("Thing")).unwrap(), "_Thing");
}

#[test]
fn identifier_rules() {
    assert!(is_valid_ident("abc"));
    assert!(is_valid_ident("_"));
    assert!(is_valid_ident("_User"));
    assert!(is_valid_ident("a1"));
    assert!(is_valid_ident("\u{e9}t\u{e9}"));
    assert!(is_valid_ident("\u{540d}\u{524d}"));
    assert!(!is_valid_ident(""));
    assert!(!is_valid_ident("123"));
    assert!(!is_valid_ident("1abc"));
    assert!(!is_valid_ident("a-b"));
    assert!(!is_valid_ident("a b"));
    assert!(!is_valid_ident("\u{1f600}"));
}

fn generic_struct(name: &str, lifetimes: Vec<String>, params: Vec<String>) -> DeclInput {
    DeclInput {
        attrs: vec![],
        ident: s(name),
        generics: Generics { lifetimes, type_params: params, where_clause: None },
        shape: Shape::Named(vec![field("value", "T")]),
    }
}

#[test]
fn inline_bound_stays_out_of_type_positions() {
    let out = struct_values_macro(generic_struct("S", vec![], vec![s("T : Clone")])).unwrap();
    let expected = "pub struct _S<T : Clone> {\n    pub value: T,\n}\n\n\
impl<T : Clone> From<_S<T>> for S<T> {\n    fn from(values: _S<T>) -> Self {\n        Self {\n            \
value: values.value,\n        }\n    }\n}\n";
    assert_eq!(out, expected);
}

#[test]
fn inline_bound_with_new_constructor() {
    let mut d = generic_struct("S", vec![], vec![s("T: Clone")]);
    d.attrs = vec![directive(vec![item("constructor", MetaValue::Str(s("new")))])];
    let out = struct_values_macro(d).unwrap();
    assert!(out.contains("impl<T: Clone> S<T> {\n    fn new(values: _S<T>) -> Self {\n"));
}

#[test]
fn default_is_kept_on_mirror_and_dropped_from_impl() {
    let out = struct_values_macro(generic_struct("S", vec![], vec![s("T : Clone = u8")])).unwrap();
    assert!(out.starts_with("pub struct _S<T : Clone = u8> {\n"));
    assert!(out.contains("impl<T : Clone > From<_S<T>> for S<T> {\n"));
    assert!(out.contains("fn from(values: _S<T>) -> Self {\n"));
}

#[test]
fn lifetime_bounds_stay_out_of_type_positions() {
    let d = generic_struct("S", vec![s("'a : 'b"), s("'b")], vec![s("T")]);
    let out = struct_values_macro(d).unwrap();
    assert!(out.starts_with("pub struct _S<'a : 'b, 'b, T> {\n"));
    assert!(out.contains("impl<'a : 'b, 'b, T> From<_S<'a, 'b, T>> for S<'a, 'b, T> {\n"));
}

#[test]
fn parameter_names() {
    assert_eq!(param_name("T"), "T");
    assert_eq!(param_name("T : Clone"), "T");
    assert_eq!(param_name("T: Clone"), "T");
    assert_eq!(param_name("T=u8"), "T");
    assert_eq!(param_name("'a : 'b"), "'a");
    assert_eq!(param_name("\u{540d}: Copy"), "\u{540d}");
    assert_eq!(param_name(""), "");
}

#[test]
fn parameter_defaults() {
    assert_eq!(without_default("T"), "T");
    assert_eq!(without_default("T = u8"), "T ");
    assert_eq!(without_default("I : Iterator < Item = u8 >"), "I : Iterator < Item = u8 >");
    assert_eq!(
        without_default("I : Iterator < Item = u8 > = Empty < u8 >"),
        "I : Iterator < Item = u8 > "
    );
    assert_eq!(without_default("F : Fn () -> u8 = G"), "F : Fn () -> u8 ");
}
