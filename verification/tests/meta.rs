use nutype_macros::base::SpannedItem;
use nutype_macros::float::FloatInnerType;
use nutype_macros::integer::IntegerInnerType;
use nutype_macros::meta::{
    classify_inner_type, compact, intercept_derive_macro, parse_field_level_serde_attr, parse_meta,
    parse_struct_level_serde_attr, AttrInfo, DataShape, FieldAttr, FieldInput, InnerTypeKind, MetaError,
    MetaInput, NestedItem, NestedMeta, SerdeCustomization, SerdeKey, SerdePathValue, StructAttr,
};
use proc_macro2::Span;

fn sp() -> Span {
    Span::call_site()
}

fn no_serde<V>() -> NestedMeta<V> {
    NestedMeta { items: vec![], malformed: None }
}

fn struct_attr(name: &'static str) -> StructAttr<&'static str> {
    AttrInfo { attr: name, first_segment: Some(name.to_string()), span: sp(), serde: no_serde() }
}

fn struct_serde(keys: &[&str]) -> StructAttr<&'static str> {
    AttrInfo {
        attr: "serde",
        first_segment: Some("serde".to_string()),
        span: sp(),
        serde: NestedMeta {
            items: keys.iter().map(|k| NestedItem { key: k.to_string(), span: sp(), value: true }).collect(),
            malformed: None,
        },
    }
}

fn path_value(p: &str) -> SerdePathValue {
    SerdePathValue::Path(SpannedItem::new(syn::parse_str::<syn::Path>(p).unwrap(), sp()))
}

fn field_serde(keys: &[&str]) -> FieldAttr<&'static str> {
    AttrInfo {
        attr: "serde",
        first_segment: Some("serde".to_string()),
        span: sp(),
        serde: NestedMeta {
            items: keys.iter().map(|k| NestedItem { key: k.to_string(), span: sp(), value: path_value("my::path") }).collect(),
            malformed: None,
        },
    }
}

fn field_attr(name: &'static str) -> FieldAttr<&'static str> {
    AttrInfo { attr: name, first_segment: Some(name.to_string()), span: sp(), serde: no_serde() }
}

fn empty_serde() -> SerdeCustomization {
    SerdeCustomization { transparent: None, with: None, serialize_with: None, deserialize_with: None }
}

fn input(attrs: Vec<StructAttr<&'static str>>, field: Option<FieldInput<&'static str>>) -> MetaInput<&'static str> {
    MetaInput { attrs, span: sp(), shape: DataShape::TupleStruct, fields_span: sp(), first_field: field }
}

fn field(ty: &str, attrs: Vec<FieldAttr<&'static str>>) -> FieldInput<&'static str> {
    FieldInput { vis_inherited: true, vis_span: sp(), attrs, type_text: ty.to_string(), type_span: sp() }
}

#[test]
fn whitespace_is_removed_from_type_paths() {
    let c: String = compact("rust_decimal :: Decimal").into_iter().collect();
    assert_eq!(c, "rust_decimal::Decimal");
    let c: String = compact("\u{a0}Vec < u8 >\t").into_iter().collect();
    assert_eq!(c, "Vec<u8>");
}

#[test]
fn inner_types_are_classified() {
    assert_eq!(classify_inner_type("String", false), Ok(InnerTypeKind::String));
    assert_eq!(classify_inner_type("u8", false), Ok(InnerTypeKind::Integer(IntegerInnerType::U8)));
    assert_eq!(classify_inner_type("isize", false), Ok(InnerTypeKind::Integer(IntegerInnerType::Isize)));
    assert_eq!(classify_inner_type("f64", false), Ok(InnerTypeKind::Float(FloatInnerType::F64)));
    assert_eq!(classify_inner_type(":: rust_decimal :: Decimal", true), Ok(InnerTypeKind::Decimal));
    assert_eq!(classify_inner_type("Decimal", false), Err(()));
    assert_eq!(classify_inner_type("Vec<u8>", false), Ok(InnerTypeKind::Any));
    assert_eq!(classify_inner_type("std::string::String", false), Ok(InnerTypeKind::Any));
}

#[test]
fn a_plain_tuple_struct_is_read() {
    let attrs = vec![struct_attr("doc"), struct_attr("allow"), struct_serde(&["transparent"]), struct_attr("doc")];
    let m = parse_meta(input(attrs, Some(field("u32", vec![field_attr("allow"), field_serde(&["with"])]))), false).ok().unwrap();
    assert_eq!(m.doc_attrs, vec!["doc", "doc"]);
    assert_eq!(m.forwarded_attrs, vec!["allow"]);
    assert_eq!(m.inner_field_attrs, vec!["allow"]);
    assert!(m.serde_customization.transparent.is_some());
    assert!(m.serde_customization.with.is_some());
    assert!(m.serde_customization.serialize_with.is_none());
    assert_eq!(m.inner_type, InnerTypeKind::Integer(IntegerInnerType::U32));
}

#[test]
fn derive_on_the_struct_is_refused_first() {
    let attrs = vec![struct_attr("schemars"), struct_attr("derive")];
    let mut i = input(attrs, None);
    i.shape = DataShape::Enum;
    assert!(matches!(parse_meta(i, false), Err(MetaError::DeriveNotAllowed { .. })));
    assert!(matches!(intercept_derive_macro(&vec![struct_attr("doc"), struct_attr("derive")]), Err(MetaError::DeriveNotAllowed { .. })));
    assert!(intercept_derive_macro(&vec![struct_attr("doc")]).is_ok());
}

#[test]
fn schemars_on_the_struct_is_refused() {
    let r = parse_meta(input(vec![struct_attr("schemars")], Some(field("u8", vec![]))), false);
    assert!(matches!(r, Err(MetaError::SchemarsNotSupported { .. })));
}

#[test]
fn struct_level_serde_keys() {
    let one = NestedMeta { items: vec![NestedItem { key: "transparent".to_string(), span: sp(), value: true }], malformed: None };
    assert!(matches!(parse_struct_level_serde_attr(one, None), Ok(Some(_))));
    let twice = NestedMeta {
        items: vec![
            NestedItem { key: "transparent".to_string(), span: sp(), value: true },
            NestedItem { key: "transparent".to_string(), span: sp(), value: true },
        ],
        malformed: None,
    };
    assert!(matches!(parse_struct_level_serde_attr(twice, None), Err(MetaError::DuplicateTransparent { .. })));
    let other = NestedMeta { items: vec![NestedItem { key: "rename".to_string(), span: sp(), value: true }], malformed: None };
    assert!(matches!(parse_struct_level_serde_attr(other, None), Err(MetaError::UnsupportedStructSerde { .. })));
    let malformed: NestedMeta<bool> = NestedMeta { items: vec![], malformed: Some(syn::Error::new(sp(), "bad")) };
    assert!(matches!(parse_struct_level_serde_attr(malformed, None), Err(MetaError::Malformed(_))));
    // across two attributes
    let r = parse_meta(input(vec![struct_serde(&["transparent"]), struct_serde(&["transparent"])], Some(field("u8", vec![]))), false);
    assert!(matches!(r, Err(MetaError::DuplicateTransparent { .. })));
}

fn items(keys: &[&str]) -> NestedMeta<SerdePathValue> {
    NestedMeta {
        items: keys.iter().map(|k| NestedItem { key: k.to_string(), span: sp(), value: path_value("a::b") }).collect(),
        malformed: None,
    }
}

#[test]
fn field_level_serde_keys() {
    let s = parse_field_level_serde_attr(items(&["serialize_with", "deserialize_with"]), empty_serde()).ok().unwrap();
    assert!(s.serialize_with.is_some() && s.deserialize_with.is_some() && s.with.is_none());
    assert!(matches!(
        parse_field_level_serde_attr(items(&["with", "with"]), empty_serde()),
        Err(MetaError::DuplicateFieldSerde { key: SerdeKey::With, .. })
    ));
    assert!(matches!(
        parse_field_level_serde_attr(items(&["serialize_with", "with"]), empty_serde()),
        Err(MetaError::WithCombined { key: SerdeKey::With, .. })
    ));
    assert!(matches!(
        parse_field_level_serde_attr(items(&["with", "deserialize_with"]), empty_serde()),
        Err(MetaError::WithCombined { key: SerdeKey::DeserializeWith, .. })
    ));
    assert!(matches!(
        parse_field_level_serde_attr(items(&["with", "serialize_with"]), empty_serde()),
        Err(MetaError::WithCombined { key: SerdeKey::SerializeWith, .. })
    ));
    assert!(matches!(
        parse_field_level_serde_attr(items(&["deserialize_with", "deserialize_with"]), empty_serde()),
        Err(MetaError::DuplicateFieldSerde { key: SerdeKey::DeserializeWith, .. })
    ));
    assert!(matches!(
        parse_field_level_serde_attr(items(&["skip"]), empty_serde()),
        Err(MetaError::UnsupportedFieldSerde { .. })
    ));
    let bad = NestedMeta {
        items: vec![NestedItem { key: "with".to_string(), span: sp(), value: SerdePathValue::Invalid(syn::Error::new(sp(), "not a path")) }],
        malformed: None,
    };
    assert!(matches!(parse_field_level_serde_attr(bad, empty_serde()), Err(MetaError::InvalidSerdePath(_))));
}

#[test]
fn the_item_must_be_a_tuple_struct_with_a_private_field() {
    let mut i = input(vec![], None);
    i.shape = DataShape::NamedStruct;
    assert!(matches!(parse_meta(i, false), Err(MetaError::NotTupleStruct { .. })));
    assert!(matches!(parse_meta(input(vec![], None), false), Err(MetaError::EmptyTupleStruct { .. })));
    let mut f = field("u8", vec![]);
    f.vis_inherited = false;
    assert!(matches!(parse_meta(input(vec![], Some(f)), false), Err(MetaError::FieldVisibility { .. })));
}

#[test]
fn cfg_on_the_field_is_refused() {
    let r = parse_meta(input(vec![], Some(field("u8", vec![field_attr("cfg")]))), false);
    assert!(matches!(r, Err(MetaError::CfgOnField { .. })));
}

#[test]
fn decimal_needs_its_feature() {
    let r = parse_meta(input(vec![], Some(field("rust_decimal::Decimal", vec![]))), false);
    assert!(matches!(r, Err(MetaError::DecimalFeatureMissing { .. })));
    let r = parse_meta(input(vec![], Some(field("rust_decimal::Decimal", vec![]))), true);
    assert_eq!(r.ok().unwrap().inner_type, InnerTypeKind::Decimal);
}

fn read(src: &str) -> Result<nutype_macros::meta::ReadMeta, nutype_macros::meta::MetaReadError> {
    let features = nutype_macros::models::Features {
        serde: true,
        schemars08: false,
        arbitrary: false,
        valuable: false,
        new_unchecked: false,
        rust_decimal: false,
    };
    nutype_macros::meta::read_meta(src.parse().unwrap(), features)
}

#[test]
fn read_meta_reads_a_tuple_struct() {
    let m = read("/// Age in years\n#[serde(transparent)]\n#[allow(dead_code)]\nstruct Age(#[serde(with = \"my::codec\")] #[allow(unused)] u8);").ok().unwrap();
    assert_eq!(m.header.ident.to_string(), "Age");
    assert_eq!(m.model.inner_type, InnerTypeKind::Integer(IntegerInnerType::U8));
    assert_eq!(m.model.doc_attrs.len(), 1);
    assert_eq!(m.model.forwarded_attrs.len(), 1);
    assert_eq!(m.model.inner_field_attrs.len(), 1);
    assert!(m.field.attrs.is_empty());
    assert!(m.model.serde_customization.transparent.is_some());
    let with = m.model.serde_customization.with.unwrap();
    let segments: Vec<String> = with.item.segments.iter().map(|s| s.ident.to_string()).collect();
    assert_eq!(segments.join("::"), "my::codec");
}

#[test]
fn read_meta_refusals() {
    let e = read("fn not_a_struct() {}").err().unwrap();
    assert!(matches!(e.error, MetaError::Malformed(_)) && e.header.is_none());
    let e = read("struct A { x: i32 }").err().unwrap();
    assert!(matches!(e.error, MetaError::NotTupleStruct { .. }) && e.header.is_some());
    let e = read("enum A { X }").err().unwrap();
    assert!(matches!(e.error, MetaError::NotTupleStruct { .. }));
    let e = read("struct A();").err().unwrap();
    assert!(matches!(e.error, MetaError::EmptyTupleStruct { .. }));
    let e = read("struct A(pub i32);").err().unwrap();
    assert!(matches!(e.error, MetaError::FieldVisibility { .. }));
    let e = read("#[derive(Debug)] struct A(i32);").err().unwrap();
    assert!(matches!(e.error, MetaError::DeriveNotAllowed { .. }));
    let e = read("#[serde(rename = \"b\")] struct A(i32);").err().unwrap();
    assert!(matches!(e.error, MetaError::UnsupportedStructSerde { .. }));
    let e = read("#[serde(transparent = true)] struct A(i32);").err().unwrap();
    assert!(matches!(e.error, MetaError::UnsupportedStructSerde { .. }));
    let e = read("struct A(#[serde(rename = \"b\")] i32);").err().unwrap();
    assert!(matches!(e.error, MetaError::UnsupportedFieldSerde { .. }));
    let e = read("struct A(#[serde(with = \"not a path\")] i32);").err().unwrap();
    assert!(matches!(e.error, MetaError::InvalidSerdePath(_)));
    let e = read("struct A(#[serde(with)] i32);").err().unwrap();
    assert!(matches!(e.error, MetaError::MissingSerdePath { .. }));
    let e = read("struct A(#[serde(with = \"a\", serialize_with = \"b\")] i32);").err().unwrap();
    assert!(matches!(e.error, MetaError::WithCombined { key: SerdeKey::SerializeWith, .. }));
    let e = read("struct A(#[cfg(test)] i32);").err().unwrap();
    assert!(matches!(e.error, MetaError::CfgOnField { .. }));
    let e = read("#[serde(transparent,)] #[serde(transparent)] struct A(i32);").err().unwrap();
    assert!(matches!(e.error, MetaError::DuplicateTransparent { .. }));
    let e = read("struct A(rust_decimal::Decimal);").err().unwrap();
    assert!(matches!(e.error, MetaError::DecimalFeatureMissing { .. }));
}

#[test]
fn meta_from_item_reports_syn_errors_as_malformed() {
    let e = nutype_macros::meta::meta_from_item(Err(syn::Error::new(sp(), "bad")), false).err().unwrap();
    assert!(matches!(e.error, MetaError::Malformed(_)) && e.header.is_none());
}
