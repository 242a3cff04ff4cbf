use nutype_macros::attributes::{classify_attr, AttrKeyword, AttrKeywordError, ParseableAttributes, ParsedAttr};
use nutype_macros::base::SpannedItem;
use nutype_macros::models::{CfgAttrEntry, DeriveTrait, NewUnchecked};
use proc_macro2::Span;

#[test]
fn attribute_names() {
    let sp = Span::call_site();
    assert!(matches!(classify_attr("sanitize", sp, true, false), Ok(AttrKeyword::Sanitize)));
    assert!(matches!(classify_attr("validate", sp, true, false), Ok(AttrKeyword::Validate)));
    assert!(matches!(classify_attr("derive", sp, true, false), Ok(AttrKeyword::Derive)));
    assert!(matches!(classify_attr("default", sp, false, false), Ok(AttrKeyword::Default)));
    assert!(matches!(classify_attr("new_unchecked", sp, false, true), Ok(AttrKeyword::NewUnchecked)));
    assert!(matches!(classify_attr("new_unchecked", sp, false, false), Err(AttrKeywordError::NewUncheckedFeatureOff { .. })));
    assert!(matches!(
        classify_attr("sanitize", sp, false, false),
        Err(AttrKeywordError::NeedsParens { keyword: AttrKeyword::Sanitize, .. })
    ));
    assert!(matches!(
        classify_attr("validate", sp, false, false),
        Err(AttrKeywordError::NeedsParens { keyword: AttrKeyword::Validate, .. })
    ));
    assert!(matches!(
        classify_attr("derive", sp, false, false),
        Err(AttrKeywordError::NeedsParens { keyword: AttrKeyword::Derive, .. })
    ));
    assert!(matches!(classify_attr("cfg_attr", sp, true, false), Ok(AttrKeyword::CfgAttr)));
    assert!(matches!(
        classify_attr("cfg_attr", sp, false, false),
        Err(AttrKeywordError::NeedsParens { keyword: AttrKeyword::CfgAttr, .. })
    ));
    assert!(matches!(classify_attr("Sanitize", sp, true, true), Err(AttrKeywordError::Unknown { .. })));
}

#[test]
fn later_attribute_replaces_earlier() {
    let mut attrs: ParseableAttributes<u8, u8> = ParseableAttributes::new();
    assert!(attrs.validation.is_none() && attrs.default.is_none());
    assert_eq!(attrs.new_unchecked, NewUnchecked::Off);
    attrs.apply(ParsedAttr::Sanitize(vec![1, 2]));
    attrs.apply(ParsedAttr::Derive(vec![SpannedItem::new(DeriveTrait::Debug, Span::call_site())]));
    attrs.apply(ParsedAttr::Sanitize(vec![3]));
    attrs.apply(ParsedAttr::NewUnchecked);
    attrs.apply(ParsedAttr::Default(syn::parse_str::<syn::Expr>("5").unwrap()));
    assert_eq!(attrs.sanitizers, vec![3]);
    assert_eq!(attrs.derive_traits.len(), 1);
    assert_eq!(attrs.new_unchecked, NewUnchecked::On);
    assert!(attrs.default.is_some());
}

#[test]
fn cfg_attr_entries_add_up() {
    let mut attrs: ParseableAttributes<u8, u8> = ParseableAttributes::new();
    assert!(attrs.cfg_attr_entries.is_empty());
    let d = |t: DeriveTrait| vec![SpannedItem::new(t, Span::call_site())];
    attrs.apply(ParsedAttr::CfgAttr(CfgAttrEntry { predicate: "unix".parse().unwrap(), derive_traits: d(DeriveTrait::FromStr) }));
    attrs.apply(ParsedAttr::Derive(d(DeriveTrait::Debug)));
    attrs.apply(ParsedAttr::CfgAttr(CfgAttrEntry { predicate: "test".parse().unwrap(), derive_traits: d(DeriveTrait::Default) }));
    assert_eq!(attrs.cfg_attr_entries.len(), 2);
    assert_eq!(attrs.cfg_attr_entries[0].predicate.to_string(), "unix");
    assert_eq!(attrs.cfg_attr_entries[1].derive_traits[0].item, DeriveTrait::Default);
    assert_eq!(attrs.derive_traits.len(), 1);
}
