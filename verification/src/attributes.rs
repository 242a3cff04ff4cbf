use vstd::prelude::*;

use crate::base::SpannedItem;
use crate::models::{CfgAttrEntry, DeriveTrait, NewUnchecked, RawValidation};
use crate::text::str_eq;

verus! {

/// The attributes of `#[nutype(...)]`.
#[derive(Debug, Clone, Copy, PartialEq, Eq, Structural)]
pub enum AttrKeyword {
    Sanitize,
    Validate,
    Derive,
    Default,
    NewUnchecked,
    CfgAttr,
}

/// Why an attribute of `#[nutype(...)]` is refused before its content is read.
#[derive(Debug, Clone, Copy)]
pub enum AttrKeywordError {
    /// `sanitize`, `validate`, `derive` or `cfg_attr` not followed by parentheses.
    NeedsParens { keyword: AttrKeyword, span: proc_macro2::Span },
    /// `new_unchecked` while the feature of that name is off.
    NewUncheckedFeatureOff { span: proc_macro2::Span },
    /// Any other name.
    Unknown { span: proc_macro2::Span },
}

/// Which attribute a name introduces, and whether what follows it is
/// acceptable: the four list attributes need parentheses, `new_unchecked`
/// needs its feature.
pub open spec fn spec_classify_attr(
    ident: Seq<char>,
    span: proc_macro2::Span,
    paren_follows: bool,
    new_unchecked_enabled: bool,
) -> Result<AttrKeyword, AttrKeywordError> {
    if ident == "sanitize"@ {
        if paren_follows {
            Ok(AttrKeyword::Sanitize)
        } else {
            Err(AttrKeywordError::NeedsParens { keyword: AttrKeyword::Sanitize, span })
        }
    } else if ident == "validate"@ {
        if paren_follows {
            Ok(AttrKeyword::Validate)
        } else {
            Err(AttrKeywordError::NeedsParens { keyword: AttrKeyword::Validate, span })
        }
    } else if ident == "derive"@ {
        if paren_follows {
            Ok(AttrKeyword::Derive)
        } else {
            Err(AttrKeywordError::NeedsParens { keyword: AttrKeyword::Derive, span })
        }
    } else if ident == "cfg_attr"@ {
        if paren_follows {
            Ok(AttrKeyword::CfgAttr)
        } else {
            Err(AttrKeywordError::NeedsParens { keyword: AttrKeyword::CfgAttr, span })
        }
    } else if ident == "default"@ {
        Ok(AttrKeyword::Default)
    } else if ident == "new_unchecked"@ {
        if new_unchecked_enabled {
            Ok(AttrKeyword::NewUnchecked)
        } else {
            Err(AttrKeywordError::NewUncheckedFeatureOff { span })
        }
    } else {
        Err(AttrKeywordError::Unknown { span })
    }
}

/// Reads the name of an attribute of `#[nutype(...)]`; `paren_follows` tells
/// whether a parenthesised list comes next.
pub fn classify_attr(
    ident: &str,
    span: proc_macro2::Span,
    paren_follows: bool,
    new_unchecked_enabled: bool,
) -> (r: Result<AttrKeyword, AttrKeywordError>)
    ensures
        r == spec_classify_attr(ident@, span, paren_follows, new_unchecked_enabled),
{
    if str_eq(ident, "sanitize") {
        if paren_follows {
            Ok(AttrKeyword::Sanitize)
        } else {
            Err(AttrKeywordError::NeedsParens { keyword: AttrKeyword::Sanitize, span })
        }
    } else if str_eq(ident, "validate") {
        if paren_follows {
            Ok(AttrKeyword::Validate)
        } else {
            Err(AttrKeywordError::NeedsParens { keyword: AttrKeyword::Validate, span })
        }
    } else if str_eq(ident, "derive") {
        if paren_follows {
            Ok(AttrKeyword::Derive)
        } else {
            Err(AttrKeywordError::NeedsParens { keyword: AttrKeyword::Derive, span })
        }
    } else if str_eq(ident, "cfg_attr") {
        if paren_follows {
            Ok(AttrKeyword::CfgAttr)
        } else {
            Err(AttrKeywordError::NeedsParens { keyword: AttrKeyword::CfgAttr, span })
        }
    } else if str_eq(ident, "default") {
        Ok(AttrKeyword::Default)
    } else if str_eq(ident, "new_unchecked") {
        if new_unchecked_enabled {
            Ok(AttrKeyword::NewUnchecked)
        } else {
            Err(AttrKeywordError::NewUncheckedFeatureOff { span })
        }
    } else {
        Err(AttrKeywordError::Unknown { span })
    }
}

/// One attribute of `#[nutype(...)]` with its content read.
pub enum ParsedAttr<Sanitizer, Validator> {
    Sanitize(Vec<Sanitizer>),
    Validate(RawValidation<Validator>),
    Derive(Vec<SpannedItem<DeriveTrait>>),
    Default(syn::Expr),
    NewUnchecked,
    CfgAttr(CfgAttrEntry),
}

/// The attributes of `#[nutype(...)]`, as read so far.
pub struct ParseableAttributes<Sanitizer, Validator> {
    /// From `sanitize(...)`.
    pub sanitizers: Vec<Sanitizer>,
    /// From `validate(...)`.
    pub validation: Option<RawValidation<Validator>>,
    /// From `new_unchecked`.
    pub new_unchecked: NewUnchecked,
    /// From `default = ...`.
    pub default: Option<syn::Expr>,
    /// From `derive(...)`.
    pub derive_traits: Vec<SpannedItem<DeriveTrait>>,
    /// From each `cfg_attr(..., derive(...))`, in order.
    pub cfg_attr_entries: Vec<CfgAttrEntry>,
}

impl<Sanitizer, Validator> ParseableAttributes<Sanitizer, Validator> {
    /// Nothing given yet.
    pub fn new() -> (r: Self)
        ensures
            r.sanitizers@.len() == 0,
            r.validation is None,
            r.new_unchecked == NewUnchecked::Off,
            r.default is None,
            r.derive_traits@.len() == 0,
            r.cfg_attr_entries@.len() == 0,
    {
        ParseableAttributes {
            sanitizers: Vec::new(),
            validation: None,
            new_unchecked: NewUnchecked::Off,
            default: None,
            derive_traits: Vec::new(),
            cfg_attr_entries: Vec::new(),
        }
    }

    /// Records one attribute; an attribute given again replaces what it gave
    /// before, except `cfg_attr`, whose entries add up; the others stay as
    /// they were.
    pub fn apply(&mut self, attr: ParsedAttr<Sanitizer, Validator>)
        ensures
            match attr {
                ParsedAttr::Sanitize(s) => final(self).sanitizers@ == s@,
                _ => final(self).sanitizers@ == old(self).sanitizers@,
            },
            match attr {
                ParsedAttr::Validate(v) => final(self).validation == Some(v),
                _ => final(self).validation == old(self).validation,
            },
            match attr {
                ParsedAttr::NewUnchecked => final(self).new_unchecked == NewUnchecked::On,
                _ => final(self).new_unchecked == old(self).new_unchecked,
            },
            match attr {
                ParsedAttr::Default(e) => final(self).default == Some(e),
                _ => final(self).default == old(self).default,
            },
            match attr {
                ParsedAttr::Derive(d) => final(self).derive_traits@ == d@,
                _ => final(self).derive_traits@ == old(self).derive_traits@,
            },
            match attr {
                ParsedAttr::CfgAttr(e) => final(self).cfg_attr_entries@ == old(self).cfg_attr_entries@.push(e),
                _ => final(self).cfg_attr_entries@ == old(self).cfg_attr_entries@,
            },
    {
        match attr {
            ParsedAttr::Sanitize(s) => {
                self.sanitizers = s;
            },
            ParsedAttr::Validate(v) => {
                self.validation = Some(v);
            },
            ParsedAttr::Derive(d) => {
                self.derive_traits = d;
            },
            ParsedAttr::Default(e) => {
                self.default = Some(e);
            },
            ParsedAttr::NewUnchecked => {
                self.new_unchecked = NewUnchecked::On;
            },
            ParsedAttr::CfgAttr(e) => {
                self.cfg_attr_entries.push(e);
            },
        }
    }
}

} // verus!
