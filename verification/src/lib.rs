//! Decision logic of the `#[nutype]` attribute macro: parsing of the macro
//! arguments into plain models, validation of guards (sanitizers and
//! validators), validation of the traits to derive, and the plans from which
//! the code generator emits tokens.

pub mod any;
pub mod arbitrary;
pub mod attr_syntax;
pub mod attributes;
pub mod base;
pub mod decimal;
pub mod decimal_lit;
pub mod bounds;
pub mod closure;
pub mod derive;
pub mod float;
pub mod gen_plan;
pub mod generatable;
pub mod guard;
pub mod integer;
pub mod kinds;
pub mod meta;
pub mod models;
pub mod naming;
pub mod number;
pub mod numeric;
pub mod raw_validation;
pub mod text;
pub mod validate;
