use vstd::prelude::*;

verus! {

/// Name of the validation error type generated for a newtype: `{Name}Error`.
pub fn gen_error_type_name(newtype_name: &str) -> (r: String)
    ensures
        r@ == newtype_name@ + "Error"@,
{
    let name = newtype_name.to_string();
    name.concat("Error")
}

/// Name of the error type of `FromStr` generated for a newtype:
/// `{Name}ParseError`.
pub fn gen_parse_error_name(newtype_name: &str) -> (r: String)
    ensures
        r@ == newtype_name@ + "ParseError"@,
{
    let name = newtype_name.to_string();
    name.concat("ParseError")
}

/// Name of the module the newtype is generated in: `__nutype_{Name}__`.
pub fn gen_module_name_for_type(newtype_name: &str) -> (r: String)
    ensures
        r@ == "__nutype_"@ + newtype_name@ + "__"@,
{
    let prefix = "__nutype_".to_string();
    let with_name = prefix.concat(newtype_name);
    with_name.concat("__")
}

} // verus!
