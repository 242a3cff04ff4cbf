use nutype_macros::naming::{gen_error_type_name, gen_module_name_for_type, gen_parse_error_name};

#[test]
fn generated_names() {
    assert_eq!(gen_error_type_name("Email"), "EmailError");
    assert_eq!(gen_parse_error_name("Age"), "AgeParseError");
    assert_eq!(gen_module_name_for_type("Age"), "__nutype_Age__");
}
