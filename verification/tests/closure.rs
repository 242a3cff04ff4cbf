use nutype_macros::closure::{type_custom_closure, type_position, TokenKind};

fn kinds(ts: &[&str]) -> Vec<TokenKind> {
    ts.iter()
        .map(|t| match *t {
            "|" => TokenKind::Pipe,
            s if s.chars().all(|c| c.is_alphanumeric() || c == '_') => TokenKind::Ident(s.to_string()),
            _ => TokenKind::Other,
        })
        .collect()
}

fn typed(ts: &[&'static str]) -> Vec<&'static str> {
    type_custom_closure(ts.to_vec(), &kinds(ts), ":", vec!["String"])
}

#[test]
fn one_argument_closure_gets_its_type() {
    assert_eq!(typed(&["|", "s", "|", "s", ".", "len", "(", ")"]), vec!["|", "s", ":", "String", "|", "s", ".", "len", "(", ")"]);
    assert_eq!(typed(&["|", "mut", "s", "|", "s"]), vec!["|", "mut", "s", ":", "String", "|", "s"]);
}

#[test]
fn other_tokens_are_left_alone() {
    assert_eq!(typed(&["my_fn"]), vec!["my_fn"]);
    assert_eq!(typed(&["|", "a", ",", "b", "|", "a"]), vec!["|", "a", ",", "b", "|", "a"]);
    assert_eq!(typed(&["|", "s", ":", "u8", "|"]), vec!["|", "s", ":", "u8", "|"]);
    assert_eq!(typed(&["|", "|"]), vec!["|", "|"]);
    assert_eq!(type_position(&kinds(&["|", "mut", "s"])), None);
}
