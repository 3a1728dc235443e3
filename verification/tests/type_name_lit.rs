use type_reg::TypeNameLit;

#[test]
fn type_name_lit_debug() {
    let type_name_lit = TypeNameLit("A");
    assert_eq!("\"A\"", type_name_lit.to_debug_string());
}

#[test]
fn type_name_lit_display() {
    let type_name_lit = TypeNameLit("A");
    assert_eq!("A", type_name_lit.to_string());
}

#[test]
fn type_name_lit_debug_escapes_what_a_literal_escapes() {
    let type_name_lit = TypeNameLit("a\"b\\c\n");
    assert_eq!("\"a\\\"b\\\\c\\n\"", type_name_lit.to_debug_string());
}
