use user_api::text::strip_bearer;

#[test]
fn strip_bearer_removes_scheme_and_spaces() {
    assert_eq!(strip_bearer("Bearer abc.def.ghi"), "abc.def.ghi");
}

#[test]
fn strip_bearer_keeps_bare_token() {
    assert_eq!(strip_bearer("abc.def.ghi"), "abc.def.ghi");
}

#[test]
fn strip_bearer_removes_repeated_scheme_words() {
    assert_eq!(strip_bearer("BearerBearer  tok "), "tok");
}

#[test]
fn strip_bearer_trims_unicode_white_space() {
    assert_eq!(strip_bearer("Bearer\t\u{3000}tok\u{a0}\n"), "tok");
}

#[test]
fn strip_bearer_of_empty_and_blank_values() {
    assert_eq!(strip_bearer(""), "");
    assert_eq!(strip_bearer("Bearer"), "");
    assert_eq!(strip_bearer("   "), "");
}

#[test]
fn strip_bearer_keeps_lowercase_scheme() {
    assert_eq!(strip_bearer("bearer tok"), "bearer tok");
}
