use abi_stable::literals::{get_string_length, string_length, LiteralError};

#[test]
fn plain_literal_length() {
    assert_eq!(get_string_length("\"hello\"").unwrap(), 5);
    assert_eq!(get_string_length("\"\"").unwrap(), 0);
}

#[test]
fn escapes_are_processed() {
    // `\n` is one byte, `\u{e9}` is two bytes in UTF-8.
    assert_eq!(get_string_length(r#""a\nb""#).unwrap(), 3);
    assert_eq!(get_string_length(r#""h\u{e9}llo""#).unwrap(), 6);
    assert_eq!(get_string_length(r#""\x41\t\\""#).unwrap(), 3);
}

#[test]
fn raw_and_unicode_literals() {
    assert_eq!(get_string_length(r##"r#"a"b"#"##).unwrap(), 3);
    assert_eq!(get_string_length("\"日本\"").unwrap(), 6);
}

#[test]
fn not_a_string_literal_is_refused() {
    for s in ["hello", "42", "'c'", "b\"bytes\"", "br\"raw bytes\"", "\"a\" \"b\"", "", "(\"a\")", "(/*ERROR*/)"] {
        match get_string_length(s) {
            Err(LiteralError::NotAStringLiteral) => {}
            other => panic!("{:?} gave {:?}", s, other),
        }
    }
}

#[test]
fn c_string_literals_are_refused() {
    for s in ["c\"a\"", "cr\"a\"", "cr#\"a\"#"] {
        match get_string_length(s) {
            Err(LiteralError::NotAStringLiteral) => {}
            other => panic!("{:?} gave {:?}", s, other),
        }
    }
}

#[test]
fn text_that_is_not_tokens_is_refused() {
    for s in ["\"unterminated", "\"bad escape \\q\"", "/* open comment"] {
        match get_string_length(s) {
            Err(LiteralError::Lex(_)) => {}
            other => panic!("{:?} gave {:?}", s, other),
        }
    }
}

#[test]
fn suffixed_literal_counts_its_value() {
    assert_eq!(get_string_length("\"ab\"suffix").unwrap(), 2);
}

#[test]
fn length_in_bytes() {
    assert_eq!(string_length("abc"), 3);
    assert_eq!(string_length("é"), 2);
    assert_eq!(string_length("𝄞"), 4);
    assert_eq!(string_length(""), 0);
}

use abi_stable::literals::{string_length_of_tokens, string_literal_token, LexedToken};

#[test]
fn one_string_literal_token_is_found() {
    let tokens = vec![LexedToken::Literal("\"abc\"".to_string())];
    assert_eq!(string_literal_token(&tokens).map(|s| s.as_str()), Some("\"abc\""));
    let raw = vec![LexedToken::Literal("r#\"a\"#".to_string())];
    assert_eq!(string_literal_token(&raw).map(|s| s.as_str()), Some("r#\"a\"#"));
}

#[test]
fn other_tokens_are_not_a_string_literal() {
    let cases = vec![
        vec![],
        vec![LexedToken::Literal("42".to_string())],
        vec![LexedToken::Literal("c\"a\"".to_string())],
        vec![LexedToken::Literal("b\"a\"".to_string())],
        vec![LexedToken::Literal("".to_string())],
        vec![LexedToken::Ident],
        vec![LexedToken::Group],
        vec![LexedToken::Literal("\"a\"".to_string()), LexedToken::Punct],
    ];
    for tokens in cases {
        assert_eq!(string_literal_token(&tokens), None, "{:?}", tokens);
        match string_length_of_tokens(&tokens) {
            Err(LiteralError::NotAStringLiteral) => {}
            other => panic!("{:?} gave {:?}", tokens, other),
        }
    }
}

#[test]
fn length_from_tokens() {
    let tokens = vec![LexedToken::Literal("\"h\\u{e9}\"".to_string())];
    assert_eq!(string_length_of_tokens(&tokens).unwrap(), 3);
}
