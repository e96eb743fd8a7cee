use gnuplot::text::escape;

#[test]
fn escape_test() {
    assert_eq!(r"\\", escape(r"\"));
    assert_eq!(r"\\\\", escape(r"\\"));
    assert_eq!(r#"\\\""#, escape(r#"\""#));
    assert_eq!(r#"\"\""#, escape(r#""""#));
    assert_eq!(r"\n", escape("\n"));
    assert_eq!(r"\`", escape("`"));
}

#[test]
fn escape_keeps_other_characters() {
    assert_eq!(escape("abc xyz"), "abc xyz");
    assert_eq!(escape("αβ"), "αβ");
    assert_eq!(escape(""), "");
    assert_eq!(escape("a\tb"), r"a\tb");
}

#[test]
fn escaped_text_is_single_line() {
    let e = escape("line one\nline two\n\ttabbed");
    assert!(!e.contains('\n'));
    assert!(!e.contains('\t'));
    assert_eq!(e, r"line one\nline two\n\ttabbed");
}

#[test]
fn escape_is_injective_on_examples() {
    // "\n" (newline) and "\\n" (backslash, n) must not escape to the same text.
    assert_ne!(escape("\n"), escape("\\n"));
    assert_eq!(escape("\\n"), r"\\n");
}
