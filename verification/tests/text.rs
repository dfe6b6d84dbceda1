use docsort::text::{chars_of, eq_ignore_ascii_case, is_blank, lower_ascii_char, to_ascii_lowercase};

#[test]
fn lowercase_touches_ascii_letters_only() {
    assert_eq!(to_ascii_lowercase("PDF"), vec!['p', 'd', 'f']);
    assert_eq!(to_ascii_lowercase("Ünï-X1"), vec!['Ü', 'n', 'ï', '-', 'x', '1']);
    assert_eq!(lower_ascii_char('Z'), 'z');
    assert_eq!(lower_ascii_char('['), '[');
    assert_eq!(lower_ascii_char('@'), '@');
}

#[test]
fn ascii_case_insensitive_comparison() {
    assert!(eq_ignore_ascii_case(&chars_of("DocX"), &chars_of("docx")));
    assert!(!eq_ignore_ascii_case(&chars_of("doc"), &chars_of("docx")));
    assert!(!eq_ignore_ascii_case(&chars_of("É"), &chars_of("é")));
    assert!(eq_ignore_ascii_case(&chars_of(""), &chars_of("")));
}

#[test]
fn blank_means_only_unicode_whitespace() {
    assert!(is_blank(""));
    assert!(is_blank(" \t\r\n\u{85}\u{a0}\u{2028}\u{3000}"));
    assert!(!is_blank("  x "));
    assert!(!is_blank("\u{200b}"));
    for s in ["", " ", "\u{1680}", "a", " b", "\u{feff}"] {
        assert_eq!(is_blank(s), s.trim().is_empty());
    }
}
