use quickshell::report::failure;
use quickshell::text::{captured_output, find, parse_digits, trim};

fn chars_of(s: &str) -> Vec<char> {
    s.chars().collect()
}

#[test]
fn output_with_text() {
    assert_eq!(captured_output("hi\n"), Some(String::from("hi")));
}

#[test]
fn output_empty() {
    assert_eq!(captured_output("\n"), None);
    assert_eq!(captured_output(""), None);
}

#[test]
fn output_blank() {
    assert_eq!(captured_output(" \n"), None);
    assert_eq!(captured_output("\n\n"), None);
}

#[test]
fn output_multiline() {
    assert_eq!(captured_output("hi\nthere\n"), Some(String::from("hi\nthere")));
    assert_eq!(captured_output("hi\n  \n"), Some(String::from("hi")));
    assert_eq!(captured_output("\u{3000}x\u{a0}"), Some(String::from("x")));
}

#[test]
fn digits_and_search() {
    assert_eq!(parse_digits(&chars_of("0042")), Some(42));
    assert_eq!(parse_digits(&chars_of("18446744073709551615")), Some(u64::MAX));
    assert_eq!(parse_digits(&chars_of("18446744073709551616")), None);
    assert_eq!(parse_digits(&chars_of("")), None);
    assert_eq!(parse_digits(&chars_of("4x")), None);
    assert_eq!(find(&chars_of("a/b/c"), &chars_of("/")), Some(1));
    assert_eq!(find(&chars_of("abc"), &chars_of("d")), None);
    assert_eq!(trim(&chars_of("  a b ")), chars_of("a b"));
}

#[test]
fn error_form_lines() {
    let r = failure("boom", "#dc322f");
    assert_eq!(r.lines(), vec!["boom".to_string(), "boom".to_string(), "#dc322f".to_string()]);
}
