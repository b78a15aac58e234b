use interpreter_rs::error::{error, report, Diagnostic};
use interpreter_rs::text::{collect, decode, push_decimal, same_text, spells};

#[test]
fn error_names_the_line_and_the_message() {
    assert_eq!(error(3, "Unexpected character."), "[Line 3] Error : Unexpected character.");
    assert_eq!(error(12, "Unterminated string."), "[Line 12] Error : Unterminated string.");
    assert_eq!(error(0, ""), "[Line 0] Error : ");
}

#[test]
fn report_names_the_place() {
    assert_eq!(report(1, " at end", "Expect ';'."), "[Line 1] Error  at end: Expect ';'.");
    assert_eq!(report(4294967295, "", "m"), "[Line 4294967295] Error : m");
    assert_eq!(report(100, "x", "y"), format!("[Line {}] Error {}: {}", 100, "x", "y"));
}

#[test]
fn diagnostics_carry_line_and_message() {
    let unexpected = Diagnostic::UnexpectedCharacter(4);
    let unterminated = Diagnostic::UnterminatedString(9);
    assert_eq!(unexpected.line(), 4);
    assert_eq!(unexpected.message(), "Unexpected character.");
    assert_eq!(unterminated.line(), 9);
    assert_eq!(unterminated.message(), "Unterminated string.");
    assert_eq!(
        error(unterminated.line() as u32, unterminated.message()),
        "[Line 9] Error : Unterminated string."
    );
}

#[test]
fn decimal_numerals() {
    for value in [0u32, 1, 9, 10, 11, 99, 100, 101, 1000, 65535, 1234567890, u32::MAX] {
        let mut text = String::from("n=");
        push_decimal(&mut text, value);
        assert_eq!(text, format!("n={}", value));
    }
}

#[test]
fn decode_and_collect_are_inverse() {
    let text = "a→b\nç\0d";
    let chars = decode(text);
    assert_eq!(chars, text.chars().collect::<Vec<char>>());
    assert_eq!(collect(&chars, 0, chars.len()), text);
    assert_eq!(collect(&chars, 1, 3), "→b");
    assert_eq!(collect(&chars, 2, 2), "");
    assert_eq!(decode(""), Vec::<char>::new());
}

#[test]
fn spells_compares_a_span_with_a_word() {
    let chars = decode("say while");
    assert!(spells(&chars, 4, 9, "while"));
    assert!(!spells(&chars, 4, 8, "while"));
    assert!(!spells(&chars, 3, 9, "while"));
    assert!(!spells(&chars, 4, 9, "whilf"));
    assert!(!spells(&chars, 4, 9, "While"));
    assert!(spells(&chars, 2, 2, ""));
}

#[test]
fn same_text_is_equality() {
    assert!(same_text("lox", "lox"));
    assert!(!same_text("lox", "Lox"));
    assert!(!same_text("lox", "lo"));
    assert!(!same_text("", "lox"));
    assert!(same_text("", ""));
    assert!(same_text("é→", "é→"));
}
