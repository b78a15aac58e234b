use interpreter_rs::scanner::Scanner;
use interpreter_rs::token::{LiteralTypes, Token, TokenType};

// Utility function for making tokens
fn make_token(ttype: TokenType, lexeme: &str, literal: LiteralTypes, line: usize) -> Token {
    Token { ttype, lexeme: lexeme.to_string(), literal, line }
}

fn number(numeral: &str) -> LiteralTypes {
    LiteralTypes::Number(numeral.to_string())
}

#[test]
fn constructs_scanner() {
    let source = "==".to_string();
    let scanner = Scanner::new(source.clone());

    assert_eq!(scanner.source(), source);
    assert_eq!(scanner.tokens(), &Vec::<Token>::new());
    assert!(scanner.diagnostics().is_empty());
    assert_eq!(scanner.start(), 0);
    assert_eq!(scanner.current(), 0);
    assert_eq!(scanner.line(), 1);

    let expected = Scanner::new(source);
    assert_eq!(scanner, expected);
}

#[test]
fn tokenize_muliple_lines() {
    let source = r#"var name = "Gbubemi";
            var counter = 1;"#
        .to_string();
    let mut scanner = Scanner::new(source);

    let expected_vec = vec![
        make_token(TokenType::Var, "var", LiteralTypes::Nil, 1),
        make_token(TokenType::Identifier, "name", LiteralTypes::Nil, 1),
        make_token(TokenType::Equal, "=", LiteralTypes::Nil, 1),
        make_token(
            TokenType::String,
            r#""Gbubemi""#,
            LiteralTypes::String(String::from("Gbubemi")),
            1,
        ),
        make_token(TokenType::SemiColon, ";", LiteralTypes::Nil, 1),
        make_token(TokenType::Var, "var", LiteralTypes::Nil, 2),
        make_token(TokenType::Identifier, "counter", LiteralTypes::Nil, 2),
        make_token(TokenType::Equal, "=", LiteralTypes::Nil, 2),
        make_token(TokenType::Number, "1", number("1"), 2),
        make_token(TokenType::SemiColon, ";", LiteralTypes::Nil, 2),
        make_token(TokenType::EOF, "", LiteralTypes::Nil, 2),
    ];

    let tokens = scanner.scan_tokens();

    assert_eq!(expected_vec, tokens);
}

#[test]
fn tokenize_single_chars() {
    let source = "var add = 1 + 1;".to_string();
    let mut scanner = Scanner::new(source);

    let expected_vec = vec![
        make_token(TokenType::Var, "var", LiteralTypes::Nil, 1),
        make_token(TokenType::Identifier, "add", LiteralTypes::Nil, 1),
        make_token(TokenType::Equal, "=", LiteralTypes::Nil, 1),
        make_token(TokenType::Number, "1", number("1"), 1),
        make_token(TokenType::Plus, "+", LiteralTypes::Nil, 1),
        make_token(TokenType::Number, "1", number("1"), 1),
        make_token(TokenType::SemiColon, ";", LiteralTypes::Nil, 1),
        make_token(TokenType::EOF, "", LiteralTypes::Nil, 1),
    ];

    let tokens = scanner.scan_tokens();

    assert_eq!(expected_vec, tokens);
}

#[test]
fn scanner_skips_c_styled_block_comments() {
    let source = "/**  this is a sample block comment */".to_string();
    let mut scanner = Scanner::new(source);

    let expected_vec = vec![make_token(TokenType::EOF, "", LiteralTypes::Nil, 1)];

    let tokens = scanner.scan_tokens();

    assert_eq!(expected_vec, tokens);
}
