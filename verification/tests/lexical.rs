use interpreter_rs::error::Diagnostic;
use interpreter_rs::scanner::{map_keyword, Scanner};
use interpreter_rs::token::{LiteralTypes, Token, TokenType};

fn scan(source: &str) -> (Vec<Token>, Vec<Diagnostic>) {
    let mut scanner = Scanner::new(source.to_string());
    let tokens = scanner.scan_tokens();
    (tokens, scanner.diagnostics().clone())
}

fn kinds(tokens: &[Token]) -> Vec<TokenType> {
    tokens.iter().map(|token| token.ttype).collect()
}

fn lexemes(tokens: &[Token]) -> Vec<String> {
    tokens.iter().map(|token| token.lexeme.clone()).collect()
}

fn lines(tokens: &[Token]) -> Vec<usize> {
    tokens.iter().map(|token| token.line).collect()
}

fn value(token: &Token) -> f64 {
    match &token.literal {
        LiteralTypes::Number(numeral) => numeral.parse().unwrap(),
        other => panic!("not a number: {:?}", other),
    }
}

fn end_of_stream(line: usize) -> Token {
    Token { ttype: TokenType::EOF, lexeme: String::new(), literal: LiteralTypes::Nil, line }
}

#[test]
fn empty_source_is_end_of_stream_on_line_one() {
    let (tokens, diagnostics) = scan("");
    assert_eq!(tokens, vec![end_of_stream(1)]);
    assert!(diagnostics.is_empty());
}

#[test]
fn white_space_yields_only_end_of_stream() {
    let (tokens, diagnostics) = scan(" \t\r\n\n  \n\t");
    assert_eq!(tokens, vec![end_of_stream(4)]);
    assert!(diagnostics.is_empty());

    let (tokens, _) = scan("   ");
    assert_eq!(tokens, vec![end_of_stream(1)]);
}

#[test]
fn lexemes_are_the_text_of_their_spans() {
    let source = "fun add(a, b) { return a + b; } // sum\nprint add(1.5, \"x y\") >= 2;";
    let (tokens, diagnostics) = scan(source);
    assert!(diagnostics.is_empty());

    let mut from = 0;
    for token in &tokens[..tokens.len() - 1] {
        let at = source[from..].find(token.lexeme.as_str()).unwrap() + from;
        assert_eq!(&source[at..at + token.lexeme.len()], token.lexeme);
        from = at + token.lexeme.len();
    }
    assert_eq!(tokens.last().unwrap().lexeme, "");
    assert_eq!(
        lexemes(&tokens),
        vec![
            "fun", "add", "(", "a", ",", "b", ")", "{", "return", "a", "+", "b", ";", "}",
            "print", "add", "(", "1.5", ",", "\"x y\"", ")", ">=", "2", ";", "",
        ]
    );
}

#[test]
fn reserved_words_are_case_sensitive() {
    let (tokens, _) = scan("if If IF iff _if if_ while While nil Nil");
    assert_eq!(
        kinds(&tokens),
        vec![
            TokenType::If,
            TokenType::Identifier,
            TokenType::Identifier,
            TokenType::Identifier,
            TokenType::Identifier,
            TokenType::Identifier,
            TokenType::While,
            TokenType::Identifier,
            TokenType::Nil,
            TokenType::Identifier,
            TokenType::EOF,
        ]
    );
    for token in &tokens {
        assert_eq!(token.literal, LiteralTypes::Nil);
    }
}

#[test]
fn every_reserved_word_has_its_kind() {
    let table = [
        ("and", TokenType::And),
        ("class", TokenType::Class),
        ("else", TokenType::Else),
        ("false", TokenType::False),
        ("for", TokenType::For),
        ("fun", TokenType::Fun),
        ("if", TokenType::If),
        ("nil", TokenType::Nil),
        ("or", TokenType::Or),
        ("print", TokenType::Print),
        ("return", TokenType::Return),
        ("super", TokenType::Super),
        ("this", TokenType::This),
        ("true", TokenType::True),
        ("var", TokenType::Var),
        ("while", TokenType::While),
    ];
    for (word, kind) in table {
        assert_eq!(map_keyword(word), Some(kind));
        assert_eq!(map_keyword(&word.to_uppercase()), None);
        assert_eq!(map_keyword(&format!("{}s", word)), None);
        let (tokens, _) = scan(word);
        assert_eq!(kinds(&tokens), vec![kind, TokenType::EOF]);
        assert_eq!(tokens[0].lexeme, word);
    }
    assert_eq!(map_keyword(""), None);
    assert_eq!(map_keyword("i"), None);
    assert_eq!(map_keyword("identifier"), None);
    assert_eq!(map_keyword("EOF"), None);
}

#[test]
fn numbers_carry_their_numeral() {
    let (tokens, _) = scan("1");
    assert_eq!(kinds(&tokens), vec![TokenType::Number, TokenType::EOF]);
    assert_eq!(tokens[0].literal, LiteralTypes::Number("1".to_string()));
    assert_eq!(value(&tokens[0]), 1.0);

    let (tokens, _) = scan("3.14");
    assert_eq!(kinds(&tokens), vec![TokenType::Number, TokenType::EOF]);
    assert_eq!(tokens[0].lexeme, "3.14");
    assert_eq!(value(&tokens[0]), 3.14);
}

#[test]
fn a_trailing_dot_is_a_token_of_its_own() {
    let (tokens, diagnostics) = scan("3.");
    assert_eq!(kinds(&tokens), vec![TokenType::Number, TokenType::Dot, TokenType::EOF]);
    assert_eq!(lexemes(&tokens), vec!["3", ".", ""]);
    assert_eq!(value(&tokens[0]), 3.0);
    assert_eq!(tokens[1].literal, LiteralTypes::Nil);
    assert!(diagnostics.is_empty());
}

#[test]
fn dots_around_numbers() {
    let (tokens, _) = scan("1.5.25 .5 12abc 7.x");
    assert_eq!(
        lexemes(&tokens),
        vec!["1.5", ".", "25", ".", "5", "12", "abc", "7", ".", "x", ""]
    );
    assert_eq!(
        kinds(&tokens),
        vec![
            TokenType::Number,
            TokenType::Dot,
            TokenType::Number,
            TokenType::Dot,
            TokenType::Number,
            TokenType::Number,
            TokenType::Identifier,
            TokenType::Number,
            TokenType::Dot,
            TokenType::Identifier,
            TokenType::EOF,
        ]
    );
    assert_eq!(value(&tokens[0]), 1.5);
    assert_eq!(value(&tokens[2]), 25.0);
}

#[test]
fn string_literal_keeps_quotes_in_lexeme_only() {
    let (tokens, diagnostics) = scan("\"Gbubemi\"");
    assert_eq!(
        tokens,
        vec![
            Token {
                ttype: TokenType::String,
                lexeme: "\"Gbubemi\"".to_string(),
                literal: LiteralTypes::String("Gbubemi".to_string()),
                line: 1,
            },
            end_of_stream(1),
        ]
    );
    assert!(diagnostics.is_empty());
}

#[test]
fn strings_take_backslashes_and_newlines_as_they_are() {
    let (tokens, diagnostics) = scan("\"a\\n\nb\" x \"\"");
    assert_eq!(
        kinds(&tokens),
        vec![TokenType::String, TokenType::Identifier, TokenType::String, TokenType::EOF]
    );
    assert_eq!(tokens[0].literal, LiteralTypes::String("a\\n\nb".to_string()));
    assert_eq!(tokens[0].lexeme, "\"a\\n\nb\"");
    assert_eq!(tokens[2].literal, LiteralTypes::String(String::new()));
    assert_eq!(lines(&tokens), vec![2, 2, 2, 2]);
    assert!(diagnostics.is_empty());
}

#[test]
fn line_comment_yields_no_token() {
    let (tokens, diagnostics) = scan("// comment\ncode");
    assert_eq!(kinds(&tokens), vec![TokenType::Identifier, TokenType::EOF]);
    assert_eq!(tokens[0].lexeme, "code");
    assert_eq!(tokens[0].line, 2);
    assert!(diagnostics.is_empty());

    let (tokens, _) = scan("a // b c d");
    assert_eq!(lexemes(&tokens), vec!["a", ""]);
    assert_eq!(lines(&tokens), vec![1, 1]);
}

#[test]
fn unterminated_string_is_reported_and_yields_no_token() {
    let (tokens, diagnostics) = scan("\"never closed");
    assert_eq!(tokens, vec![end_of_stream(1)]);
    assert_eq!(diagnostics, vec![Diagnostic::UnterminatedString(1)]);

    let (tokens, diagnostics) = scan("a = \"one\ntwo\nthree");
    assert_eq!(kinds(&tokens), vec![TokenType::Identifier, TokenType::Equal, TokenType::EOF]);
    assert_eq!(tokens[2], end_of_stream(3));
    assert_eq!(diagnostics, vec![Diagnostic::UnterminatedString(3)]);
}

#[test]
fn statement_end_to_end() {
    let (tokens, diagnostics) = scan("var add = 1 + 1;");
    assert_eq!(
        kinds(&tokens),
        vec![
            TokenType::Var,
            TokenType::Identifier,
            TokenType::Equal,
            TokenType::Number,
            TokenType::Plus,
            TokenType::Number,
            TokenType::SemiColon,
            TokenType::EOF,
        ]
    );
    assert_eq!(tokens[1].lexeme, "add");
    assert_eq!(value(&tokens[3]), 1.0);
    assert_eq!(value(&tokens[5]), 1.0);
    assert!(diagnostics.is_empty());
}

#[test]
fn punctuation_and_operators() {
    let (tokens, diagnostics) = scan("(){},.-+;*/ ! != = == < <= > >=");
    assert_eq!(
        kinds(&tokens),
        vec![
            TokenType::LeftParen,
            TokenType::RightParen,
            TokenType::LeftBrace,
            TokenType::RightBrace,
            TokenType::Comma,
            TokenType::Dot,
            TokenType::Minus,
            TokenType::Plus,
            TokenType::SemiColon,
            TokenType::Star,
            TokenType::Slash,
            TokenType::Bang,
            TokenType::BangEqual,
            TokenType::Equal,
            TokenType::EqualEqual,
            TokenType::Less,
            TokenType::LessEqual,
            TokenType::Greater,
            TokenType::GreaterEqual,
            TokenType::EOF,
        ]
    );
    assert_eq!(
        lexemes(&tokens),
        vec![
            "(", ")", "{", "}", ",", ".", "-", "+", ";", "*", "/", "!", "!=", "=", "==", "<",
            "<=", ">", ">=", "",
        ]
    );
    assert!(diagnostics.is_empty());
}

#[test]
fn operators_take_one_equal_sign_only() {
    let (tokens, _) = scan("===!==<==");
    assert_eq!(lexemes(&tokens), vec!["==", "=", "!=", "=", "<=", "=", ""]);
    let (tokens, _) = scan("!");
    assert_eq!(kinds(&tokens), vec![TokenType::Bang, TokenType::EOF]);
}

#[test]
fn block_comment_counts_its_newlines() {
    let (tokens, diagnostics) = scan("a /* one\ntwo\n*/ b");
    assert_eq!(lexemes(&tokens), vec!["a", "b", ""]);
    assert_eq!(lines(&tokens), vec![1, 3, 3]);
    assert!(diagnostics.is_empty());
}

#[test]
fn block_comment_closes_on_a_matched_pair_only() {
    let (tokens, _) = scan("/* * / ** */x");
    assert_eq!(lexemes(&tokens), vec!["x", ""]);

    let (tokens, _) = scan("/***/x");
    assert_eq!(lexemes(&tokens), vec!["x", ""]);

    let (tokens, _) = scan("/**/x/* y */z");
    assert_eq!(lexemes(&tokens), vec!["x", "z", ""]);

    // The slash of the opening pair does not close the comment.
    let (tokens, _) = scan("/*/ x");
    assert_eq!(lexemes(&tokens), vec![""]);
}

#[test]
fn open_block_comment_ends_silently() {
    let (tokens, diagnostics) = scan("a /* b\nc *");
    assert_eq!(tokens.len(), 2);
    assert_eq!(tokens[0].lexeme, "a");
    assert_eq!(tokens[1], end_of_stream(2));
    assert!(diagnostics.is_empty());
}

#[test]
fn unexpected_characters_are_reported_and_skipped() {
    let (tokens, diagnostics) = scan("a @ b\n# c $");
    assert_eq!(lexemes(&tokens), vec!["a", "b", "c", ""]);
    assert_eq!(lines(&tokens), vec![1, 1, 2, 2]);
    assert_eq!(
        diagnostics,
        vec![
            Diagnostic::UnexpectedCharacter(1),
            Diagnostic::UnexpectedCharacter(2),
            Diagnostic::UnexpectedCharacter(2),
        ]
    );
}

#[test]
fn characters_beyond_ascii() {
    // Outside strings and comments each such character is unexpected, once.
    let (tokens, diagnostics) = scan("x = é;");
    assert_eq!(lexemes(&tokens), vec!["x", "=", ";", ""]);
    assert_eq!(diagnostics, vec![Diagnostic::UnexpectedCharacter(1)]);

    // Inside strings and comments they are text like any other.
    let (tokens, diagnostics) = scan("\"héllo → wörld\" // ünïcödé\n/* 日本語 */ y");
    assert_eq!(lexemes(&tokens), vec!["\"héllo → wörld\"", "y", ""]);
    assert_eq!(tokens[0].literal, LiteralTypes::String("héllo → wörld".to_string()));
    assert_eq!(tokens[1].line, 2);
    assert!(diagnostics.is_empty());
}

#[test]
fn nul_in_the_text_is_an_unexpected_character() {
    let (tokens, diagnostics) = scan("a\0b 1\0");
    assert_eq!(lexemes(&tokens), vec!["a", "b", "1", ""]);
    assert_eq!(
        diagnostics,
        vec![Diagnostic::UnexpectedCharacter(1), Diagnostic::UnexpectedCharacter(1)]
    );
}

#[test]
fn errors_do_not_stop_the_scan() {
    let (tokens, diagnostics) = scan("var a = 1 ? 2;\nprint \"open");
    assert_eq!(lexemes(&tokens), vec!["var", "a", "=", "1", "2", ";", "print", ""]);
    assert_eq!(
        diagnostics,
        vec![Diagnostic::UnexpectedCharacter(1), Diagnostic::UnterminatedString(2)]
    );
    assert_eq!(tokens.last(), Some(&end_of_stream(2)));
}

#[test]
fn cursor_after_a_scan() {
    let source = "var a;\n\nprint a;\n";
    let mut scanner = Scanner::new(source.to_string());
    let tokens = scanner.scan_tokens();
    assert_eq!(scanner.source(), source);
    assert_eq!(scanner.current(), source.chars().count());
    assert_eq!(scanner.start(), source.chars().count() - 1);
    assert_eq!(scanner.line(), 4);
    assert_eq!(scanner.tokens(), &tokens);
    assert_eq!(tokens.last(), Some(&end_of_stream(4)));
    assert!(scanner.diagnostics().is_empty());
}

#[test]
fn a_second_scan_adds_an_end_of_stream_token() {
    let mut scanner = Scanner::new("a".to_string());
    let first = scanner.scan_tokens();
    let second = scanner.scan_tokens();
    assert_eq!(kinds(&first), vec![TokenType::Identifier, TokenType::EOF]);
    assert_eq!(kinds(&second), vec![TokenType::Identifier, TokenType::EOF, TokenType::EOF]);
    assert_eq!(scanner.current(), 1);
    assert_eq!(scanner.start(), 0);
}

#[test]
fn identifiers_take_letters_digits_and_underscores() {
    let (tokens, _) = scan("_ a1 _b2_ Caps9 x-y");
    assert_eq!(lexemes(&tokens), vec!["_", "a1", "_b2_", "Caps9", "x", "-", "y", ""]);
    assert_eq!(tokens[0].ttype, TokenType::Identifier);
    assert_eq!(tokens[3].ttype, TokenType::Identifier);
}

#[test]
fn token_new_keeps_its_parts() {
    let token = Token::new(
        TokenType::String,
        "\"s\"".to_string(),
        LiteralTypes::String("s".to_string()),
        7,
    );
    assert_eq!(token.ttype, TokenType::String);
    assert_eq!(token.lexeme, "\"s\"");
    assert_eq!(token.literal, LiteralTypes::String("s".to_string()));
    assert_eq!(token.line, 7);
    assert_eq!(token.clone(), token);
    assert_eq!(LiteralTypes::Bool(true).clone(), LiteralTypes::Bool(true));
    assert_ne!(LiteralTypes::Number("1".to_string()), LiteralTypes::String("1".to_string()));
}
