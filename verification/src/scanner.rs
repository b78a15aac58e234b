//! The scanner: one pass over a source text that yields its tokens and diagnostics.

use crate::error::{Diagnostic, DiagnosticView};
use crate::grammar::{
    alpha, alphanumeric, block_comment_end, char_at, char_is, diagnostics_from, digit,
    keyword_kind, last_unit_start, lemma_newlines_bound, lemma_newlines_step,
    lemma_unit_advances, line_at, newlines_before, number_unit, run_end, string_unit,
    tokens_from, unit_at, word_unit, yielded_diagnostics, yielded_tokens, Run, Unit,
};
use crate::text::{collect, decode, spells};
use crate::token::{LiteralTypes, Token, TokenType, TokenView};
use vstd::prelude::*;

verus! {

/// Cursor over one source text, with the tokens and diagnostics found so far.
///
/// A scanner is made for one text, scanned once and discarded.
#[derive(Debug, PartialEq)]
pub struct Scanner {
    /// The characters of the source text, followed by one NUL. The NUL is what the cursor
    /// reads at the end of the text; it also makes every line number, which is at most one
    /// more than the number of characters, fit the machine word.
    source: Vec<char>,
    tokens: Vec<Token>,
    diagnostics: Vec<Diagnostic>,
    /// Where the unit being scanned starts.
    start: usize,
    /// The next unread position.
    current: usize,
    /// The line in effect at `current`.
    line: usize,
}

/// Mathematical model of a [`Scanner`].
pub ghost struct ScannerView {
    pub source: Seq<char>,
    pub tokens: Seq<TokenView>,
    pub diagnostics: Seq<DiagnosticView>,
    pub start: int,
    pub current: int,
    pub line: int,
}

impl View for Scanner {
    type V = ScannerView;

    closed spec fn view(&self) -> ScannerView {
        ScannerView {
            source: self.source@.drop_last(),
            tokens: self.tokens.deep_view(),
            diagnostics: self.diagnostics.deep_view(),
            start: self.start as int,
            current: self.current as int,
            line: self.line as int,
        }
    }
}

impl Scanner {
    /// What holds of the cursor at every moment of a scan.
    spec fn cursor_ok(&self) -> bool {
        &&& 0 < self.source@.len() <= usize::MAX
        &&& self.source@.last() == '\0'
        &&& self.start <= self.current < self.source@.len()
    }

    /// Well-formedness: the cursor lies within the text, the start of the current unit is not
    /// after it, and the line counter is one more than the number of newlines read.
    pub closed spec fn wf(&self) -> bool {
        &&& self.cursor_ok()
        &&& self.line == line_at(self@.source, self.current as int)
    }

    /// A scanner at the start of `source`, on line 1, with nothing found yet.
    pub fn new(source: String) -> (scanner: Self)
        ensures
            scanner.wf(),
            scanner@ == (ScannerView {
                source: source@,
                tokens: Seq::empty(),
                diagnostics: Seq::empty(),
                start: 0,
                current: 0,
                line: 1,
            }),
    {
        let mut buffer = decode(source.as_str());
        buffer.push('\0');
        assert(buffer@.len() == buffer.len());
        let scanner = Self {
            source: buffer,
            tokens: Vec::new(),
            diagnostics: Vec::new(),
            start: 0,
            current: 0,
            line: 1,
        };
        assert(scanner@.source =~= source@);
        assert(scanner@.tokens =~= Seq::empty());
        assert(scanner@.diagnostics =~= Seq::empty());
        scanner
    }

    /// The source text.
    pub fn source(&self) -> (text: String)
        requires
            self.wf(),
        ensures
            text@ == self@.source,
    {
        let text = collect(&self.source, 0, self.source.len() - 1);
        text
    }

    /// The tokens found so far.
    pub fn tokens(&self) -> (tokens: &Vec<Token>)
        ensures
            tokens.deep_view() == self@.tokens,
    {
        &self.tokens
    }

    /// The diagnostics recorded so far, in the order in which they arose.
    pub fn diagnostics(&self) -> (diagnostics: &Vec<Diagnostic>)
        ensures
            diagnostics.deep_view() == self@.diagnostics,
    {
        &self.diagnostics
    }

    /// Where the unit scanned last starts.
    pub fn start(&self) -> (start: usize)
        ensures
            start == self@.start,
    {
        self.start
    }

    /// The next unread position.
    pub fn current(&self) -> (current: usize)
        ensures
            current == self@.current,
    {
        self.current
    }

    /// The line in effect at the cursor; lines are counted from 1.
    pub fn line(&self) -> (line: usize)
        ensures
            line == self@.line,
    {
        self.line
    }

    fn is_at_end(&self) -> (at_end: bool)
        requires
            self.cursor_ok(),
        ensures
            at_end == (self.current >= self@.source.len()),
    {
        self.current >= self.source.len() - 1
    }

    fn peek(&self) -> (c: char)
        requires
            self.cursor_ok(),
        ensures
            c == char_at(self@.source, self.current as int),
    {
        self.source[self.current]
    }

    fn peek_next(&self) -> (c: char)
        requires
            self.cursor_ok(),
        ensures
            c == char_at(self@.source, self.current + 1),
    {
        if self.is_at_end() {
            '\0'
        } else {
            self.source[self.current + 1]
        }
    }

    fn advance(&mut self) -> (c: char)
        requires
            old(self).cursor_ok(),
            old(self).current < old(self)@.source.len(),
        ensures
            c == old(self)@.source[old(self).current as int],
            *final(self) == (Scanner { current: (old(self).current + 1) as usize, ..*old(self) }),
            final(self).cursor_ok(),
    {
        let c = self.source[self.current];
        self.current += 1;
        c
    }

    fn match_char(&mut self, expected: char) -> (matched: bool)
        requires
            old(self).cursor_ok(),
        ensures
            matched == char_is(old(self)@.source, old(self).current as int, expected),
            matched ==> *final(self) == (Scanner {
                current: (old(self).current + 1) as usize,
                ..*old(self)
            }),
            !matched ==> *final(self) == *old(self),
            final(self).cursor_ok(),
    {
        if self.is_at_end() {
            return false;
        }
        if self.source[self.current] != expected {
            return false;
        }
        self.current += 1;
        true
    }

    /// What a finished unit leaves behind: the cursor at the unit's end, the line counter
    /// in step with it, and what the unit yields appended to what was found before.
    spec fn scanned(self, before: Scanner, unit: Unit) -> bool {
        &&& self.wf()
        &&& self.source == before.source
        &&& self.start == before.start
        &&& self.current == unit.end
        &&& self.tokens.deep_view() == before.tokens.deep_view() + yielded_tokens(
            before@.source,
            before.start as int,
            unit,
        )
        &&& self.diagnostics.deep_view() == before.diagnostics.deep_view() + yielded_diagnostics(
            before@.source,
            unit,
        )
    }

    fn add_token(&mut self, ttype: TokenType, literal: LiteralTypes)
        requires
            old(self).cursor_ok(),
        ensures
            *final(self) == (Scanner { tokens: final(self).tokens, ..*old(self) }),
            final(self).tokens.deep_view() == old(self).tokens.deep_view().push(
                TokenView {
                    ttype,
                    lexeme: old(self)@.source.subrange(
                        old(self).start as int,
                        old(self).current as int,
                    ),
                    literal: literal@,
                    line: old(self).line as int,
                },
            ),
    {
        let text = collect(&self.source, self.start, self.current);
        proof {
            assert(text@ =~= old(self)@.source.subrange(
                old(self).start as int,
                old(self).current as int,
            ));
        }
        self.tokens.push(Token::new(ttype, text, literal, self.line));
    }

    fn add_diagnostic(&mut self, diagnostic: Diagnostic)
        ensures
            *final(self) == (Scanner { diagnostics: final(self).diagnostics, ..*old(self) }),
            final(self).diagnostics.deep_view() == old(self).diagnostics.deep_view().push(
                diagnostic@,
            ),
    {
        self.diagnostics.push(diagnostic);
    }

    /// Scans the whole text from the cursor on and returns every token found so far, the
    /// end-of-stream token last. Lexical errors do not stop the scan: each is recorded as a
    /// diagnostic, and the scan goes on behind it.
    pub fn scan_tokens(&mut self) -> (tokens: Vec<Token>)
        requires
            old(self).wf(),
        ensures
            final(self).wf(),
            final(self)@.source == old(self)@.source,
            final(self)@.current == old(self)@.source.len(),
            final(self)@.start == last_unit_start(
                old(self)@.source,
                old(self)@.current,
                old(self)@.start,
            ),
            final(self)@.line == line_at(old(self)@.source, old(self)@.source.len() as int),
            final(self)@.tokens == old(self)@.tokens + tokens_from(
                old(self)@.source,
                old(self)@.current,
            ),
            final(self)@.diagnostics == old(self)@.diagnostics + diagnostics_from(
                old(self)@.source,
                old(self)@.current,
            ),
            tokens.deep_view() == final(self)@.tokens,
    {
        let ghost src = self@.source;
        let ghost from = self.current as int;
        while !self.is_at_end()
            invariant
                self.wf(),
                self.source == old(self).source,
                src == self@.source,
                from <= self.current,
                last_unit_start(src, self.current as int, self.start as int) == last_unit_start(
                    src,
                    from,
                    old(self).start as int,
                ),
                self.tokens.deep_view() + tokens_from(src, self.current as int) == old(
                    self,
                ).tokens.deep_view() + tokens_from(src, from),
                self.diagnostics.deep_view() + diagnostics_from(src, self.current as int) == old(
                    self,
                ).diagnostics.deep_view() + diagnostics_from(src, from),
            decreases src.len() - self.current,
        {
            let ghost found = self.tokens.deep_view();
            let ghost reported = self.diagnostics.deep_view();
            let ghost begin = self.current as int;
            self.start = self.current;
            self.scan_token();
            proof {
                // What the unit yields is the head of what the text yields from `begin` on.
                let unit = unit_at(src, begin);
                lemma_unit_advances(src, begin);
                assert((found + yielded_tokens(src, begin, unit)) + tokens_from(src, unit.end)
                    =~= found + tokens_from(src, begin));
                assert((reported + yielded_diagnostics(src, unit)) + diagnostics_from(
                    src,
                    unit.end,
                ) =~= reported + diagnostics_from(src, begin));
            }
        }

        self.tokens.push(Token::new(TokenType::EOF, String::new(), LiteralTypes::Nil, self.line));

        self.tokens.clone()
    }

    fn scan_token(&mut self)
        requires
            old(self).wf(),
            old(self).start == old(self).current,
            old(self).current < old(self)@.source.len(),
        ensures
            final(self).scanned(*old(self), unit_at(old(self)@.source, old(self).start as int)),
    {
        let ghost src = self@.source;
        let ghost begin = self.start as int;
        let c = self.advance();
        proof {
            lemma_newlines_bound(src, begin);
            lemma_newlines_step(src, begin + 1);
        }

        match c {
            '(' => self.add_token(TokenType::LeftParen, LiteralTypes::Nil),
            ')' => self.add_token(TokenType::RightParen, LiteralTypes::Nil),
            '{' => self.add_token(TokenType::LeftBrace, LiteralTypes::Nil),
            '}' => self.add_token(TokenType::RightBrace, LiteralTypes::Nil),
            ',' => self.add_token(TokenType::Comma, LiteralTypes::Nil),
            '.' => self.add_token(TokenType::Dot, LiteralTypes::Nil),
            '-' => self.add_token(TokenType::Minus, LiteralTypes::Nil),
            '+' => self.add_token(TokenType::Plus, LiteralTypes::Nil),
            ';' => self.add_token(TokenType::SemiColon, LiteralTypes::Nil),
            '*' => self.add_token(TokenType::Star, LiteralTypes::Nil),
            '!' => {
                let is_equal = if self.match_char('=') {
                    TokenType::BangEqual
                } else {
                    TokenType::Bang
                };
                self.add_token(is_equal, LiteralTypes::Nil);
            },
            '=' => {
                let is_equal = if self.match_char('=') {
                    TokenType::EqualEqual
                } else {
                    TokenType::Equal
                };
                self.add_token(is_equal, LiteralTypes::Nil);
            },
            '<' => {
                let is_equal = if self.match_char('=') {
                    TokenType::LessEqual
                } else {
                    TokenType::Less
                };
                self.add_token(is_equal, LiteralTypes::Nil);
            },
            '>' => {
                let is_equal = if self.match_char('=') {
                    TokenType::GreaterEqual
                } else {
                    TokenType::Greater
                };
                self.add_token(is_equal, LiteralTypes::Nil);
            },
            '/' => {
                if self.match_char('/') {
                    while self.peek() != '\n' && !self.is_at_end()
                        invariant
                            self.wf(),
                            *self == (Scanner { current: self.current, ..*old(self) }),
                            src == self@.source,
                            begin + 2 <= self.current,
                            run_end(src, self.current as int, Run::Line) == run_end(
                                src,
                                begin + 2,
                                Run::Line,
                            ),
                        decreases src.len() - self.current,
                    {
                        self.advance();
                    }
                } else if self.match_char('*') {
                    self.scan_block_comment();
                } else {
                    self.add_token(TokenType::Slash, LiteralTypes::Nil);
                }
            },
            // Ignore whitespace
            ' ' | '\r' | '\t' => {},
            '\n' => self.line += 1,
            '"' => self.string(),
            _ => {
                if Self::is_digit(c) {
                    self.number();
                } else if Self::is_alpha(c) {
                    self.identifier();
                } else {
                    self.add_diagnostic(Diagnostic::UnexpectedCharacter(self.line));
                }
            },
        }
        proof {
            let unit = unit_at(src, begin);
            assert(self.tokens.deep_view() =~= old(self).tokens.deep_view() + yielded_tokens(
                src,
                begin,
                unit,
            ));
            assert(self.diagnostics.deep_view() =~= old(self).diagnostics.deep_view()
                + yielded_diagnostics(src, unit));
        }
    }

    /// Reads on while the next character is a digit.
    fn digits(&mut self)
        requires
            old(self).wf(),
        ensures
            final(self).wf(),
            *final(self) == (Scanner { current: final(self).current, ..*old(self) }),
            final(self).current == run_end(
                old(self)@.source,
                old(self).current as int,
                Run::Digits,
            ),
    {
        let ghost src = self@.source;
        let ghost from = self.current as int;
        while Self::is_digit(self.peek())
            invariant
                self.wf(),
                *self == (Scanner { current: self.current, ..*old(self) }),
                src == self@.source,
                from <= self.current,
                run_end(src, self.current as int, Run::Digits) == run_end(src, from, Run::Digits),
            decreases src.len() - self.current,
        {
            self.advance();
        }
    }

    fn string(&mut self)
        requires
            old(self).wf(),
            old(self).current == old(self).start + 1,
            old(self)@.source[old(self).start as int] == '"',
        ensures
            final(self).scanned(
                *old(self),
                string_unit(old(self)@.source, old(self).start as int),
            ),
    {
        let ghost src = self@.source;
        let ghost from = self.current as int;
        while self.peek() != '"' && !self.is_at_end()
            invariant
                self.wf(),
                *self == (Scanner { current: self.current, line: self.line, ..*old(self) }),
                src == self@.source,
                from <= self.current,
                run_end(src, self.current as int, Run::Quoted) == run_end(src, from, Run::Quoted),
            decreases src.len() - self.current,
        {
            if self.peek() == '\n' {
                proof {
                    lemma_newlines_bound(src, self.current as int);
                }
                self.line += 1;
            }
            self.advance();
        }

        if self.is_at_end() {
            self.add_diagnostic(Diagnostic::UnterminatedString(self.line));
            proof {
                let unit = string_unit(src, old(self).start as int);
                assert(self.diagnostics.deep_view() =~= old(self).diagnostics.deep_view()
                    + yielded_diagnostics(src, unit));
            }
            return ;
        }
        self.advance();

        let value = collect(&self.source, self.start + 1, self.current - 1);
        proof {
            assert(value@ =~= src.subrange(old(self).start + 1, self.current - 1));
        }
        self.add_token(TokenType::String, LiteralTypes::String(value));
        proof {
            let unit = string_unit(src, old(self).start as int);
            assert(self.tokens.deep_view() =~= old(self).tokens.deep_view() + yielded_tokens(
                src,
                old(self).start as int,
                unit,
            ));
        }
    }

    fn number(&mut self)
        requires
            old(self).wf(),
            old(self).current == old(self).start + 1,
            digit(old(self)@.source[old(self).start as int]),
        ensures
            final(self).scanned(
                *old(self),
                number_unit(old(self)@.source, old(self).start as int),
            ),
    {
        let ghost src = self@.source;
        self.digits();

        if self.peek() == '.' && Self::is_digit(self.peek_next()) {
            self.advance();
            self.digits();
        }
        let value = collect(&self.source, self.start, self.current);
        proof {
            assert(value@ =~= src.subrange(old(self).start as int, self.current as int));
        }
        self.add_token(TokenType::Number, LiteralTypes::Number(value));
        proof {
            let unit = number_unit(src, old(self).start as int);
            assert(self.tokens.deep_view() =~= old(self).tokens.deep_view() + yielded_tokens(
                src,
                old(self).start as int,
                unit,
            ));
        }
    }

    fn identifier(&mut self)
        requires
            old(self).wf(),
            old(self).current == old(self).start + 1,
            alpha(old(self)@.source[old(self).start as int]),
        ensures
            final(self).scanned(*old(self), word_unit(old(self)@.source, old(self).start as int)),
    {
        let ghost src = self@.source;
        while Self::is_alphanumeric(self.peek())
            invariant
                self.wf(),
                *self == (Scanner { current: self.current, ..*old(self) }),
                src == self@.source,
                old(self).current <= self.current,
                run_end(src, self.current as int, Run::Word) == run_end(
                    src,
                    old(self).current as int,
                    Run::Word,
                ),
            decreases src.len() - self.current,
        {
            self.advance();
        }

        proof {
            assert(self.source@.subrange(self.start as int, self.current as int) =~= src.subrange(
                self.start as int,
                self.current as int,
            ));
        }
        let token_type = match keyword_in(&self.source, self.start, self.current) {
            Some(kind) => kind,
            None => TokenType::Identifier,
        };
        self.add_token(token_type, LiteralTypes::Nil);
        proof {
            let unit = word_unit(src, old(self).start as int);
            assert(self.tokens.deep_view() =~= old(self).tokens.deep_view() + yielded_tokens(
                src,
                old(self).start as int,
                unit,
            ));
        }
    }

    fn scan_block_comment(&mut self)
        requires
            old(self).wf(),
        ensures
            final(self).wf(),
            *final(self) == (Scanner {
                current: final(self).current,
                line: final(self).line,
                ..*old(self)
            }),
            final(self).current == block_comment_end(
                old(self)@.source,
                old(self).current as int,
            ),
    {
        let ghost src = self@.source;
        let ghost from = self.current as int;
        while !self.is_at_end()
            invariant
                self.wf(),
                *self == (Scanner { current: self.current, line: self.line, ..*old(self) }),
                src == self@.source,
                from == old(self).current,
                from <= self.current,
                block_comment_end(src, self.current as int) == block_comment_end(src, from),
            decreases src.len() - self.current,
        {
            let c = self.peek();
            if c == '*' && self.peek_next() == '/' {
                proof {
                    assert(newlines_before(src, self.current + 2) == newlines_before(
                        src,
                        self.current + 1,
                    ));
                }
                self.advance();
                self.advance();
                return ;
            }
            if c == '\n' {
                proof {
                    lemma_newlines_bound(src, self.current as int);
                }
                self.line += 1;
            }
            self.advance();
        }
    }

    fn is_digit(c: char) -> (r: bool)
        ensures
            r == digit(c),
    {
        c >= '0' && c <= '9'
    }

    fn is_alpha(c: char) -> (r: bool)
        ensures
            r == alpha(c),
    {
        (c >= 'a' && c <= 'z') || (c >= 'A' && c <= 'Z') || c == '_'
    }

    fn is_alphanumeric(c: char) -> (r: bool)
        ensures
            r == alphanumeric(c),
    {
        Self::is_alpha(c) || Self::is_digit(c)
    }
}

/// The reserved word that the characters of `chars` from `from` to `to` spell, if any.
fn keyword_in(chars: &Vec<char>, from: usize, to: usize) -> (kind: Option<TokenType>)
    requires
        from <= to <= chars.len(),
    ensures
        kind == keyword_kind(chars@.subrange(from as int, to as int)),
{
    if spells(chars, from, to, "and") {
        Some(TokenType::And)
    } else if spells(chars, from, to, "class") {
        Some(TokenType::Class)
    } else if spells(chars, from, to, "else") {
        Some(TokenType::Else)
    } else if spells(chars, from, to, "false") {
        Some(TokenType::False)
    } else if spells(chars, from, to, "for") {
        Some(TokenType::For)
    } else if spells(chars, from, to, "fun") {
        Some(TokenType::Fun)
    } else if spells(chars, from, to, "if") {
        Some(TokenType::If)
    } else if spells(chars, from, to, "nil") {
        Some(TokenType::Nil)
    } else if spells(chars, from, to, "or") {
        Some(TokenType::Or)
    } else if spells(chars, from, to, "print") {
        Some(TokenType::Print)
    } else if spells(chars, from, to, "return") {
        Some(TokenType::Return)
    } else if spells(chars, from, to, "super") {
        Some(TokenType::Super)
    } else if spells(chars, from, to, "this") {
        Some(TokenType::This)
    } else if spells(chars, from, to, "true") {
        Some(TokenType::True)
    } else if spells(chars, from, to, "var") {
        Some(TokenType::Var)
    } else if spells(chars, from, to, "while") {
        Some(TokenType::While)
    } else {
        None
    }
}

/// The reserved word that `keyword` spells, if it spells one; the match is case-sensitive.
pub fn map_keyword(keyword: &str) -> (kind: Option<TokenType>)
    ensures
        kind == keyword_kind(keyword@),
{
    let chars = decode(keyword);
    proof {
        assert(chars@.subrange(0, chars@.len() as int) =~= keyword@);
    }
    keyword_in(&chars, 0, chars.len())
}

} // verus!
