//! The lexical grammar, stated as mathematics over a sequence of characters.
//!
//! A source text is cut into consecutive lexical units. Each unit starts where the previous
//! one ended, covers at least one character, and yields one token, one diagnostic, or nothing
//! (white space and comments). The token sequence of a text is what its units yield, in
//! order, followed by the end-of-stream token.

use crate::error::DiagnosticView;
use crate::token::{LiteralView, TokenType, TokenView};
use vstd::prelude::*;

verus! {

/// A decimal digit.
pub open spec fn digit(c: char) -> bool {
    '0' <= c && c <= '9'
}

/// An ASCII letter or an underscore.
pub open spec fn alpha(c: char) -> bool {
    ('a' <= c && c <= 'z') || ('A' <= c && c <= 'Z') || c == '_'
}

/// A character that may continue an identifier.
pub open spec fn alphanumeric(c: char) -> bool {
    alpha(c) || digit(c)
}

/// White space: it separates tokens and yields nothing.
pub open spec fn blank(c: char) -> bool {
    c == ' ' || c == '\r' || c == '\t' || c == '\n'
}

/// Number of newline characters among the first `pos` characters of `src`.
pub open spec fn newlines_before(src: Seq<char>, pos: int) -> int
    decreases pos,
{
    if pos <= 0 {
        0
    } else {
        newlines_before(src, pos - 1) + if src[pos - 1] == '\n' {
            1int
        } else {
            0int
        }
    }
}

/// The 1-based line number in effect once the first `pos` characters have been read.
pub open spec fn line_at(src: Seq<char>, pos: int) -> int {
    1 + newlines_before(src, pos)
}

/// The reserved word that `text` spells, if it spells one. The table is case-sensitive.
pub open spec fn keyword_kind(text: Seq<char>) -> Option<TokenType> {
    if text == "and"@ {
        Some(TokenType::And)
    } else if text == "class"@ {
        Some(TokenType::Class)
    } else if text == "else"@ {
        Some(TokenType::Else)
    } else if text == "false"@ {
        Some(TokenType::False)
    } else if text == "for"@ {
        Some(TokenType::For)
    } else if text == "fun"@ {
        Some(TokenType::Fun)
    } else if text == "if"@ {
        Some(TokenType::If)
    } else if text == "nil"@ {
        Some(TokenType::Nil)
    } else if text == "or"@ {
        Some(TokenType::Or)
    } else if text == "print"@ {
        Some(TokenType::Print)
    } else if text == "return"@ {
        Some(TokenType::Return)
    } else if text == "super"@ {
        Some(TokenType::Super)
    } else if text == "this"@ {
        Some(TokenType::This)
    } else if text == "true"@ {
        Some(TokenType::True)
    } else if text == "var"@ {
        Some(TokenType::Var)
    } else if text == "while"@ {
        Some(TokenType::While)
    } else {
        None
    }
}

/// The spelling of a reserved word, for the kinds that are reserved words.
pub open spec fn keyword_text(kind: TokenType) -> Option<Seq<char>> {
    match kind {
        TokenType::And => Some("and"@),
        TokenType::Class => Some("class"@),
        TokenType::Else => Some("else"@),
        TokenType::False => Some("false"@),
        TokenType::For => Some("for"@),
        TokenType::Fun => Some("fun"@),
        TokenType::If => Some("if"@),
        TokenType::Nil => Some("nil"@),
        TokenType::Or => Some("or"@),
        TokenType::Print => Some("print"@),
        TokenType::Return => Some("return"@),
        TokenType::Super => Some("super"@),
        TokenType::This => Some("this"@),
        TokenType::True => Some("true"@),
        TokenType::Var => Some("var"@),
        TokenType::While => Some("while"@),
        _ => None,
    }
}

/// The token kind of a character that is a token by itself.
pub open spec fn punctuation(c: char) -> Option<TokenType> {
    if c == '(' {
        Some(TokenType::LeftParen)
    } else if c == ')' {
        Some(TokenType::RightParen)
    } else if c == '{' {
        Some(TokenType::LeftBrace)
    } else if c == '}' {
        Some(TokenType::RightBrace)
    } else if c == ',' {
        Some(TokenType::Comma)
    } else if c == '.' {
        Some(TokenType::Dot)
    } else if c == '-' {
        Some(TokenType::Minus)
    } else if c == '+' {
        Some(TokenType::Plus)
    } else if c == ';' {
        Some(TokenType::SemiColon)
    } else if c == '*' {
        Some(TokenType::Star)
    } else {
        None
    }
}

/// For a character that is an operator alone and another operator when `=` follows it:
/// the two kinds, the one-character kind first.
pub open spec fn operator(c: char) -> Option<(TokenType, TokenType)> {
    if c == '!' {
        Some((TokenType::Bang, TokenType::BangEqual))
    } else if c == '=' {
        Some((TokenType::Equal, TokenType::EqualEqual))
    } else if c == '<' {
        Some((TokenType::Less, TokenType::LessEqual))
    } else if c == '>' {
        Some((TokenType::Greater, TokenType::GreaterEqual))
    } else {
        None
    }
}

/// Whether the character at `pos` exists and is `c`.
pub open spec fn char_is(src: Seq<char>, pos: int, c: char) -> bool {
    0 <= pos < src.len() && src[pos] == c
}

/// The character at `pos`, or NUL where the text has none.
pub open spec fn char_at(src: Seq<char>, pos: int) -> char {
    if 0 <= pos < src.len() {
        src[pos]
    } else {
        '\0'
    }
}

/// The kinds of maximal runs that the grammar consumes.
pub ghost enum Run {
    /// Decimal digits.
    Digits,
    /// Letters, digits and underscores.
    Word,
    /// Everything up to the next newline.
    Line,
    /// Everything up to the next double quote.
    Quoted,
}

/// Whether `c` continues a run of the given kind.
pub open spec fn continues(run: Run, c: char) -> bool {
    match run {
        Run::Digits => digit(c),
        Run::Word => alphanumeric(c),
        Run::Line => c != '\n',
        Run::Quoted => c != '"',
    }
}

/// Where the maximal run that starts at `pos` ends: the first position at or after `pos`
/// whose character does not continue the run, or the end of the text.
pub open spec fn run_end(src: Seq<char>, pos: int, run: Run) -> int
    decreases src.len() - pos,
{
    if 0 <= pos < src.len() && continues(run, src[pos]) {
        run_end(src, pos + 1, run)
    } else {
        pos
    }
}

/// Whether the two characters at `pos` close a block comment.
pub open spec fn closes_comment(src: Seq<char>, pos: int) -> bool {
    char_is(src, pos, '*') && char_is(src, pos + 1, '/')
}

/// Where a block comment whose body starts at `pos` ends: just after the first `*/` at or
/// after `pos`, or at the end of the text if there is none.
pub open spec fn block_comment_end(src: Seq<char>, pos: int) -> int
    decreases src.len() - pos,
{
    if 0 <= pos < src.len() {
        if closes_comment(src, pos) {
            pos + 2
        } else {
            block_comment_end(src, pos + 1)
        }
    } else {
        pos
    }
}

/// What one lexical unit yields.
pub ghost enum Lexed {
    /// A token of the given kind with the given literal payload.
    Token(TokenType, LiteralView),
    /// Nothing: white space or a comment.
    Nothing,
    /// A character that starts no token.
    UnexpectedCharacter,
    /// A string literal that the end of the text cuts short.
    UnterminatedString,
}

/// One lexical unit: where it ends and what it yields.
pub ghost struct Unit {
    pub end: int,
    pub yields: Lexed,
}

/// An operator that may be followed by `=`.
pub open spec fn operator_unit(src: Seq<char>, start: int, kinds: (TokenType, TokenType)) -> Unit {
    if char_is(src, start + 1, '=') {
        Unit { end: start + 2, yields: Lexed::Token(kinds.1, LiteralView::Nil) }
    } else {
        Unit { end: start + 1, yields: Lexed::Token(kinds.0, LiteralView::Nil) }
    }
}

/// A unit that starts with `/`: a line comment, a block comment or the division operator.
pub open spec fn slash_unit(src: Seq<char>, start: int) -> Unit {
    if char_is(src, start + 1, '/') {
        Unit { end: run_end(src, start + 2, Run::Line), yields: Lexed::Nothing }
    } else if char_is(src, start + 1, '*') {
        Unit { end: block_comment_end(src, start + 2), yields: Lexed::Nothing }
    } else {
        Unit { end: start + 1, yields: Lexed::Token(TokenType::Slash, LiteralView::Nil) }
    }
}

/// A unit that starts with a double quote. The payload of a string literal is the text
/// between the quotes, taken as it stands.
pub open spec fn string_unit(src: Seq<char>, start: int) -> Unit {
    let close = run_end(src, start + 1, Run::Quoted);
    if close < src.len() {
        Unit {
            end: close + 1,
            yields: Lexed::Token(
                TokenType::String,
                LiteralView::String(src.subrange(start + 1, close)),
            ),
        }
    } else {
        Unit { end: src.len() as int, yields: Lexed::UnterminatedString }
    }
}

/// Where the numeral that starts at `start` ends: after its digits, and after a dot and
/// further digits if a dot and a digit follow them.
pub open spec fn number_end(src: Seq<char>, start: int) -> int {
    let whole = run_end(src, start + 1, Run::Digits);
    if char_is(src, whole, '.') && whole + 1 < src.len() && digit(src[whole + 1]) {
        run_end(src, whole + 2, Run::Digits)
    } else {
        whole
    }
}

/// A unit that starts with a digit. The payload of a numeric literal is the numeral.
pub open spec fn number_unit(src: Seq<char>, start: int) -> Unit {
    let end = number_end(src, start);
    Unit {
        end,
        yields: Lexed::Token(TokenType::Number, LiteralView::Number(src.subrange(start, end))),
    }
}

/// A unit that starts with a letter or an underscore: a reserved word if the whole run
/// spells one, an identifier otherwise.
pub open spec fn word_unit(src: Seq<char>, start: int) -> Unit {
    let end = run_end(src, start + 1, Run::Word);
    let kind = match keyword_kind(src.subrange(start, end)) {
        Some(kind) => kind,
        None => TokenType::Identifier,
    };
    Unit { end, yields: Lexed::Token(kind, LiteralView::Nil) }
}

/// The lexical unit that starts at `start`.
pub open spec fn unit_at(src: Seq<char>, start: int) -> Unit
    recommends
        0 <= start < src.len(),
{
    let c = src[start];
    if punctuation(c) is Some {
        Unit { end: start + 1, yields: Lexed::Token(punctuation(c)->0, LiteralView::Nil) }
    } else if operator(c) is Some {
        operator_unit(src, start, operator(c)->0)
    } else if c == '/' {
        slash_unit(src, start)
    } else if blank(c) {
        Unit { end: start + 1, yields: Lexed::Nothing }
    } else if c == '"' {
        string_unit(src, start)
    } else if digit(c) {
        number_unit(src, start)
    } else if alpha(c) {
        word_unit(src, start)
    } else {
        Unit { end: start + 1, yields: Lexed::UnexpectedCharacter }
    }
}

/// The tokens that a unit from `start` yields: one or none. A token's lexeme is the text of
/// its unit, and its line is the line in effect where the unit ends.
pub open spec fn yielded_tokens(src: Seq<char>, start: int, unit: Unit) -> Seq<TokenView> {
    match unit.yields {
        Lexed::Token(ttype, literal) => seq![
            TokenView {
                ttype,
                lexeme: src.subrange(start, unit.end),
                literal,
                line: line_at(src, unit.end),
            },
        ],
        _ => Seq::empty(),
    }
}

/// The diagnostics that a unit yields: one or none, with the line in effect where the unit
/// ends.
pub open spec fn yielded_diagnostics(src: Seq<char>, unit: Unit) -> Seq<DiagnosticView> {
    match unit.yields {
        Lexed::UnexpectedCharacter => seq![
            DiagnosticView::UnexpectedCharacter(line_at(src, unit.end)),
        ],
        Lexed::UnterminatedString => seq![
            DiagnosticView::UnterminatedString(line_at(src, unit.end)),
        ],
        _ => Seq::empty(),
    }
}

/// The tokens that the unit at `start` yields.
pub open spec fn unit_tokens(src: Seq<char>, start: int) -> Seq<TokenView> {
    yielded_tokens(src, start, unit_at(src, start))
}

/// The diagnostics that the unit at `start` yields.
pub open spec fn unit_diagnostics(src: Seq<char>, start: int) -> Seq<DiagnosticView> {
    yielded_diagnostics(src, unit_at(src, start))
}

/// The token that ends every token sequence.
pub open spec fn end_of_stream(src: Seq<char>) -> TokenView {
    TokenView {
        ttype: TokenType::EOF,
        lexeme: Seq::empty(),
        literal: LiteralView::Nil,
        line: line_at(src, src.len() as int),
    }
}

/// There are at most as many newlines before a position as there are characters.
pub proof fn lemma_newlines_bound(src: Seq<char>, pos: int)
    requires
        0 <= pos,
    ensures
        0 <= newlines_before(src, pos) <= pos,
    decreases pos,
{
    if pos > 0 {
        lemma_newlines_bound(src, pos - 1);
    }
}

/// Reading one more character adds one to the count if it is a newline, and nothing if not.
pub proof fn lemma_newlines_step(src: Seq<char>, pos: int)
    requires
        0 <= pos,
    ensures
        newlines_before(src, pos + 1) == newlines_before(src, pos) + if src[pos] == '\n' {
            1int
        } else {
            0int
        },
{
}

/// Bounds of a run: it ends at or after its start and within the text, every character in
/// it continues the run, and the character after it, if any, does not.
pub proof fn lemma_run_end(src: Seq<char>, pos: int, run: Run)
    requires
        0 <= pos <= src.len(),
    ensures
        pos <= run_end(src, pos, run) <= src.len(),
        forall|i: int| pos <= i < run_end(src, pos, run) ==> continues(run, #[trigger] src[i]),
        run_end(src, pos, run) < src.len() ==> !continues(run, src[run_end(src, pos, run)]),
    decreases src.len() - pos,
{
    if pos < src.len() && continues(run, src[pos]) {
        lemma_run_end(src, pos + 1, run);
    }
}

/// Bounds of a block comment: it ends at or after the start of its body and within the text.
pub proof fn lemma_block_comment_end(src: Seq<char>, pos: int)
    requires
        0 <= pos <= src.len(),
    ensures
        pos <= block_comment_end(src, pos) <= src.len(),
    decreases src.len() - pos,
{
    if pos < src.len() && !closes_comment(src, pos) {
        lemma_block_comment_end(src, pos + 1);
    }
}

/// Every unit covers at least one character and stays within the text.
pub proof fn lemma_unit_advances(src: Seq<char>, start: int)
    requires
        0 <= start < src.len(),
    ensures
        start < unit_at(src, start).end <= src.len(),
{
    lemma_run_end(src, start + 1, Run::Digits);
    lemma_run_end(src, start + 1, Run::Word);
    lemma_run_end(src, start + 1, Run::Quoted);
    let whole = run_end(src, start + 1, Run::Digits);
    if whole + 2 <= src.len() {
        lemma_run_end(src, whole + 2, Run::Digits);
    }
    if start + 2 <= src.len() {
        lemma_run_end(src, start + 2, Run::Line);
        lemma_block_comment_end(src, start + 2);
    }
}

/// The tokens of the text from `pos` on: what the units yield, then the end-of-stream token.
pub open spec fn tokens_from(src: Seq<char>, pos: int) -> Seq<TokenView>
    decreases src.len() - pos,
    via tokens_from_decreases
{
    if 0 <= pos < src.len() {
        unit_tokens(src, pos) + tokens_from(src, unit_at(src, pos).end)
    } else {
        seq![end_of_stream(src)]
    }
}

#[via_fn]
proof fn tokens_from_decreases(src: Seq<char>, pos: int) {
    if 0 <= pos < src.len() {
        lemma_unit_advances(src, pos);
    }
}

/// Where the tokens of the text from `pos` on start, in order. The end-of-stream token counts
/// as starting at the end of the text.
pub open spec fn token_starts_from(src: Seq<char>, pos: int) -> Seq<int>
    decreases src.len() - pos,
    via token_starts_from_decreases
{
    if 0 <= pos < src.len() {
        let here = if unit_at(src, pos).yields is Token {
            seq![pos]
        } else {
            Seq::empty()
        };
        here + token_starts_from(src, unit_at(src, pos).end)
    } else {
        seq![src.len() as int]
    }
}

#[via_fn]
proof fn token_starts_from_decreases(src: Seq<char>, pos: int) {
    if 0 <= pos < src.len() {
        lemma_unit_advances(src, pos);
    }
}

/// The diagnostics of the text from `pos` on, in the order in which they arise.
pub open spec fn diagnostics_from(src: Seq<char>, pos: int) -> Seq<DiagnosticView>
    decreases src.len() - pos,
    via diagnostics_from_decreases
{
    if 0 <= pos < src.len() {
        unit_diagnostics(src, pos) + diagnostics_from(src, unit_at(src, pos).end)
    } else {
        Seq::empty()
    }
}

#[via_fn]
proof fn diagnostics_from_decreases(src: Seq<char>, pos: int) {
    if 0 <= pos < src.len() {
        lemma_unit_advances(src, pos);
    }
}

/// Where the last unit of the text from `pos` on starts, or `start` if there is no unit
/// from `pos` on.
pub open spec fn last_unit_start(src: Seq<char>, pos: int, start: int) -> int
    decreases src.len() - pos,
    via last_unit_start_decreases
{
    if 0 <= pos < src.len() {
        last_unit_start(src, unit_at(src, pos).end, pos)
    } else {
        start
    }
}

#[via_fn]
proof fn last_unit_start_decreases(src: Seq<char>, pos: int, start: int) {
    if 0 <= pos < src.len() {
        lemma_unit_advances(src, pos);
    }
}

/// The tokens of a whole text.
pub open spec fn tokens_of(src: Seq<char>) -> Seq<TokenView> {
    tokens_from(src, 0)
}

/// The diagnostics of a whole text.
pub open spec fn diagnostics_of(src: Seq<char>) -> Seq<DiagnosticView> {
    diagnostics_from(src, 0)
}

} // verus!
