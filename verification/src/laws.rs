//! What holds of every scan, proved from the grammar.

use crate::error::DiagnosticView;
use crate::grammar::{
    alpha, blank, block_comment_end, char_is, closes_comment, diagnostics_from, diagnostics_of,
    digit, end_of_stream, keyword_kind, keyword_text, lemma_run_end, lemma_unit_advances,
    line_at, newlines_before, run_end, token_starts_from, tokens_from, tokens_of, unit_at,
    unit_tokens, Lexed, Run, Unit,
};
use crate::token::{LiteralView, TokenType, TokenView};
use vstd::prelude::*;

verus! {

/// Every token comes from one unit of the text, and the tokens stand in the order of their
/// units: the token sequence is as long as the sequence of the positions where tokens start;
/// each token but the last is what the unit at its position yields, so its lexeme is the
/// text between that position and the unit's end, and its line is the line in effect at the
/// unit's end; a unit ends before the next token starts; and the last token is the
/// end-of-stream token, which starts at the end of the text.
pub proof fn lemma_tokens_are_source_spans(src: Seq<char>, pos: int)
    requires
        0 <= pos <= src.len(),
    ensures
        tokens_from(src, pos).len() == token_starts_from(src, pos).len(),
        tokens_from(src, pos).len() >= 1,
        tokens_from(src, pos).last() == end_of_stream(src),
        token_starts_from(src, pos).last() == src.len(),
        forall|i: int|
            #![trigger tokens_from(src, pos)[i]]
            #![trigger token_starts_from(src, pos)[i]]
            0 <= i < tokens_from(src, pos).len() - 1 ==> {
                let start = token_starts_from(src, pos)[i];
                let token = tokens_from(src, pos)[i];
                &&& pos <= start < src.len()
                &&& unit_tokens(src, start) == seq![token]
                &&& token.lexeme == src.subrange(start, unit_at(src, start).end)
                &&& token.line == line_at(src, unit_at(src, start).end)
                &&& start < unit_at(src, start).end <= token_starts_from(src, pos)[i + 1]
            },
    decreases src.len() - pos,
{
    if pos < src.len() {
        let unit = unit_at(src, pos);
        lemma_unit_advances(src, pos);
        lemma_tokens_are_source_spans(src, unit.end);
        let rest = tokens_from(src, unit.end);
        let rest_starts = token_starts_from(src, unit.end);
        let tokens = tokens_from(src, pos);
        let starts = token_starts_from(src, pos);
        if unit.yields is Token {
            // The unit's token comes first; the others are those of the rest, one place on.
            assert(tokens == unit_tokens(src, pos) + rest);
            assert(starts == seq![pos] + rest_starts);
            assert forall|i: int| 0 <= i < tokens.len() - 1 implies {
                let start = #[trigger] starts[i];
                let token = #[trigger] tokens[i];
                &&& pos <= start < src.len()
                &&& unit_tokens(src, start) == seq![token]
                &&& token.lexeme == src.subrange(start, unit_at(src, start).end)
                &&& token.line == line_at(src, unit_at(src, start).end)
                &&& start < unit_at(src, start).end <= starts[i + 1]
            } by {
                if i > 0 {
                    assert(tokens[i] == rest[i - 1]);
                    assert(starts[i] == rest_starts[i - 1]);
                }
                assert(starts[i + 1] == rest_starts[i]);
            }
        } else {
            assert(tokens =~= rest);
            assert(starts =~= rest_starts);
        }
    }
}

/// A text of nothing but white space, from `pos` on, yields the end-of-stream token alone
/// and no diagnostic.
pub proof fn lemma_blank_rest(src: Seq<char>, pos: int)
    requires
        0 <= pos <= src.len(),
        forall|i: int| pos <= i < src.len() ==> blank(#[trigger] src[i]),
    ensures
        tokens_from(src, pos) == seq![end_of_stream(src)],
        diagnostics_from(src, pos) == Seq::<DiagnosticView>::empty(),
    decreases src.len() - pos,
{
    if pos < src.len() {
        lemma_blank_rest(src, pos + 1);
    }
}

/// A text that consists of white space only has exactly one token, the end-of-stream token,
/// whose line is one more than the number of newlines in the text; and it has no diagnostic.
pub proof fn lemma_blank_text(src: Seq<char>)
    requires
        forall|i: int| 0 <= i < src.len() ==> blank(#[trigger] src[i]),
    ensures
        tokens_of(src) == seq![
            TokenView {
                ttype: TokenType::EOF,
                lexeme: Seq::empty(),
                literal: LiteralView::Nil,
                line: 1 + newlines_before(src, src.len() as int),
            },
        ],
        diagnostics_of(src) == Seq::<DiagnosticView>::empty(),
{
    lemma_blank_rest(src, 0);
}

/// Makes the spelling of every reserved word known to the prover.
proof fn reveal_keywords()
    ensures
        "and"@ == seq!['a', 'n', 'd'],
        "class"@ == seq!['c', 'l', 'a', 's', 's'],
        "else"@ == seq!['e', 'l', 's', 'e'],
        "false"@ == seq!['f', 'a', 'l', 's', 'e'],
        "for"@ == seq!['f', 'o', 'r'],
        "fun"@ == seq!['f', 'u', 'n'],
        "if"@ == seq!['i', 'f'],
        "nil"@ == seq!['n', 'i', 'l'],
        "or"@ == seq!['o', 'r'],
        "print"@ == seq!['p', 'r', 'i', 'n', 't'],
        "return"@ == seq!['r', 'e', 't', 'u', 'r', 'n'],
        "super"@ == seq!['s', 'u', 'p', 'e', 'r'],
        "this"@ == seq!['t', 'h', 'i', 's'],
        "true"@ == seq!['t', 'r', 'u', 'e'],
        "var"@ == seq!['v', 'a', 'r'],
        "while"@ == seq!['w', 'h', 'i', 'l', 'e'],
{
    reveal_strlit("and");
    reveal_strlit("class");
    reveal_strlit("else");
    reveal_strlit("false");
    reveal_strlit("for");
    reveal_strlit("fun");
    reveal_strlit("if");
    reveal_strlit("nil");
    reveal_strlit("or");
    reveal_strlit("print");
    reveal_strlit("return");
    reveal_strlit("super");
    reveal_strlit("this");
    reveal_strlit("true");
    reveal_strlit("var");
    reveal_strlit("while");
}

/// The table of reserved words pairs each word with one kind and each kind with one word:
/// `text` spells the reserved word of kind `kind` exactly when the spelling of `kind` is
/// `text`.
pub proof fn lemma_keyword_table(text: Seq<char>, kind: TokenType)
    ensures
        keyword_kind(text) == Some(kind) <==> keyword_text(kind) == Some(text),
{
    reveal_keywords();
}

/// Reserved words are written in lower-case letters only, so a text with any other
/// character in it spells none.
pub proof fn lemma_keywords_are_lower_case(text: Seq<char>)
    requires
        keyword_kind(text) is Some,
    ensures
        forall|i: int| 0 <= i < text.len() ==> 'a' <= #[trigger] text[i] <= 'z',
{
    reveal_keywords();
}

/// The kind that a run of word characters gets: the reserved kind if it spells a reserved
/// word, the identifier kind otherwise.
pub open spec fn word_kind(text: Seq<char>) -> TokenType {
    match keyword_kind(text) {
        Some(kind) => kind,
        None => TokenType::Identifier,
    }
}

/// A unit that starts with a letter or an underscore yields one token: its lexeme is the
/// maximal run of word characters from there, its kind is the reserved kind if the run
/// spells a reserved word and the identifier kind otherwise, never both, and it has no
/// literal payload.
pub proof fn lemma_word_token(src: Seq<char>, start: int)
    requires
        0 <= start < src.len(),
        alpha(src[start]),
    ensures
        ({
            let end = run_end(src, start + 1, Run::Word);
            let text = src.subrange(start, end);
            &&& unit_at(src, start).end == end
            &&& unit_tokens(src, start) == seq![
                TokenView {
                    ttype: word_kind(text),
                    lexeme: text,
                    literal: LiteralView::Nil,
                    line: line_at(src, end),
                },
            ]
            &&& word_kind(text) == TokenType::Identifier <==> keyword_kind(text) is None
        }),
{
}

/// Identifier tokens and reserved-word tokens come from word units only: a unit that
/// yields a token of the identifier kind or of a reserved kind starts with a letter or an
/// underscore.
pub proof fn lemma_word_kinds(src: Seq<char>, start: int)
    requires
        0 <= start < src.len(),
    ensures
        match unit_at(src, start).yields {
            Lexed::Token(kind, _) => kind == TokenType::Identifier || keyword_text(kind) is Some
                ==> alpha(src[start]),
            _ => !alpha(src[start]),
        },
{
}

/// Reserved words and identifiers exclude each other in every scan: a token of the
/// identifier kind never spells a reserved word, and a token of a reserved kind spells
/// exactly the word of its kind.
pub proof fn lemma_keywords_are_exclusive(src: Seq<char>, pos: int)
    requires
        0 <= pos <= src.len(),
    ensures
        forall|i: int|
            0 <= i < tokens_from(src, pos).len() ==> {
                let token = #[trigger] tokens_from(src, pos)[i];
                &&& token.ttype == TokenType::Identifier ==> keyword_kind(token.lexeme) is None
                &&& keyword_text(token.ttype) is Some ==> keyword_text(token.ttype) == Some(
                    token.lexeme,
                )
            },
{
    lemma_tokens_are_source_spans(src, pos);
    let tokens = tokens_from(src, pos);
    assert forall|i: int| 0 <= i < tokens.len() implies {
        let token = #[trigger] tokens[i];
        &&& token.ttype == TokenType::Identifier ==> keyword_kind(token.lexeme) is None
        &&& keyword_text(token.ttype) is Some ==> keyword_text(token.ttype) == Some(token.lexeme)
    } by {
        if i < tokens.len() - 1 {
            let start = token_starts_from(src, pos)[i];
            assert(unit_tokens(src, start)[0] == tokens[i]);
            lemma_word_kinds(src, start);
            if alpha(src[start]) {
                lemma_word_token(src, start);
            }
        }
    }
}

/// An opening quote with no closing quote after it ends the scan: the unit runs to the end
/// of the text and yields no token and one diagnostic, so that what follows in the token
/// sequence is the end-of-stream token alone.
pub proof fn lemma_unterminated_string(src: Seq<char>, start: int)
    requires
        0 <= start < src.len(),
        src[start] == '"',
        forall|i: int| start < i < src.len() ==> #[trigger] src[i] != '"',
    ensures
        unit_at(src, start).end == src.len(),
        tokens_from(src, start) == seq![end_of_stream(src)],
        diagnostics_from(src, start) == seq![
            DiagnosticView::UnterminatedString(line_at(src, src.len() as int)),
        ],
{
    // The run of the string's body meets no quote, so it ends with the text.
    lemma_run_end(src, start + 1, Run::Quoted);
    assert(tokens_from(src, src.len() as int) == seq![end_of_stream(src)]);
    assert(diagnostics_from(src, src.len() as int) == Seq::<DiagnosticView>::empty());
}

/// A string literal that is closed yields one token: its lexeme runs from the opening quote
/// to the first quote after it, both included, and its payload is the text strictly between
/// the two, in which no quote occurs.
pub proof fn lemma_string_token(src: Seq<char>, start: int, close: int)
    requires
        0 <= start < close < src.len(),
        src[start] == '"',
        src[close] == '"',
        forall|i: int| start < i < close ==> #[trigger] src[i] != '"',
    ensures
        unit_at(src, start).end == close + 1,
        unit_tokens(src, start) == seq![
            TokenView {
                ttype: TokenType::String,
                lexeme: src.subrange(start, close + 1),
                literal: LiteralView::String(src.subrange(start + 1, close)),
                line: line_at(src, close + 1),
            },
        ],
        diagnostics_from(src, start) == diagnostics_from(src, close + 1),
{
    lemma_run_end(src, start + 1, Run::Quoted);
}

/// The shape of a numeral: digits, or digits, one dot and digits.
pub open spec fn numeral(text: Seq<char>) -> bool {
    ||| text.len() > 0 && forall|i: int| 0 <= i < text.len() ==> digit(#[trigger] text[i])
    ||| exists|dot: int|
        0 < dot < text.len() - 1 && #[trigger] text[dot] == '.' && forall|i: int|
            0 <= i < text.len() && i != dot ==> digit(#[trigger] text[i])
}

/// A unit that starts with a digit yields one token of the number kind: its lexeme has the
/// shape of a numeral, and its payload is the lexeme.
pub proof fn lemma_number_token(src: Seq<char>, start: int)
    requires
        0 <= start < src.len(),
        digit(src[start]),
    ensures
        ({
            let end = unit_at(src, start).end;
            let text = src.subrange(start, end);
            &&& numeral(text)
            &&& unit_tokens(src, start) == seq![
                TokenView {
                    ttype: TokenType::Number,
                    lexeme: text,
                    literal: LiteralView::Number(text),
                    line: line_at(src, end),
                },
            ]
        }),
{
    let whole = run_end(src, start + 1, Run::Digits);
    lemma_run_end(src, start + 1, Run::Digits);
    let end = unit_at(src, start).end;
    let text = src.subrange(start, end);
    if end == whole {
        assert forall|i: int| 0 <= i < text.len() implies digit(#[trigger] text[i]) by {
            assert(text[i] == src[start + i]);
        }
    } else {
        lemma_run_end(src, whole + 2, Run::Digits);
        let dot = whole - start;
        assert(text[dot] == '.');
        assert forall|i: int| 0 <= i < text.len() && i != dot implies digit(
            #[trigger] text[i],
        ) by {
            assert(text[i] == src[start + i]);
        }
    }
}

/// The end-of-stream token occurs once in every token sequence, as its last element.
pub proof fn lemma_one_end_of_stream(src: Seq<char>, pos: int)
    requires
        0 <= pos <= src.len(),
    ensures
        tokens_from(src, pos).last() == end_of_stream(src),
        forall|i: int|
            0 <= i < tokens_from(src, pos).len() - 1 ==> (#[trigger] tokens_from(
                src,
                pos,
            )[i]).ttype != TokenType::EOF,
{
    lemma_tokens_are_source_spans(src, pos);
    let tokens = tokens_from(src, pos);
    assert forall|i: int| 0 <= i < tokens.len() - 1 implies (#[trigger] tokens[i]).ttype
        != TokenType::EOF by {
        let start = token_starts_from(src, pos)[i];
        assert(unit_tokens(src, start)[0] == tokens[i]);
    }
}

/// A line comment runs up to, not including, the next newline, or to the end of the text
/// where no newline follows, and yields nothing.
pub proof fn lemma_line_comment(src: Seq<char>, start: int, end: int)
    requires
        char_is(src, start, '/'),
        char_is(src, start + 1, '/'),
        start + 2 <= end <= src.len(),
        forall|i: int| start + 2 <= i < end ==> #[trigger] src[i] != '\n',
        end < src.len() ==> src[end] == '\n',
    ensures
        unit_at(src, start) == (Unit { end, yields: Lexed::Nothing }),
{
    lemma_run_end(src, start + 2, Run::Line);
}

/// Where no `*/` occurs from `pos` up to `end`, a block comment whose body starts at `pos`
/// ends where one whose body starts at `end` does.
proof fn lemma_block_comment_skips(src: Seq<char>, pos: int, end: int)
    requires
        0 <= pos <= end <= src.len(),
        forall|i: int| pos <= i < end ==> !#[trigger] closes_comment(src, i),
    ensures
        block_comment_end(src, pos) == block_comment_end(src, end),
    decreases end - pos,
{
    if pos < end {
        lemma_block_comment_skips(src, pos + 1, end);
    }
}

/// A block comment runs from its `/*` to the end of the first `*/` that begins after the
/// `/*`, and yields nothing.
pub proof fn lemma_block_comment(src: Seq<char>, start: int, close: int)
    requires
        char_is(src, start, '/'),
        char_is(src, start + 1, '*'),
        start + 2 <= close,
        closes_comment(src, close),
        forall|i: int| start + 2 <= i < close ==> !#[trigger] closes_comment(src, i),
    ensures
        unit_at(src, start) == (Unit { end: close + 2, yields: Lexed::Nothing }),
{
    lemma_block_comment_skips(src, start + 2, close);
}

/// A block comment that is never closed runs to the end of the text and yields nothing,
/// not even a diagnostic.
pub proof fn lemma_open_block_comment(src: Seq<char>, start: int)
    requires
        char_is(src, start, '/'),
        char_is(src, start + 1, '*'),
        forall|i: int| start + 2 <= i < src.len() ==> !#[trigger] closes_comment(src, i),
    ensures
        unit_at(src, start) == (Unit { end: src.len() as int, yields: Lexed::Nothing }),
{
    lemma_block_comment_skips(src, start + 2, src.len() as int);
}

} // verus!
