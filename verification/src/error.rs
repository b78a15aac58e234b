//! Diagnostics of the scanner and the text in which they are reported.

use crate::text::{decimal, push_decimal};
use vstd::prelude::*;
use vstd::string::StringExecFns;

verus! {

/// An error that ends a run of the interpreter.
#[derive(Debug, PartialEq)]
pub enum Error {
    /// The run cannot go on; the message says why.
    Runtime(String),
}

impl Error {
    /// The message of the error.
    pub open spec fn message(self) -> Seq<char> {
        match self {
            Error::Runtime(message) => message@,
        }
    }
}

/// A recoverable lexical error, with the line on which it was found.
#[derive(Debug, Clone, Copy, PartialEq, Eq, Structural)]
pub enum Diagnostic {
    /// A character that starts no token.
    UnexpectedCharacter(usize),
    /// A string literal whose closing quote is missing.
    UnterminatedString(usize),
}

/// Mathematical model of a [`Diagnostic`].
pub ghost enum DiagnosticView {
    UnexpectedCharacter(int),
    UnterminatedString(int),
}

impl View for Diagnostic {
    type V = DiagnosticView;

    open spec fn view(&self) -> DiagnosticView {
        match self {
            Diagnostic::UnexpectedCharacter(line) => DiagnosticView::UnexpectedCharacter(
                *line as int,
            ),
            Diagnostic::UnterminatedString(line) => DiagnosticView::UnterminatedString(
                *line as int,
            ),
        }
    }
}

impl DeepView for Diagnostic {
    type V = DiagnosticView;

    open spec fn deep_view(&self) -> DiagnosticView {
        self@
    }
}

impl DiagnosticView {
    /// The line on which the error was found.
    pub open spec fn line(self) -> int {
        match self {
            DiagnosticView::UnexpectedCharacter(line) => line,
            DiagnosticView::UnterminatedString(line) => line,
        }
    }

    /// The fixed text that describes the kind of error.
    pub open spec fn message(self) -> Seq<char> {
        match self {
            DiagnosticView::UnexpectedCharacter(_) => "Unexpected character."@,
            DiagnosticView::UnterminatedString(_) => "Unterminated string."@,
        }
    }
}

impl Diagnostic {
    /// The line on which the error was found.
    pub fn line(&self) -> (line: usize)
        ensures
            line == self@.line(),
    {
        match self {
            Diagnostic::UnexpectedCharacter(line) => *line,
            Diagnostic::UnterminatedString(line) => *line,
        }
    }

    /// The fixed text that describes the kind of error.
    pub fn message(&self) -> (message: &'static str)
        ensures
            message@ == self@.message(),
    {
        match self {
            Diagnostic::UnexpectedCharacter(_) => "Unexpected character.",
            Diagnostic::UnterminatedString(_) => "Unterminated string.",
        }
    }
}

/// The text of a report: the line number, the place within the line, if one is given, and
/// the message.
pub open spec fn report_text(line: nat, location: Seq<char>, message: Seq<char>) -> Seq<char> {
    "[Line "@ + decimal(line) + "] Error "@ + location + ": "@ + message
}

/// The report of an error on `line` that names no place within the line.
pub fn error(line: u32, message: &str) -> (text: String)
    ensures
        text@ == report_text(line as nat, Seq::empty(), message@),
{
    proof {
        reveal_strlit("");
    }
    report(line, "", message)
}

/// The report of an error on `line` at `location`.
pub fn report(line: u32, location: &str, message: &str) -> (text: String)
    ensures
        text@ == report_text(line as nat, location@, message@),
{
    let mut text = String::from_str("[Line ");
    push_decimal(&mut text, line);
    text.append("] Error ");
    text.append(location);
    text.append(": ");
    text.append(message);
    text
}

} // verus!
