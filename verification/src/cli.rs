//! The decisions of the command-line driver. Reading files and the terminal is the caller's
//! part: the caller hands in what it read and acts on what these functions decide.

use crate::error::{Diagnostic, Error};
use crate::grammar::{diagnostics_of, tokens_of};
use crate::scanner::Scanner;
use crate::text::same_text;
use crate::token::Token;
use vstd::prelude::*;
use vstd::string::StringExecFns;

verus! {

/// The command line: the script to run, if one was named.
#[derive(Debug)]
pub struct Cli {
    /// The path of the script, as text.
    pub path: Option<String>,
    /// The extension of the script's file name, without the dot, if it has one.
    pub extension: Option<String>,
}

/// What the driver does next.
#[derive(Debug, PartialEq)]
pub enum Action {
    /// Read the script at this path and run its contents.
    RunFile(String),
    /// Prompt for lines and run each.
    RunPrompt,
}

/// What the driver does with one read at the prompt.
#[derive(Debug, PartialEq)]
pub enum PromptStep {
    /// Run the line that was read, then prompt again.
    Run,
    /// The input is at its end: stop.
    Stop,
    /// Reading or writing failed: print this message, then stop.
    Fail(String),
}

/// The extension that a script's file name must have.
pub open spec fn script_extension() -> Seq<char> {
    "lox"@
}

/// Why a script with this extension is refused, if it is.
pub open spec fn refusal(extension: Option<Seq<char>>) -> Option<Seq<char>> {
    match extension {
        Some(extension) => if extension == script_extension() {
            None
        } else {
            Some("Required '.lox' file, file not supported!"@)
        },
        None => Some("Invalid file extension"@),
    }
}

/// The views of an optional string.
pub open spec fn text_of(text: Option<String>) -> Option<Seq<char>> {
    match text {
        Some(text) => Some(text@),
        None => None,
    }
}

impl Cli {
    /// Decides what to do for this command line: with no script, prompt; with a script
    /// whose extension is the required one, run it; with any other script, fail.
    pub fn start_execution(self) -> (decision: Result<Action, Error>)
        ensures
            self.path is None ==> decision == Ok::<Action, Error>(Action::RunPrompt),
            self.path is Some && refusal(text_of(self.extension)) is None ==> decision == Ok::<
                Action,
                Error,
            >(Action::RunFile(self.path->0)),
            self.path is Some && refusal(text_of(self.extension)) is Some ==> decision is Err
                && Some(decision->Err_0.message()) == refusal(text_of(self.extension)),
    {
        match self.path {
            Some(path) => {
                let checked = match &self.extension {
                    Some(extension) => Self::run_file(Some(extension.as_str())),
                    None => Self::run_file(None),
                };
                match checked {
                    Ok(()) => Ok(Action::RunFile(path)),
                    Err(error) => Err(error),
                }
            },
            None => Ok(Action::RunPrompt),
        }
    }

    /// Accepts a script by the extension of its file name. The caller reads and runs the
    /// script only if this returns `Ok`.
    pub fn run_file(extension: Option<&str>) -> (checked: Result<(), Error>)
        ensures
            checked is Ok <==> extension is Some && extension->0@ == script_extension(),
            checked is Err ==> Some(checked->Err_0.message()) == refusal(
                match extension {
                    Some(extension) => Some(extension@),
                    None => None,
                },
            ),
    {
        match extension {
            Some(extension) => {
                if !same_text(extension, "lox") {
                    return Err(
                        Error::Runtime(
                            String::from_str("Required '.lox' file, file not supported!"),
                        ),
                    );
                }
            },
            None => return Err(Error::Runtime(String::from_str("Invalid file extension"))),
        }
        Ok(())
    }

    /// Decides what to do with one read at the prompt, given the number of bytes read or the
    /// text of the failure: nothing read means the input is at its end.
    pub fn run_prompt(read: Result<usize, String>) -> (step: PromptStep)
        ensures
            match read {
                Ok(count) => step == if count == 0 {
                    PromptStep::Stop
                } else {
                    PromptStep::Run
                },
                Err(failure) => step is Fail && step->Fail_0@ == "Error: "@ + failure@,
            },
    {
        match read {
            Ok(count) => {
                if count == 0 {
                    PromptStep::Stop
                } else {
                    PromptStep::Run
                }
            },
            Err(failure) => {
                let mut message = String::from_str("Error: ");
                message.append(failure.as_str());
                PromptStep::Fail(message)
            },
        }
    }

    /// Runs one unit of input, a script or a line: scans it, and returns its tokens and the
    /// diagnostics of the scan.
    pub fn run(content: &str) -> (found: (Vec<Token>, Vec<Diagnostic>))
        ensures
            found.0.deep_view() == tokens_of(content@),
            found.1.deep_view() == diagnostics_of(content@),
    {
        let mut scanner = Scanner::new(content.to_owned());
        let tokens = scanner.scan_tokens();
        let diagnostics = scanner.diagnostics().clone();
        (tokens, diagnostics)
    }
}

} // verus!
