use interpreter_rs::cli::{Action, Cli, PromptStep};
use interpreter_rs::error::{Diagnostic, Error};
use interpreter_rs::token::TokenType;

fn runtime(message: &str) -> Error {
    Error::Runtime(message.to_string())
}

#[test]
fn script_with_the_required_extension_runs() {
    let cli = Cli { path: Some("tests/inputs/test.lox".to_string()), extension: Some("lox".to_string()) };
    assert_eq!(cli.start_execution(), Ok(Action::RunFile("tests/inputs/test.lox".to_string())));
    assert_eq!(Cli::run_file(Some("lox")), Ok(()));
}

#[test]
fn script_with_another_extension_is_refused() {
    let cli = Cli { path: Some("some/path/to/file.txt".to_string()), extension: Some("txt".to_string()) };
    assert_eq!(
        cli.start_execution(),
        Err(runtime("Required '.lox' file, file not supported!"))
    );
    assert_eq!(
        Cli::run_file(Some("LOX")),
        Err(runtime("Required '.lox' file, file not supported!"))
    );
    assert_eq!(Cli::run_file(Some("")), Err(runtime("Required '.lox' file, file not supported!")));
}

#[test]
fn script_without_extension_is_refused() {
    let cli = Cli { path: Some("script".to_string()), extension: None };
    assert_eq!(cli.start_execution(), Err(runtime("Invalid file extension")));
    assert_eq!(Cli::run_file(None), Err(runtime("Invalid file extension")));
}

#[test]
fn no_script_means_prompt() {
    let cli = Cli { path: None, extension: None };
    assert_eq!(cli.start_execution(), Ok(Action::RunPrompt));
}

#[test]
fn prompt_stops_at_end_of_input() {
    assert_eq!(Cli::run_prompt(Ok(0)), PromptStep::Stop);
    assert_eq!(Cli::run_prompt(Ok(1)), PromptStep::Run);
    assert_eq!(Cli::run_prompt(Ok(80)), PromptStep::Run);
    assert_eq!(
        Cli::run_prompt(Err("broken pipe".to_string())),
        PromptStep::Fail("Error: broken pipe".to_string())
    );
}

#[test]
fn run_scans_its_input() {
    let (tokens, diagnostics) = Cli::run("print 1 + @;\n\"");
    let kinds: Vec<TokenType> = tokens.iter().map(|token| token.ttype).collect();
    assert_eq!(
        kinds,
        vec![
            TokenType::Print,
            TokenType::Number,
            TokenType::Plus,
            TokenType::SemiColon,
            TokenType::EOF,
        ]
    );
    assert_eq!(tokens[4].line, 2);
    assert_eq!(
        diagnostics,
        vec![Diagnostic::UnexpectedCharacter(1), Diagnostic::UnterminatedString(2)]
    );
}
