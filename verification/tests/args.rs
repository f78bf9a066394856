use typstfmt::args::{
    default_config_path, has_output_conflict, resolve_args, InputSource, OutputSink, Resolution,
    RunConfig, TerminalAction, Token,
};
use typstfmt::config::{plan_config, ConfigPlan};

fn run_of(tokens: Vec<Token>) -> RunConfig {
    match resolve_args(&tokens) {
        Resolution::Run(config) => config,
        Resolution::Terminal(_) => panic!("expected a run, got a terminal action"),
    }
}

#[test]
fn no_arguments_reads_stdin_and_writes_stdout() {
    let config = run_of(vec![]);
    assert!(matches!(config.source, InputSource::Stdin));
    assert!(matches!(config.sink, OutputSink::Stdout));
    assert!(!config.verbose);
    assert_eq!(config.config_path, "typstfmt.toml");
}

#[test]
fn stdin_never_defaults_to_in_place() {
    // Flags that touch neither source nor sink keep the stdin-to-stdout
    // routing.
    let config = run_of(vec![
        Token::Verbose,
        Token::ConfigPath(String::from("other.toml")),
    ]);
    assert!(matches!(config.source, InputSource::Stdin));
    assert!(matches!(config.sink, OutputSink::Stdout));
    assert!(config.verbose);
    assert_eq!(config.config_path, "other.toml");
}

#[test]
fn positional_arguments_accumulate_in_order() {
    let config = run_of(vec![
        Token::Positional(String::from("a.typ")),
        Token::Positional(String::from("b.typ")),
    ]);
    match config.source {
        InputSource::Files(paths) => assert_eq!(paths, vec!["a.typ", "b.typ"]),
        InputSource::Stdin => panic!("expected files"),
    }
    // With files present, the default sink stays in-place.
    assert!(matches!(config.sink, OutputSink::InPlace));
}

#[test]
fn output_dash_means_stdout() {
    let config = run_of(vec![
        Token::Positional(String::from("a.typ")),
        Token::Output(String::from("-")),
    ]);
    assert!(matches!(config.sink, OutputSink::Stdout));
}

#[test]
fn output_path_means_to_file() {
    let config = run_of(vec![
        Token::Positional(String::from("a.typ")),
        Token::Output(String::from("out.typ")),
    ]);
    match config.sink {
        OutputSink::ToFile(path) => assert_eq!(path, "out.typ"),
        _ => panic!("expected a fixed destination file"),
    }
}

#[test]
fn later_sink_flag_wins() {
    let config = run_of(vec![
        Token::Output(String::from("out.typ")),
        Token::CheckFlag,
        Token::StdoutFlag,
    ]);
    assert!(matches!(config.sink, OutputSink::Stdout));

    let config = run_of(vec![Token::StdoutFlag, Token::CheckFlag]);
    assert!(matches!(config.sink, OutputSink::Check));
}

#[test]
fn version_and_help_short_circuit() {
    let tokens = vec![Token::Verbose, Token::Version, Token::Positional(String::from("a.typ"))];
    assert!(matches!(
        resolve_args(&tokens),
        Resolution::Terminal(TerminalAction::PrintVersion)
    ));

    let tokens = vec![Token::Help, Token::CheckFlag];
    assert!(matches!(
        resolve_args(&tokens),
        Resolution::Terminal(TerminalAction::PrintHelp)
    ));

    let tokens = vec![Token::MakeDefaultConfig];
    assert!(matches!(
        resolve_args(&tokens),
        Resolution::Terminal(TerminalAction::CreateDefaultConfig)
    ));
}

#[test]
fn unknown_token_is_terminal_even_amid_valid_flags() {
    let tokens = vec![
        Token::Positional(String::from("a.typ")),
        Token::CheckFlag,
        Token::Unknown(String::from("--frobnicate")),
        Token::Verbose,
    ];
    match resolve_args(&tokens) {
        Resolution::Terminal(TerminalAction::Unexpected(text)) => {
            assert_eq!(text, "--frobnicate");
        }
        _ => panic!("expected the unexpected-token action"),
    }
}

#[test]
fn two_files_with_output_file_conflict() {
    let config = run_of(vec![
        Token::Positional(String::from("a.typ")),
        Token::Positional(String::from("b.typ")),
        Token::Output(String::from("out.typ")),
    ]);
    assert!(has_output_conflict(&config));
}

#[test]
fn single_file_with_output_file_is_fine() {
    let config = run_of(vec![
        Token::Positional(String::from("a.typ")),
        Token::Output(String::from("out.typ")),
    ]);
    assert!(!has_output_conflict(&config));
}

#[test]
fn many_files_without_output_file_are_fine() {
    let config = run_of(vec![
        Token::Positional(String::from("a.typ")),
        Token::Positional(String::from("b.typ")),
        Token::CheckFlag,
    ]);
    assert!(!has_output_conflict(&config));
    let config = run_of(vec![
        Token::Positional(String::from("a.typ")),
        Token::Positional(String::from("b.typ")),
        Token::Output(String::from("-")),
    ]);
    assert!(!has_output_conflict(&config));
}

#[test]
fn default_config_path_is_fixed() {
    assert_eq!(default_config_path(), "typstfmt.toml");
}

#[test]
fn unreadable_config_falls_back_to_default() {
    // Whether --config pointed at a nonexistent path or no configuration
    // file exists at all, the reader hands over `None` and the plan is
    // the built-in default — not an error.
    assert!(matches!(plan_config(None), ConfigPlan::UseDefault));
}

#[test]
fn readable_config_is_parsed() {
    match plan_config(Some(String::from("indent = 2"))) {
        ConfigPlan::ParseFile(text) => assert_eq!(text, "indent = 2"),
        ConfigPlan::UseDefault => panic!("expected the file's text to be parsed"),
    }
}
