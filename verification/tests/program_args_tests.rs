use j3grid_docker::program_args::{
    format_program_argument, format_program_arguments, parse_program_arguments,
    ProgramArgumentsParseError,
};
use j3grid_docker::settings::UiLanguage;

#[test]
fn program_arguments_parser_splits_whitespace_and_quotes() {
    let arguments = parse_program_arguments(r#"--profile "Work A" "" "quoted \"value\"""#)
        .expect("arguments should parse");

    assert_eq!(
        arguments,
        vec![
            String::from("--profile"),
            String::from("Work A"),
            String::new(),
            String::from("quoted \"value\"")
        ]
    );
}

#[test]
fn program_arguments_formatter_round_trips_shell_like_input() {
    let arguments = vec![
        String::from("--profile"),
        String::from("Work A"),
        String::new(),
        String::from("quoted \"value\""),
    ];
    let formatted = format_program_arguments(&arguments);

    assert_eq!(
        parse_program_arguments(&formatted).expect("formatted arguments should parse"),
        arguments
    );
}

#[test]
fn program_arguments_formatter_round_trips_trailing_backslashes() {
    let arguments = vec![
        String::from("C:\\Program Files\\Tool\\"),
        String::from("quoted \"folder\" ending\\"),
    ];
    let formatted = format_program_arguments(&arguments);

    assert_eq!(
        parse_program_arguments(&formatted).expect("formatted arguments should parse"),
        arguments
    );
}

#[test]
fn program_arguments_parser_rejects_unterminated_quote() {
    assert_eq!(
        parse_program_arguments(r#""Work A"#),
        Err(ProgramArgumentsParseError::UnterminatedQuote)
    );
}

#[test]
fn program_argument_formatter_quotes_only_when_needed() {
    assert_eq!(format_program_argument("plain"), "plain");
    assert_eq!(format_program_argument(""), "\"\"");
    assert_eq!(format_program_argument("a b"), "\"a b\"");
    assert_eq!(format_program_argument("dir\\"), "dir\\");
    assert_eq!(format_program_argument("a b\\"), "\"a b\"\\");
    assert_eq!(format_program_argument("say \"hi\""), "\"say \\\"hi\\\"\"");
}

#[test]
fn program_arguments_formatter_joins_with_spaces() {
    let arguments = vec![String::from("one"), String::from("two words")];
    assert_eq!(format_program_arguments(&arguments), "one \"two words\"");
    assert_eq!(format_program_arguments(&[]), "");
}

#[test]
fn program_arguments_parser_handles_empty_and_blank_input() {
    assert_eq!(parse_program_arguments(""), Ok(Vec::new()));
    assert_eq!(parse_program_arguments("   \t "), Ok(Vec::new()));
    assert_eq!(
        parse_program_arguments("a \"b c\""),
        Ok(vec![String::from("a"), String::from("b c")])
    );
}

#[test]
fn program_arguments_parse_error_message_is_localized() {
    let english = ProgramArgumentsParseError::UnterminatedQuote.user_message(UiLanguage::English);
    let korean = ProgramArgumentsParseError::UnterminatedQuote.user_message(UiLanguage::Korean);
    assert!(!english.is_empty());
    assert!(!korean.is_empty());
    assert_ne!(english, korean);
}
