use plateboiler::catalog::{general_help_text, valid_flags, valid_project_options};
use plateboiler::data::{Flag, ProgramArguments, ProgramError, ResolutionError, Value};
use plateboiler::text::{find_char, lower_str, normalize_token, str_eq, trim_str};

#[test]
fn trimming_strips_both_ends() {
    assert_eq!(trim_str("  hello \t\n"), "hello");
    assert_eq!(trim_str("hello"), "hello");
    assert_eq!(trim_str("   "), "");
    assert_eq!(trim_str(""), "");
    assert_eq!(trim_str(" a b "), "a b");
}

#[test]
fn lowercasing_touches_only_ascii_capitals() {
    assert_eq!(lower_str("DJANGO"), "django");
    assert_eq!(lower_str("MiXeD-42"), "mixed-42");
    assert_eq!(lower_str(""), "");
}

#[test]
fn normalizing_trims_then_lowercases() {
    assert_eq!(normalize_token("  REACT "), "react");
    assert_eq!(normalize_token("--Name=Demo"), "--name=demo");
}

#[test]
fn string_equality_is_by_characters() {
    assert!(str_eq("abc", "abc"));
    assert!(!str_eq("abc", "abd"));
    assert!(!str_eq("abc", "ab"));
    assert!(str_eq("", ""));
}

#[test]
fn find_char_reports_the_first_occurrence() {
    assert_eq!(find_char("--name=a=b", '='), Some(6));
    assert_eq!(find_char("abc", '='), None);
    assert_eq!(find_char("", '='), None);
}

#[test]
fn project_catalog_rows_are_unique_and_described() {
    let options = valid_project_options();
    assert_eq!(options.len(), 3);
    assert_eq!(options[0].keyword, "django");
    assert_eq!(options[1].keyword, "react");
    assert_eq!(options[2].keyword, "next");
    for option in &options {
        assert!(!option.description.is_empty());
    }
}

#[test]
fn flag_catalog_rows_match_their_flags() {
    let flags = valid_flags();
    assert_eq!(flags.len(), 4);
    assert_eq!(flags[0].long_form, "--help");
    assert_eq!(flags[0].short_form, "-h");
    assert_eq!(flags[0].flag, Flag::Help);
    assert_eq!(flags[2].long_form, "--name");
    assert_eq!(flags[2].flag, Flag::Name(Value(None)));
    let value_takers: Vec<&str> = flags
        .iter()
        .filter(|f| f.accepts_value)
        .map(|f| f.long_form.as_str())
        .collect();
    assert_eq!(value_takers, vec!["--name"]);
}

#[test]
fn general_help_text_names_usage() {
    let text = general_help_text();
    assert!(text.contains("USAGE"));
}

#[test]
fn program_error_keeps_its_message() {
    let e = ProgramError::new(String::from("boom"));
    assert_eq!(e.msg(), "boom");
}

#[test]
fn resolution_error_converts_to_program_error() {
    let err = ProgramArguments::build(vec![String::from("--wat")]).unwrap_err();
    let pe = match &err {
        ResolutionError::UnknownFlag(_) => err.to_program_error(),
        _ => panic!("expected an unknown flag"),
    };
    assert_eq!(
        pe.msg(),
        "'--wat' is not a valid flag, run again with --help or -h for more info."
    );
}

#[test]
fn verbose_and_test_queries_see_their_flags() {
    let args = ProgramArguments::build(vec![
        String::from("-v"),
        String::from("django"),
        String::from("-t"),
    ])
    .unwrap();
    assert!(Flag::is_verbose(args.get_flags()));
    assert!(Flag::is_test_run(args.get_flags()));

    let args = ProgramArguments::build(vec![String::from("django")]).unwrap();
    assert!(!Flag::is_verbose(args.get_flags()));
    assert!(!Flag::is_test_run(args.get_flags()));
}
