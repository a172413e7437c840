use plateboiler::catalog::valid_project_options;
use plateboiler::data::{Flag, ProgramArguments, ProjectType, ResolutionError, Value};

#[test]
fn valid_raw_args_return_bin_args() {
    for valid_option in valid_project_options() {
        let raw_args = vec![valid_option.keyword.clone()];
        ProgramArguments::build(raw_args).unwrap();
    }
}

#[test]
#[should_panic]
fn invalid_raw_args_return_error() {
    let invalid_raw_args = vec![String::from("invalid-option")];
    ProgramArguments::build(invalid_raw_args).unwrap();
}

#[test]
fn each_keyword_selects_its_project_type() {
    let args = ProgramArguments::build(vec![String::from("django")]).unwrap();
    assert_eq!(args.get_project_type(), &Some(ProjectType::Django));
    assert_eq!(args.get_flags(), &Vec::<Flag>::new());

    let args = ProgramArguments::build(vec![String::from("react")]).unwrap();
    assert_eq!(args.get_project_type(), &Some(ProjectType::React));
    assert_eq!(args.get_flags(), &Vec::<Flag>::new());

    let args = ProgramArguments::build(vec![String::from("next")]).unwrap();
    assert_eq!(args.get_project_type(), &Some(ProjectType::Next));
    assert_eq!(args.get_flags(), &Vec::<Flag>::new());
}

#[test]
fn each_flag_spelling_resolves_to_its_flag() {
    let cases = [
        ("--help", Flag::Help),
        ("-h", Flag::Help),
        ("--verbose", Flag::Verbose),
        ("-v", Flag::Verbose),
        ("--name", Flag::Name(Value(None))),
        ("-n", Flag::Name(Value(None))),
        ("--test", Flag::Test),
        ("-t", Flag::Test),
    ];
    for (spelling, expected) in cases {
        let args = ProgramArguments::build(vec![String::from(spelling)]).unwrap();
        assert_eq!(args.get_project_type(), &None);
        assert_eq!(args.get_flags(), &vec![expected]);
    }
}

#[test]
fn tokens_are_trimmed_and_lowercased() {
    let args = ProgramArguments::build(vec![String::from("  DJANGO \n")]).unwrap();
    assert_eq!(args.get_project_type(), &Some(ProjectType::Django));

    let args = ProgramArguments::build(vec![String::from(" --Help ")]).unwrap();
    assert_eq!(args.get_flags(), &vec![Flag::Help]);
}

#[test]
fn empty_input_resolves_to_empty_request() {
    let args = ProgramArguments::build(Vec::new()).unwrap();
    assert_eq!(args.get_project_type(), &None);
    assert_eq!(args.get_flags(), &Vec::<Flag>::new());
}

#[test]
fn two_selector_tokens_fail_with_multiple_project_types() {
    let err = ProgramArguments::build(vec![String::from("django"), String::from("react")])
        .unwrap_err();
    assert!(matches!(&err, ResolutionError::DuplicateProjectType(t) if t == "react"));
    assert_eq!(
        err.message(),
        "You can only provide one project type! Found extra type 'react'"
    );
}

#[test]
fn unrecognized_selector_fails_with_unknown_project_type() {
    let err = ProgramArguments::build(vec![String::from("invalid-option")]).unwrap_err();
    assert!(matches!(&err, ResolutionError::UnknownProjectType(t) if t == "invalid-option"));
    assert_eq!(
        err.message(),
        "'invalid-option' is not a valid project type, run again with --help or -h for more info."
    );
}

#[test]
fn unrecognized_flag_fails_with_unknown_flag() {
    let err = ProgramArguments::build(vec![String::from("--wat")]).unwrap_err();
    assert!(matches!(&err, ResolutionError::UnknownFlag(t) if t == "--wat"));
    assert_eq!(
        err.message(),
        "'--wat' is not a valid flag, run again with --help or -h for more info."
    );

    let err = ProgramArguments::build(vec![String::from("--wat=1")]).unwrap_err();
    assert!(matches!(&err, ResolutionError::UnknownFlag(t) if t == "--wat"));
}

#[test]
fn name_flag_with_value_yields_that_name() {
    let args = ProgramArguments::build(vec![String::from("--name=myapp")]).unwrap();
    assert_eq!(
        args.get_flags(),
        &vec![Flag::Name(Value(Some(String::from("myapp"))))]
    );

    let args = ProgramArguments::build(vec![String::from("-n=myapp")]).unwrap();
    assert_eq!(
        args.get_flags(),
        &vec![Flag::Name(Value(Some(String::from("myapp"))))]
    );
}

#[test]
fn name_flag_without_value_is_treated_as_absent_value() {
    let args = ProgramArguments::build(vec![String::from("--name")]).unwrap();
    assert_eq!(args.get_flags(), &vec![Flag::Name(Value(None))]);
    assert_eq!(Flag::get_project_name(args.get_flags()), None);
}

#[test]
fn name_value_keeps_everything_after_first_separator() {
    let args = ProgramArguments::build(vec![String::from("--name=a=b")]).unwrap();
    assert_eq!(
        args.get_flags(),
        &vec![Flag::Name(Value(Some(String::from("a=b"))))]
    );
}

#[test]
fn empty_name_value_is_accepted_as_empty_string() {
    let args = ProgramArguments::build(vec![String::from("--name=")]).unwrap();
    assert_eq!(args.get_flags(), &vec![Flag::Name(Value(Some(String::new())))]);
}

#[test]
fn value_on_a_flag_that_rejects_values_fails() {
    let err = ProgramArguments::build(vec![String::from("--test=1")]).unwrap_err();
    assert!(matches!(&err, ResolutionError::FlagRejectsValue(k) if k == "--test"));
    assert_eq!(
        err.message(),
        "Flag '--test' does not accept a value, run again with --help or -h for more info."
    );
}

#[test]
fn last_name_value_wins() {
    let args = ProgramArguments::build(vec![
        String::from("--name=first"),
        String::from("--name=second"),
    ])
    .unwrap();
    assert_eq!(
        Flag::get_project_name(args.get_flags()),
        Some(String::from("second"))
    );

    let args = ProgramArguments::build(vec![
        String::from("--name=kept"),
        String::from("--name"),
    ])
    .unwrap();
    assert_eq!(
        Flag::get_project_name(args.get_flags()),
        Some(String::from("kept"))
    );
}

#[test]
fn flags_may_surround_the_selector() {
    let args = ProgramArguments::build(vec![
        String::from("-v"),
        String::from("django"),
        String::from("--test"),
    ])
    .unwrap();
    assert_eq!(args.get_project_type(), &Some(ProjectType::Django));
    assert_eq!(args.get_flags(), &vec![Flag::Verbose, Flag::Test]);
}
