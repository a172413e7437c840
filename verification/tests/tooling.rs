use plateboiler::data::ProjectType;
use plateboiler::tooling::any_probe_passed;

#[test]
fn django_probe_groups_list_python_venv_and_pip() {
    let groups = ProjectType::Django.tooling_probe_groups();
    assert_eq!(groups.len(), 3);
    assert_eq!(
        groups[0].commands,
        vec![
            String::from("python --version"),
            String::from("python3 -version")
        ]
    );
    assert_eq!(
        groups[1].commands,
        vec![
            String::from("python -m venv --help"),
            String::from("python3 -m venv --help")
        ]
    );
    assert_eq!(
        groups[2].commands,
        vec![
            String::from("python -m pip --version"),
            String::from("python3 -m pip --version")
        ]
    );
    assert_eq!(
        groups[0].missing_msg,
        "Could not confirm if python is installed, in order to set up a Django project."
    );
}

#[test]
fn react_and_next_probe_groups() {
    let react = ProjectType::React.tooling_probe_groups();
    assert_eq!(react.len(), 2);
    assert_eq!(react[0].commands, vec![String::from("node --version")]);
    assert_eq!(react[1].commands, vec![String::from("npm --version")]);

    let next = ProjectType::Next.tooling_probe_groups();
    assert_eq!(next.len(), 2);
    assert_eq!(
        next[0].commands,
        vec![String::from("node --version || deno --version")]
    );
    assert_eq!(
        next[1].commands,
        vec![String::from(
            "npm --version || yarn --version || pnpm --version || deno --version"
        )]
    );
}

#[test]
fn any_probe_passed_needs_one_success() {
    assert!(any_probe_passed(&vec![false, true]));
    assert!(any_probe_passed(&vec![true]));
    assert!(!any_probe_passed(&vec![false, false]));
    assert!(!any_probe_passed(&Vec::new()));
}

#[test]
fn tooling_check_passes_when_each_group_has_a_success() {
    let results = vec![vec![true, false], vec![false, true], vec![true, true]];
    assert!(ProjectType::Django
        .check_for_required_tooling(&results)
        .is_ok());
}

#[test]
fn tooling_check_reports_first_unconfirmed_group() {
    let results = vec![vec![true, false], vec![false, false], vec![true, false]];
    let err = ProjectType::Django
        .check_for_required_tooling(&results)
        .unwrap_err();
    assert_eq!(
        err.msg(),
        "Could not confirm if the venv module is installed, in order to set up a Django project."
    );
}

#[test]
fn tooling_check_with_every_group_failing_names_the_project_type() {
    let results = vec![vec![false, false], vec![false, false], vec![false, false]];
    let err = ProjectType::Django
        .check_for_required_tooling(&results)
        .unwrap_err();
    assert_eq!(
        err.msg(),
        "Could not confirm if python is installed, in order to set up a Django project."
    );

    let results = vec![vec![false], vec![false]];
    let err = ProjectType::React
        .check_for_required_tooling(&results)
        .unwrap_err();
    assert_eq!(
        err.msg(),
        "Could not confirm if Node js is installed, in order to set up a React project."
    );
}
