use plateboiler::runner::{shell_invocation, CmdOutcome, Step, Terminal};

#[test]
fn terminal_prefix_is_chosen_by_platform() {
    let t = Terminal::new(String::from("/work/app"), false);
    assert_eq!(t.shell_program, "sh");
    assert_eq!(t.shell_flag, "-c");
    assert_eq!(t.working_dir, "/work/app");

    let t = Terminal::new(String::from("C:\\work\\app"), true);
    assert_eq!(t.shell_program, "cmd");
    assert_eq!(t.shell_flag, "/C");
}

#[test]
fn terminal_repoint_changes_only_the_directory() {
    let mut t = Terminal::new(String::from("proj"), false);
    t.repoint(String::from("proj/nested"));
    assert_eq!(t.working_dir, "proj/nested");
    assert_eq!(t.shell_program, "sh");
    assert_eq!(t.shell_flag, "-c");
}

#[test]
fn successful_exit_passes_judgement() {
    let step = Step {
        cmd: String::from("npm install"),
        fail_msg: String::from("Failed to install node modules."),
        log_msg: String::from("installing node modules..."),
    };
    assert!(step
        .judge(&CmdOutcome::Exited { success: true })
        .is_ok());
}

#[test]
fn nonzero_exit_fails_with_the_configured_message() {
    let step = Step {
        cmd: String::from("python -m venv env"),
        fail_msg: String::from("Failed to create virtual env."),
        log_msg: String::from("setting up virtual environment"),
    };
    let err = step
        .judge(&CmdOutcome::Exited { success: false })
        .unwrap_err();
    assert_eq!(err.msg(), "Failed to create virtual env.");
}

#[test]
fn spawn_failure_wraps_the_underlying_error() {
    let step = Step {
        cmd: String::from("npm run dev"),
        fail_msg: String::from("Failed to run dev server."),
        log_msg: String::from("running dev server..."),
    };
    let err = step
        .judge(&CmdOutcome::SpawnFailed {
            detail: String::from("command not found"),
        })
        .unwrap_err();
    assert_eq!(err.msg(), "Failed to run dev server. command not found");
}

#[test]
fn shell_invocation_supports_linux_and_windows_only() {
    let (prog, flag) = shell_invocation("linux").unwrap();
    assert_eq!(prog, "sh");
    assert_eq!(flag, "-c");

    let (prog, flag) = shell_invocation("windows").unwrap();
    assert_eq!(prog, "cmd");
    assert_eq!(flag, "/C");

    let err = shell_invocation("plan9").unwrap_err();
    assert_eq!(err.msg(), "OS not supported by CLI");
}
