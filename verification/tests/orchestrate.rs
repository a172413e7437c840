use plateboiler::data::{
    plan_run, DidSomething, Flag, ProgramArguments, ProjectType, RunDecision,
};
use plateboiler::orchestrate::{
    setup_steps, Orchestration, OrchestrationEvent, OrchestrationState,
};
use plateboiler::runner::CmdOutcome;

#[test]
fn django_pipeline_steps_in_order() {
    let steps = setup_steps(ProjectType::Django, false);
    assert_eq!(steps.len(), 4);
    assert_eq!(steps[0].cmd, "python -m venv env");
    assert_eq!(steps[1].cmd, "source env/bin/activate && pip install django");
    assert_eq!(
        steps[2].cmd,
        "source env/bin/activate && django-admin startproject core ."
    );
    assert_eq!(
        steps[3].cmd,
        "source env/bin/activate && python manage.py runserver"
    );

    let windows_steps = setup_steps(ProjectType::Django, true);
    assert_eq!(
        windows_steps[1].cmd,
        "env\\Scripts\\activate.bat && pip install django"
    );
}

#[test]
fn react_pipeline_steps_in_order() {
    let steps = setup_steps(ProjectType::React, false);
    assert_eq!(steps.len(), 3);
    assert_eq!(steps[0].cmd, "npm create vite@latest");
    assert_eq!(steps[1].cmd, "npm install");
    assert_eq!(steps[2].cmd, "npm run dev");
}

#[test]
fn end_to_end_django_test_run_with_name_never_prompts() {
    let args = ProgramArguments::build(vec![
        String::from("django"),
        String::from("--test"),
        String::from("--name=demo"),
    ])
    .unwrap();
    assert_eq!(args.get_project_type(), &Some(ProjectType::Django));
    assert!(args.get_flags().contains(&Flag::Test));
    assert_eq!(
        Flag::get_project_name(args.get_flags()),
        Some(String::from("demo"))
    );

    let orch = Orchestration::start(ProjectType::Django, args.get_flags(), false);
    assert!(orch.test_mode);
    assert!(matches!(&orch.state, OrchestrationState::EnsuringStaging { name } if name == "demo"));

    let orch = orch.advance(OrchestrationEvent::StagingEnsured {
        ok: true,
        detail: String::new(),
    });
    assert!(
        matches!(&orch.state, OrchestrationState::CreatingProjectDir { target } if target == "test_runs/demo")
    );

    let orch = orch.advance(OrchestrationEvent::ProjectDirCreated {
        ok: true,
        detail: String::new(),
    });
    assert!(
        matches!(&orch.state, OrchestrationState::RunningStep { dir, index } if dir == "test_runs/demo" && *index == 0)
    );
}

#[test]
fn missing_name_flag_prompts_before_anything_else() {
    let args = ProgramArguments::build(vec![String::from("django")]).unwrap();
    let orch = Orchestration::start(ProjectType::Django, args.get_flags(), false);
    assert!(matches!(orch.state, OrchestrationState::AwaitingName));

    let orch = orch.advance(OrchestrationEvent::NameEntered {
        name: String::from("  mysite \n"),
    });
    assert!(
        matches!(&orch.state, OrchestrationState::CreatingProjectDir { target } if target == "mysite")
    );
}

#[test]
fn failing_step_aborts_with_its_message_and_stays_aborted() {
    let args = ProgramArguments::build(vec![String::from("django"), String::from("--name=x")])
        .unwrap();
    let orch = Orchestration::start(ProjectType::Django, args.get_flags(), false);
    let orch = orch.advance(OrchestrationEvent::ProjectDirCreated {
        ok: true,
        detail: String::new(),
    });
    let orch = orch.advance(OrchestrationEvent::StepCompleted {
        outcome: CmdOutcome::Exited { success: false },
    });
    assert!(
        matches!(&orch.state, OrchestrationState::Aborted { error } if error.msg() == "Failed to create virtual env.")
    );

    let orch = orch.advance(OrchestrationEvent::StepCompleted {
        outcome: CmdOutcome::Exited { success: true },
    });
    assert!(matches!(&orch.state, OrchestrationState::Aborted { .. }));
}

#[test]
fn steps_run_in_order_until_done() {
    let args = ProgramArguments::build(vec![String::from("django"), String::from("--name=x")])
        .unwrap();
    let mut orch = Orchestration::start(ProjectType::Django, args.get_flags(), false);
    orch = orch.advance(OrchestrationEvent::ProjectDirCreated {
        ok: true,
        detail: String::new(),
    });
    for expected_index in 0..4usize {
        match &orch.state {
            OrchestrationState::RunningStep { index, .. } => {
                assert_eq!(*index, expected_index)
            }
            _ => panic!("expected a running step"),
        }
        orch = orch.advance(OrchestrationEvent::StepCompleted {
            outcome: CmdOutcome::Exited { success: true },
        });
    }
    assert!(matches!(orch.state, OrchestrationState::Done));
}

#[test]
fn react_run_repoints_into_the_scaffolded_folder() {
    let args = ProgramArguments::build(vec![String::from("react"), String::from("--name=app")])
        .unwrap();
    let orch = Orchestration::start(ProjectType::React, args.get_flags(), false);
    let orch = orch.advance(OrchestrationEvent::ProjectDirCreated {
        ok: true,
        detail: String::new(),
    });
    let orch = orch.advance(OrchestrationEvent::StepCompleted {
        outcome: CmdOutcome::Exited { success: true },
    });
    assert!(
        matches!(&orch.state, OrchestrationState::InspectingDir { dir, index } if dir == "app" && *index == 1)
    );

    let orch = orch.advance(OrchestrationEvent::DirInspected {
        first_entry: Some(String::from("app/my-vite-app")),
    });
    assert!(
        matches!(&orch.state, OrchestrationState::RunningStep { dir, index } if dir == "app/my-vite-app" && *index == 1)
    );
}

#[test]
fn react_inspection_without_entries_keeps_the_directory() {
    let args = ProgramArguments::build(vec![String::from("react"), String::from("--name=app")])
        .unwrap();
    let orch = Orchestration::start(ProjectType::React, args.get_flags(), false);
    let orch = orch.advance(OrchestrationEvent::ProjectDirCreated {
        ok: true,
        detail: String::new(),
    });
    let orch = orch.advance(OrchestrationEvent::StepCompleted {
        outcome: CmdOutcome::Exited { success: true },
    });
    let orch = orch.advance(OrchestrationEvent::DirInspected { first_entry: None });
    assert!(
        matches!(&orch.state, OrchestrationState::RunningStep { dir, index } if dir == "app" && *index == 1)
    );
}

#[test]
fn next_runs_are_refused_as_not_implemented() {
    let args = ProgramArguments::build(vec![String::from("next"), String::from("--name=x")])
        .unwrap();
    let orch = Orchestration::start(ProjectType::Next, args.get_flags(), false);
    assert!(
        matches!(&orch.state, OrchestrationState::Aborted { error } if error.msg() == "Setting up a Next project is not implemented yet.")
    );
}

#[test]
fn staging_failure_aborts_the_run() {
    let args = ProgramArguments::build(vec![
        String::from("django"),
        String::from("-t"),
        String::from("-n=x"),
    ])
    .unwrap();
    let orch = Orchestration::start(ProjectType::Django, args.get_flags(), false);
    let orch = orch.advance(OrchestrationEvent::StagingEnsured {
        ok: false,
        detail: String::from("PermissionDenied"),
    });
    assert!(
        matches!(&orch.state, OrchestrationState::Aborted { error } if error.msg() == "Failed to create test_runs directory 'PermissionDenied'. ")
    );
}

#[test]
fn project_dir_failure_aborts_the_run() {
    let args = ProgramArguments::build(vec![String::from("django"), String::from("-n=x")])
        .unwrap();
    let orch = Orchestration::start(ProjectType::Django, args.get_flags(), false);
    let orch = orch.advance(OrchestrationEvent::ProjectDirCreated {
        ok: false,
        detail: String::from("AlreadyExists"),
    });
    assert!(
        matches!(&orch.state, OrchestrationState::Aborted { error } if error.msg() == "Failed to create project folder 'AlreadyExists'. ")
    );
}

#[test]
fn help_flag_takes_the_whole_run() {
    let args = ProgramArguments::build(vec![String::from("django"), String::from("--help")])
        .unwrap();
    assert_eq!(Flag::handle_help_flag(&args), DidSomething::Yes);
    assert!(matches!(plan_run(&args), RunDecision::ShowHelp));

    let args = ProgramArguments::build(vec![String::from("django")]).unwrap();
    assert_eq!(Flag::handle_help_flag(&args), DidSomething::No);
    assert!(
        matches!(plan_run(&args), RunDecision::Proceed { project_type } if project_type == ProjectType::Django)
    );

    let args = ProgramArguments::build(Vec::new()).unwrap();
    match plan_run(&args) {
        RunDecision::NoProject { error } => {
            assert_eq!(error.msg(), "No valid project type provided")
        }
        _ => panic!("expected the missing-project-type decision"),
    }
}
