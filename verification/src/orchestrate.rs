//! The orchestration state machine: one run of the tool, from name
//! resolution through directory creation and the ordered step pipeline
//! to a terminal state. The machine decides; the caller performs the
//! outside work each state calls for (prompting, creating directories,
//! spawning commands) and feeds the outcome back as an event. A failed
//! step aborts the run at once; terminal states never move again.

use vstd::prelude::*;

use crate::data::{Flag, FlagView, ProgramError, ProjectType, spec_has_test, spec_project_name};
use crate::runner::{CmdOutcome, CmdOutcomeView, Step, StepView, spec_step_result};
use crate::text::{spec_trim, trim_str};

verus! {

/// The ordered shell steps of each project type's pipeline, by
/// platform. The Next pipeline is deliberately empty: that type is
/// refused at the start of a run as not implemented.
pub open spec fn spec_setup_steps(t: ProjectType, windows: bool) -> Seq<StepView> {
    match t {
        ProjectType::Django => if windows {
            seq![
                StepView {
                    cmd: "python -m venv env"@,
                    fail_msg: "Failed to create virtual env."@,
                    log_msg: "setting up virtual environment"@,
                },
                StepView {
                    cmd: "env\\Scripts\\activate.bat && pip install django"@,
                    fail_msg: "Failed to install django with pip."@,
                    log_msg: "installing django"@,
                },
                StepView {
                    cmd: "env\\Scripts\\activate.bat && django-admin startproject core ."@,
                    fail_msg: "Failed to start a django project."@,
                    log_msg: "starting a django project"@,
                },
                StepView {
                    cmd: "env\\Scripts\\activate.bat && python manage.py runserver"@,
                    fail_msg: "Failed to run dev server."@,
                    log_msg: "running dev server..."@,
                },
            ]
        } else {
            seq![
                StepView {
                    cmd: "python -m venv env"@,
                    fail_msg: "Failed to create virtual env."@,
                    log_msg: "setting up virtual environment"@,
                },
                StepView {
                    cmd: "source env/bin/activate && pip install django"@,
                    fail_msg: "Failed to install django with pip."@,
                    log_msg: "installing django"@,
                },
                StepView {
                    cmd: "source env/bin/activate && django-admin startproject core ."@,
                    fail_msg: "Failed to start a django project."@,
                    log_msg: "starting a django project"@,
                },
                StepView {
                    cmd: "source env/bin/activate && python manage.py runserver"@,
                    fail_msg: "Failed to run dev server."@,
                    log_msg: "running dev server..."@,
                },
            ]
        },
        ProjectType::React => seq![
            StepView {
                cmd: "npm create vite@latest"@,
                fail_msg: "Failed to create vite app with npm."@,
                log_msg: "creating vite app"@,
            },
            StepView {
                cmd: "npm install"@,
                fail_msg: "Failed to install node modules."@,
                log_msg: "installing node modules..."@,
            },
            StepView {
                cmd: "npm run dev"@,
                fail_msg: "Failed to run dev server."@,
                log_msg: "running dev server..."@,
            },
        ],
        ProjectType::Next => Seq::empty(),
    }
}

/// After which step the working directory is inspected and re-pointed:
/// the React scaffold creates a nested project folder that becomes the
/// root for the remaining steps.
pub open spec fn spec_inspect_after(t: ProjectType) -> Option<int> {
    match t {
        ProjectType::React => Some(0int),
        _ => None,
    }
}

/// Executable mirror of [`spec_setup_steps`].
pub fn setup_steps(t: ProjectType, windows: bool) -> (r: Vec<Step>)
    ensures
        r@.map_values(|s: Step| s@) == spec_setup_steps(t, windows),
{
    let mut r: Vec<Step> = Vec::new();
    match t {
        ProjectType::Django => {
            r.push(
                Step {
                    cmd: String::from_str("python -m venv env"),
                    fail_msg: String::from_str("Failed to create virtual env."),
                    log_msg: String::from_str("setting up virtual environment"),
                },
            );
            if windows {
                r.push(
                    Step {
                        cmd: String::from_str("env\\Scripts\\activate.bat && pip install django"),
                        fail_msg: String::from_str("Failed to install django with pip."),
                        log_msg: String::from_str("installing django"),
                    },
                );
                r.push(
                    Step {
                        cmd: String::from_str(
                            "env\\Scripts\\activate.bat && django-admin startproject core .",
                        ),
                        fail_msg: String::from_str("Failed to start a django project."),
                        log_msg: String::from_str("starting a django project"),
                    },
                );
                r.push(
                    Step {
                        cmd: String::from_str(
                            "env\\Scripts\\activate.bat && python manage.py runserver",
                        ),
                        fail_msg: String::from_str("Failed to run dev server."),
                        log_msg: String::from_str("running dev server..."),
                    },
                );
            } else {
                r.push(
                    Step {
                        cmd: String::from_str("source env/bin/activate && pip install django"),
                        fail_msg: String::from_str("Failed to install django with pip."),
                        log_msg: String::from_str("installing django"),
                    },
                );
                r.push(
                    Step {
                        cmd: String::from_str(
                            "source env/bin/activate && django-admin startproject core .",
                        ),
                        fail_msg: String::from_str("Failed to start a django project."),
                        log_msg: String::from_str("starting a django project"),
                    },
                );
                r.push(
                    Step {
                        cmd: String::from_str(
                            "source env/bin/activate && python manage.py runserver",
                        ),
                        fail_msg: String::from_str("Failed to run dev server."),
                        log_msg: String::from_str("running dev server..."),
                    },
                );
            }
            proof {
                assert(r@.map_values(|s: Step| s@) =~= spec_setup_steps(t, windows));
            }
        },
        ProjectType::React => {
            r.push(
                Step {
                    cmd: String::from_str("npm create vite@latest"),
                    fail_msg: String::from_str("Failed to create vite app with npm."),
                    log_msg: String::from_str("creating vite app"),
                },
            );
            r.push(
                Step {
                    cmd: String::from_str("npm install"),
                    fail_msg: String::from_str("Failed to install node modules."),
                    log_msg: String::from_str("installing node modules..."),
                },
            );
            r.push(
                Step {
                    cmd: String::from_str("npm run dev"),
                    fail_msg: String::from_str("Failed to run dev server."),
                    log_msg: String::from_str("running dev server..."),
                },
            );
            proof {
                assert(r@.map_values(|s: Step| s@) =~= spec_setup_steps(t, windows));
            }
        },
        ProjectType::Next => {
            proof {
                assert(r@.map_values(|s: Step| s@) =~= spec_setup_steps(t, windows));
            }
        },
    }
    r
}

/// The state of one orchestration run.
pub enum OrchestrationState {
    /// The project name must be asked for interactively.
    AwaitingName,
    /// Test mode: the staging directory must exist before the project
    /// directory is created under it.
    EnsuringStaging { name: String },
    /// The project directory itself must be created.
    CreatingProjectDir { target: String },
    /// The step at `index` must be run in `dir`.
    RunningStep { dir: String, index: usize },
    /// The directory must be inspected; its first entry, if any,
    /// becomes the root for the steps from `index` on.
    InspectingDir { dir: String, index: usize },
    /// Every step succeeded.
    Done,
    /// The run failed; nothing further may execute.
    Aborted { error: ProgramError },
}

/// The mathematical shape of an orchestration state.
pub ghost enum StateView {
    AwaitingName,
    EnsuringStaging { name: Seq<char> },
    CreatingProjectDir { target: Seq<char> },
    RunningStep { dir: Seq<char>, index: int },
    InspectingDir { dir: Seq<char>, index: int },
    Done,
    Aborted { message: Seq<char> },
}

impl View for OrchestrationState {
    type V = StateView;

    open spec fn view(&self) -> StateView {
        match self {
            OrchestrationState::AwaitingName => StateView::AwaitingName,
            OrchestrationState::EnsuringStaging { name } => StateView::EnsuringStaging {
                name: name@,
            },
            OrchestrationState::CreatingProjectDir { target } => StateView::CreatingProjectDir {
                target: target@,
            },
            OrchestrationState::RunningStep { dir, index } => StateView::RunningStep {
                dir: dir@,
                index: *index as int,
            },
            OrchestrationState::InspectingDir { dir, index } => StateView::InspectingDir {
                dir: dir@,
                index: *index as int,
            },
            OrchestrationState::Done => StateView::Done,
            OrchestrationState::Aborted { error } => StateView::Aborted { message: error@ },
        }
    }
}

/// What the caller reports back after doing the outside work a state
/// calls for.
pub enum OrchestrationEvent {
    /// The operator answered the name prompt.
    NameEntered { name: String },
    /// The staging directory exists now, or could not be created.
    StagingEnsured { ok: bool, detail: String },
    /// The project directory was created, or could not be.
    ProjectDirCreated { ok: bool, detail: String },
    /// The current step's command finished.
    StepCompleted { outcome: CmdOutcome },
    /// The directory was read; its first entry, if it has one.
    DirInspected { first_entry: Option<String> },
}

/// The mathematical shape of an event.
pub ghost enum EventView {
    NameEntered { name: Seq<char> },
    StagingEnsured { ok: bool, detail: Seq<char> },
    ProjectDirCreated { ok: bool, detail: Seq<char> },
    StepCompleted { outcome: CmdOutcomeView },
    DirInspected { first_entry: Option<Seq<char>> },
}

impl View for OrchestrationEvent {
    type V = EventView;

    open spec fn view(&self) -> EventView {
        match self {
            OrchestrationEvent::NameEntered { name } => EventView::NameEntered { name: name@ },
            OrchestrationEvent::StagingEnsured { ok, detail } => EventView::StagingEnsured {
                ok: *ok,
                detail: detail@,
            },
            OrchestrationEvent::ProjectDirCreated { ok, detail } => EventView::ProjectDirCreated {
                ok: *ok,
                detail: detail@,
            },
            OrchestrationEvent::StepCompleted { outcome } => EventView::StepCompleted {
                outcome: outcome@,
            },
            OrchestrationEvent::DirInspected { first_entry } => EventView::DirInspected {
                first_entry: match first_entry {
                    Some(d) => Some(d@),
                    None => None,
                },
            },
        }
    }
}

/// One orchestration run: the fixed pipeline of a project type and the
/// state it has reached.
pub struct Orchestration {
    pub project_type: ProjectType,
    pub windows: bool,
    pub steps: Vec<Step>,
    pub test_mode: bool,
    pub inspect_after: Option<usize>,
    pub state: OrchestrationState,
}

/// The mathematical shape of a run.
pub ghost struct OrchView {
    pub project_type: ProjectType,
    pub windows: bool,
    pub steps: Seq<StepView>,
    pub test_mode: bool,
    pub inspect_after: Option<int>,
    pub state: StateView,
}

impl View for Orchestration {
    type V = OrchView;

    open spec fn view(&self) -> OrchView {
        OrchView {
            project_type: self.project_type,
            windows: self.windows,
            steps: self.steps@.map_values(|s: Step| s@),
            test_mode: self.test_mode,
            inspect_after: match self.inspect_after {
                Some(k) => Some(k as int),
                None => None,
            },
            state: self.state@,
        }
    }
}

/// A well-formed run: the pipeline is the one its project type and
/// platform call for, and any step position in the state is in range.
pub open spec fn spec_wf(o: OrchView) -> bool {
    &&& o.steps == spec_setup_steps(o.project_type, o.windows)
    &&& o.inspect_after == spec_inspect_after(o.project_type)
    &&& match o.state {
        StateView::RunningStep { dir, index } => 0 <= index < o.steps.len(),
        StateView::InspectingDir { dir, index } => 0 <= index <= o.steps.len(),
        _ => true,
    }
}

/// Where a run stands once its name is settled: in test mode the
/// staging directory comes first, else the project directory is
/// created directly.
pub open spec fn spec_named_state(name: Seq<char>, test_mode: bool) -> StateView {
    if test_mode {
        StateView::EnsuringStaging { name }
    } else {
        StateView::CreatingProjectDir { target: name }
    }
}

/// Where a run starts: a Next run is refused as not implemented; else
/// the name comes from the flags when they carry one, and is prompted
/// for otherwise.
pub open spec fn spec_start_state(t: ProjectType, flags: Seq<FlagView>) -> StateView {
    if t is Next {
        StateView::Aborted { message: "Setting up a Next project is not implemented yet."@ }
    } else {
        match spec_project_name(flags) {
            Some(n) => spec_named_state(spec_trim(n), spec_has_test(flags)),
            None => StateView::AwaitingName,
        }
    }
}

/// The transition relation of a run, as a function: what the state
/// becomes when an event arrives. An event that does not fit the state
/// changes nothing; terminal states never move.
pub open spec fn spec_advance(o: OrchView, e: EventView) -> StateView {
    match (o.state, e) {
        (StateView::AwaitingName, EventView::NameEntered { name }) => spec_named_state(
            spec_trim(name),
            o.test_mode,
        ),
        (StateView::EnsuringStaging { name }, EventView::StagingEnsured { ok, detail }) => if ok {
            StateView::CreatingProjectDir { target: "test_runs/"@ + name }
        } else {
            StateView::Aborted {
                message: "Failed to create test_runs directory '"@ + detail + "'. "@,
            }
        },
        (StateView::CreatingProjectDir { target }, EventView::ProjectDirCreated { ok, detail }) => if ok {
            if o.steps.len() == 0 {
                StateView::Done
            } else {
                StateView::RunningStep { dir: target, index: 0 }
            }
        } else {
            StateView::Aborted { message: "Failed to create project folder '"@ + detail + "'. "@ }
        },
        (StateView::RunningStep { dir, index }, EventView::StepCompleted { outcome }) => match
            spec_step_result(o.steps[index], outcome) {
            Ok(_) => {
                if o.inspect_after == Some(index) {
                    StateView::InspectingDir { dir, index: index + 1 }
                } else if index + 1 < o.steps.len() {
                    StateView::RunningStep { dir, index: index + 1 }
                } else {
                    StateView::Done
                }
            },
            Err(m) => StateView::Aborted { message: m },
        },
        (StateView::InspectingDir { dir, index }, EventView::DirInspected { first_entry }) => {
            let new_dir = match first_entry {
                Some(d) => d,
                None => dir,
            };
            if index < o.steps.len() {
                StateView::RunningStep { dir: new_dir, index }
            } else {
                StateView::Done
            }
        },
        _ => o.state,
    }
}

impl Orchestration {
    /// Begin a run: fix the pipeline for the project type and platform,
    /// note test mode, and settle the name from the flags when they
    /// carry one. A Next run aborts at once as not implemented.
    pub fn start(project_type: ProjectType, flags: &Vec<Flag>, windows: bool) -> (r: Self)
        ensures
            r@.project_type == project_type,
            r@.windows == windows,
            r@.test_mode == spec_has_test(flags@.map_values(|f: Flag| f@)),
            r@.state == spec_start_state(project_type, flags@.map_values(|f: Flag| f@)),
            spec_wf(r@),
    {
        let steps = setup_steps(project_type, windows);
        let test_mode = Flag::is_test_run(flags);
        let inspect_after: Option<usize> = match project_type {
            ProjectType::React => Some(0),
            _ => None,
        };
        let state = match project_type {
            ProjectType::Next => OrchestrationState::Aborted {
                error: ProgramError::new(
                    String::from_str("Setting up a Next project is not implemented yet."),
                ),
            },
            _ => {
                match Flag::get_project_name(flags) {
                    Some(n) => {
                        let trimmed = trim_str(n.as_str());
                        if test_mode {
                            OrchestrationState::EnsuringStaging { name: trimmed }
                        } else {
                            OrchestrationState::CreatingProjectDir { target: trimmed }
                        }
                    },
                    None => OrchestrationState::AwaitingName,
                }
            },
        };
        Orchestration { project_type, windows, steps, test_mode, inspect_after, state }
    }

    /// Take one transition, exactly as [`spec_advance`] says; the
    /// pipeline, platform and mode of the run never change.
    pub fn advance(self, event: OrchestrationEvent) -> (r: Self)
        requires
            spec_wf(self@),
        ensures
            r@.project_type == self@.project_type,
            r@.windows == self@.windows,
            r@.steps == self@.steps,
            r@.test_mode == self@.test_mode,
            r@.inspect_after == self@.inspect_after,
            r@.state == spec_advance(self@, event@),
            spec_wf(r@),
    {
        let Orchestration { project_type, windows, steps, test_mode, inspect_after, state } = self;
        let new_state = match (state, event) {
            (OrchestrationState::AwaitingName, OrchestrationEvent::NameEntered { name }) => {
                let trimmed = trim_str(name.as_str());
                if test_mode {
                    OrchestrationState::EnsuringStaging { name: trimmed }
                } else {
                    OrchestrationState::CreatingProjectDir { target: trimmed }
                }
            },
            (
                OrchestrationState::EnsuringStaging { name },
                OrchestrationEvent::StagingEnsured { ok, detail },
            ) => {
                if ok {
                    let mut target = String::from_str("test_runs/");
                    target.append(name.as_str());
                    OrchestrationState::CreatingProjectDir { target }
                } else {
                    let mut m = String::from_str("Failed to create test_runs directory '");
                    m.append(detail.as_str());
                    m.append("'. ");
                    OrchestrationState::Aborted { error: ProgramError::new(m) }
                }
            },
            (
                OrchestrationState::CreatingProjectDir { target },
                OrchestrationEvent::ProjectDirCreated { ok, detail },
            ) => {
                if ok {
                    if steps.len() == 0 {
                        OrchestrationState::Done
                    } else {
                        OrchestrationState::RunningStep { dir: target, index: 0 }
                    }
                } else {
                    let mut m = String::from_str("Failed to create project folder '");
                    m.append(detail.as_str());
                    m.append("'. ");
                    OrchestrationState::Aborted { error: ProgramError::new(m) }
                }
            },
            (
                OrchestrationState::RunningStep { dir, index },
                OrchestrationEvent::StepCompleted { outcome },
            ) => {
                match steps[index].judge(&outcome) {
                    Ok(_) => {
                        let next = index + 1;
                        let inspect_here = match inspect_after {
                            Some(k) => k == index,
                            None => false,
                        };
                        if inspect_here {
                            OrchestrationState::InspectingDir { dir, index: next }
                        } else if next < steps.len() {
                            OrchestrationState::RunningStep { dir, index: next }
                        } else {
                            OrchestrationState::Done
                        }
                    },
                    Err(e) => OrchestrationState::Aborted { error: e },
                }
            },
            (
                OrchestrationState::InspectingDir { dir, index },
                OrchestrationEvent::DirInspected { first_entry },
            ) => {
                let new_dir = match first_entry {
                    Some(d) => d,
                    None => dir,
                };
                if index < steps.len() {
                    OrchestrationState::RunningStep { dir: new_dir, index }
                } else {
                    OrchestrationState::Done
                }
            },
            (other, _) => other,
        };
        Orchestration { project_type, windows, steps, test_mode, inspect_after, state: new_state }
    }
}

/// A step that runs but exits with a non-zero status aborts the run
/// with exactly that step's configured failure message.
pub proof fn lemma_step_failure_aborts(o: OrchView, e: EventView)
    requires
        spec_wf(o),
        o.state is RunningStep,
        e == (EventView::StepCompleted { outcome: CmdOutcomeView::Exited { success: false } }),
    ensures
        spec_advance(o, e) == (StateView::Aborted {
            message: o.steps[o.state->RunningStep_index].fail_msg,
        }),
{
}

/// Terminal states stick: once a run is done or aborted, no event moves
/// it, so no further step of the run executes.
pub proof fn lemma_terminal_states_stick(o: OrchView, e: EventView)
    requires
        o.state is Done || o.state is Aborted,
    ensures
        spec_advance(o, e) == o.state,
{
}

} // verus!
