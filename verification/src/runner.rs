//! The step runner's state and judgement: a working directory with a
//! platform shell prefix, and the meaning of one command's outcome.
//! Spawning the command is the caller's part; what the outcome means
//! for the run is decided here.

use vstd::prelude::*;

use crate::data::ProgramError;

verus! {

/// Outcome of trying to run one external command: either the process
/// could not be spawned at all, or it ran and exited.
pub enum CmdOutcome {
    SpawnFailed { detail: String },
    Exited { success: bool },
}

/// The mathematical shape of a command outcome.
pub ghost enum CmdOutcomeView {
    SpawnFailed { detail: Seq<char> },
    Exited { success: bool },
}

impl View for CmdOutcome {
    type V = CmdOutcomeView;

    open spec fn view(&self) -> CmdOutcomeView {
        match self {
            CmdOutcome::SpawnFailed { detail } => CmdOutcomeView::SpawnFailed { detail: detail@ },
            CmdOutcome::Exited { success } => CmdOutcomeView::Exited { success: *success },
        }
    }
}

/// One orchestration step: the shell command to run, the failure
/// message configured for it, and the progress message logged when
/// verbose.
pub struct Step {
    pub cmd: String,
    pub fail_msg: String,
    pub log_msg: String,
}

/// The mathematical shape of a step.
pub ghost struct StepView {
    pub cmd: Seq<char>,
    pub fail_msg: Seq<char>,
    pub log_msg: Seq<char>,
}

impl View for Step {
    type V = StepView;

    open spec fn view(&self) -> StepView {
        StepView { cmd: self.cmd@, fail_msg: self.fail_msg@, log_msg: self.log_msg@ }
    }
}

/// What one step's outcome means for the run: success passes silently;
/// a spawn failure wraps the underlying error text behind the step's
/// failure message; a non-zero exit fails with the failure message
/// alone.
pub open spec fn spec_step_result(step: StepView, outcome: CmdOutcomeView) -> Result<
    (),
    Seq<char>,
> {
    match outcome {
        CmdOutcomeView::SpawnFailed { detail } => Err(step.fail_msg + " "@ + detail),
        CmdOutcomeView::Exited { success } => if success {
            Ok(())
        } else {
            Err(step.fail_msg)
        },
    }
}

impl Step {
    /// Judge this step's outcome, exactly as [`spec_step_result`] says.
    pub fn judge(&self, outcome: &CmdOutcome) -> (r: Result<(), ProgramError>)
        ensures
            match (r, spec_step_result(self@, outcome@)) {
                (Ok(_), Ok(_)) => true,
                (Err(e), Err(m)) => e@ == m,
                _ => false,
            },
    {
        match outcome {
            CmdOutcome::SpawnFailed { detail } => {
                let mut m = self.fail_msg.clone();
                m.append(" ");
                m.append(detail.as_str());
                Err(ProgramError::new(m))
            },
            CmdOutcome::Exited { success } => {
                if *success {
                    Ok(())
                } else {
                    Err(ProgramError::new(self.fail_msg.clone()))
                }
            },
        }
    }
}

/// The working context of one orchestration run: the directory steps
/// run in, and the shell prefix chosen once for the platform.
pub struct Terminal {
    pub working_dir: String,
    pub shell_program: String,
    pub shell_flag: String,
}

/// The mathematical shape of a working context.
pub ghost struct TerminalView {
    pub working_dir: Seq<char>,
    pub shell_program: Seq<char>,
    pub shell_flag: Seq<char>,
}

impl View for Terminal {
    type V = TerminalView;

    open spec fn view(&self) -> TerminalView {
        TerminalView {
            working_dir: self.working_dir@,
            shell_program: self.shell_program@,
            shell_flag: self.shell_flag@,
        }
    }
}

impl Terminal {
    /// A context rooted at `working_dir`. On Windows-family platforms
    /// commands run through `cmd /C`, everywhere else through `sh -c`;
    /// the choice is made here, once, and never per step.
    pub fn new(working_dir: String, windows: bool) -> (r: Self)
        ensures
            r@.working_dir == working_dir@,
            windows ==> r@.shell_program == "cmd"@ && r@.shell_flag == "/C"@,
            !windows ==> r@.shell_program == "sh"@ && r@.shell_flag == "-c"@,
    {
        if windows {
            Terminal {
                working_dir,
                shell_program: String::from_str("cmd"),
                shell_flag: String::from_str("/C"),
            }
        } else {
            Terminal {
                working_dir,
                shell_program: String::from_str("sh"),
                shell_flag: String::from_str("-c"),
            }
        }
    }

    /// Re-point the working directory — used after a scaffolding tool
    /// creates a nested folder that becomes the new root. The shell
    /// prefix is untouched.
    pub fn repoint(&mut self, working_dir: String)
        ensures
            final(self)@.working_dir == working_dir@,
            final(self)@.shell_program == old(self)@.shell_program,
            final(self)@.shell_flag == old(self)@.shell_flag,
    {
        self.working_dir = working_dir;
    }
}

/// The shell invocation for running a detached probe command on the
/// named operating system; only Linux and Windows are supported.
pub fn shell_invocation(os: &str) -> (r: Result<(String, String), ProgramError>)
    ensures
        os@ == "linux"@ ==> (r matches Ok(p) && p.0@ == "sh"@ && p.1@ == "-c"@),
        os@ == "windows"@ ==> (r matches Ok(p) && p.0@ == "cmd"@ && p.1@ == "/C"@),
        os@ != "linux"@ && os@ != "windows"@ ==> (r matches Err(e) && e@
            == "OS not supported by CLI"@),
{
    proof {
        reveal_strlit("linux");
        reveal_strlit("windows");
        assert("linux"@.len() == 5 && "windows"@.len() == 7);
    }
    if crate::text::str_eq(os, "linux") {
        Ok((String::from_str("sh"), String::from_str("-c")))
    } else if crate::text::str_eq(os, "windows") {
        Ok((String::from_str("cmd"), String::from_str("/C")))
    } else {
        Err(ProgramError::new(String::from_str("OS not supported by CLI")))
    }
}

} // verus!
