//! The option catalog: which keywords select a project type, which
//! spellings name a flag, and what each entry means. The spec functions
//! here are the single source of truth that both the argument resolver
//! and the help output are held to.

use vstd::prelude::*;

use crate::data::{Flag, FlagView, ProjectType, Value};
use crate::text::str_eq;

verus! {

/// The keyword that selects a project type.
pub open spec fn spec_keyword(t: ProjectType) -> Seq<char> {
    match t {
        ProjectType::Django => "django"@,
        ProjectType::React => "react"@,
        ProjectType::Next => "next"@,
    }
}

/// Which project type a normalised selector token names, if any.
pub open spec fn spec_project_lookup(s: Seq<char>) -> Option<ProjectType> {
    if s == "django"@ {
        Some(ProjectType::Django)
    } else if s == "react"@ {
        Some(ProjectType::React)
    } else if s == "next"@ {
        Some(ProjectType::Next)
    } else {
        None
    }
}

/// Every keyword of the catalog selects exactly the project type it is
/// listed for.
pub proof fn lemma_keyword_lookup(t: ProjectType)
    ensures
        spec_project_lookup(spec_keyword(t)) == Some(t),
{
    reveal_strlit("django");
    reveal_strlit("react");
    reveal_strlit("next");
    assert("django"@.len() == 6);
    assert("react"@.len() == 5);
    assert("next"@.len() == 4);
    match t {
        ProjectType::Django => {
        },
        ProjectType::React => {
            assert("react"@ != "django"@);
        },
        ProjectType::Next => {
            assert("next"@ != "django"@);
            assert("next"@ != "react"@);
        },
    }
}

/// Which flag a whole normalised token (no value attached) names, if
/// any. The `--name` spelling alone carries no value.
pub open spec fn spec_flag_for_spelling(s: Seq<char>) -> Option<FlagView> {
    if s == "--help"@ || s == "-h"@ {
        Some(FlagView::Help)
    } else if s == "--verbose"@ || s == "-v"@ {
        Some(FlagView::Verbose)
    } else if s == "--name"@ || s == "-n"@ {
        Some(FlagView::Name(None))
    } else if s == "--test"@ || s == "-t"@ {
        Some(FlagView::Test)
    } else {
        None
    }
}

/// Executable mirror of [`spec_project_lookup`].
pub fn lookup_project_type(s: &str) -> (r: Option<ProjectType>)
    ensures
        r == spec_project_lookup(s@),
{
    if str_eq(s, "django") {
        Some(ProjectType::Django)
    } else if str_eq(s, "react") {
        Some(ProjectType::React)
    } else if str_eq(s, "next") {
        Some(ProjectType::Next)
    } else {
        None
    }
}

/// Executable mirror of [`spec_flag_for_spelling`], handing back the
/// flag value the catalog lists for the spelling.
pub fn lookup_flag_spelling(s: &str) -> (r: Option<Flag>)
    ensures
        match (r, spec_flag_for_spelling(s@)) {
            (Some(f), Some(fv)) => f@ == fv,
            (None, None) => true,
            _ => false,
        },
{
    if str_eq(s, "--help") || str_eq(s, "-h") {
        Some(Flag::Help)
    } else if str_eq(s, "--verbose") || str_eq(s, "-v") {
        Some(Flag::Verbose)
    } else if str_eq(s, "--name") || str_eq(s, "-n") {
        Some(Flag::Name(Value(None)))
    } else if str_eq(s, "--test") || str_eq(s, "-t") {
        Some(Flag::Test)
    } else {
        None
    }
}

/// One row of the project-type catalog: the keyword that selects it,
/// the type it stands for, and the help text shown for it.
pub struct ProjectOption {
    pub keyword: String,
    pub project_type: ProjectType,
    pub description: String,
}

/// One row of the flag catalog: both spellings, the flag they name,
/// whether a value may be attached, and the help text shown for it.
pub struct FlagOption {
    pub long_form: String,
    pub short_form: String,
    pub flag: Flag,
    pub accepts_value: bool,
    pub description: String,
}

/// The project-type catalog: keywords are distinct, and each row's
/// keyword resolves to exactly the row's project type.
pub fn valid_project_options() -> (r: Vec<ProjectOption>)
    ensures
        r@.len() == 3,
        r@[0].keyword@ == "django"@ && r@[0].project_type == ProjectType::Django,
        r@[1].keyword@ == "react"@ && r@[1].project_type == ProjectType::React,
        r@[2].keyword@ == "next"@ && r@[2].project_type == ProjectType::Next,
        forall|i: int| 0 <= i < 3 ==> #[trigger] spec_project_lookup(r@[i].keyword@) == Some(
            r@[i].project_type,
        ),
        r@[0].keyword@ != r@[1].keyword@ && r@[0].keyword@ != r@[2].keyword@ && r@[1].keyword@
            != r@[2].keyword@,
{
    let mut r: Vec<ProjectOption> = Vec::new();
    r.push(
        ProjectOption {
            keyword: String::from_str("django"),
            project_type: ProjectType::Django,
            description: String::from_str(
                "Python Django web-framework project. Requires Python version 3. Sets up a virtual environment 'venv' using the standard venv module; Installs Django into venv using pip; Starts a Django project 'core'; Runs the Django dev server.",
            ),
        },
    );
    r.push(
        ProjectOption {
            keyword: String::from_str("react"),
            project_type: ProjectType::React,
            description: String::from_str(
                "Javascript (or TS) React web-app project with Vite. Currently requires/uses Node.js. Uses NPM and Vite CLI to set up a React project with further configurations prompted to user (piped from Vite CLI). Runs the Vite dev server",
            ),
        },
    );
    r.push(
        ProjectOption {
            keyword: String::from_str("next"),
            project_type: ProjectType::Next,
            description: String::from_str(
                "Javascript (or TS) Next web-framework project. Currently requires/uses Node.js. Uses NPM and Next CLI to set up a Next project with further configurations prompted to user (piped from Next CLI). Runs the Next dev server",
            ),
        },
    );
    proof {
        lemma_keyword_lookup(ProjectType::Django);
        lemma_keyword_lookup(ProjectType::React);
        lemma_keyword_lookup(ProjectType::Next);
        reveal_strlit("django");
        reveal_strlit("react");
        reveal_strlit("next");
    }
    r
}

/// The flag catalog: spellings are distinct, each row's spellings name
/// exactly the row's flag, and only the name flag accepts a value.
pub fn valid_flags() -> (r: Vec<FlagOption>)
    ensures
        r@.len() == 4,
        r@[0].long_form@ == "--help"@ && r@[0].short_form@ == "-h"@ && r@[0].flag@
            == FlagView::Help,
        r@[1].long_form@ == "--verbose"@ && r@[1].short_form@ == "-v"@ && r@[1].flag@
            == FlagView::Verbose,
        r@[2].long_form@ == "--name"@ && r@[2].short_form@ == "-n"@ && r@[2].flag@
            == FlagView::Name(None),
        r@[3].long_form@ == "--test"@ && r@[3].short_form@ == "-t"@ && r@[3].flag@
            == FlagView::Test,
        spec_flag_for_spelling(r@[0].long_form@) == Some(r@[0].flag@),
        spec_flag_for_spelling(r@[0].short_form@) == Some(r@[0].flag@),
        spec_flag_for_spelling(r@[1].long_form@) == Some(r@[1].flag@),
        spec_flag_for_spelling(r@[1].short_form@) == Some(r@[1].flag@),
        spec_flag_for_spelling(r@[2].long_form@) == Some(r@[2].flag@),
        spec_flag_for_spelling(r@[2].short_form@) == Some(r@[2].flag@),
        spec_flag_for_spelling(r@[3].long_form@) == Some(r@[3].flag@),
        spec_flag_for_spelling(r@[3].short_form@) == Some(r@[3].flag@),
        !r@[0].accepts_value && !r@[1].accepts_value && r@[2].accepts_value
            && !r@[3].accepts_value,
{
    let mut r: Vec<FlagOption> = Vec::new();
    r.push(
        FlagOption {
            long_form: String::from_str("--help"),
            short_form: String::from_str("-h"),
            flag: Flag::Help,
            accepts_value: false,
            description: String::from_str(
                "Show CLI help. If passed with an option, shows option description and optional flags with their descriptions.",
            ),
        },
    );
    r.push(
        FlagOption {
            long_form: String::from_str("--verbose"),
            short_form: String::from_str("-v"),
            flag: Flag::Verbose,
            accepts_value: false,
            description: String::from_str("Show all CLI output."),
        },
    );
    r.push(
        FlagOption {
            long_form: String::from_str("--name"),
            short_form: String::from_str("-n"),
            flag: Flag::Name(Value(None)),
            accepts_value: true,
            description: String::from_str("Set name of project (--name=<project_name>)."),
        },
    );
    r.push(
        FlagOption {
            long_form: String::from_str("--test"),
            short_form: String::from_str("-t"),
            flag: Flag::Test,
            accepts_value: false,
            description: String::from_str(
                "Set the target directory of the project folder to <currrent-directory>/test_runs.",
            ),
        },
    );
    proof {
        reveal_strlit("--help");
        reveal_strlit("-h");
        reveal_strlit("--verbose");
        reveal_strlit("-v");
        reveal_strlit("--name");
        reveal_strlit("-n");
        reveal_strlit("--test");
        reveal_strlit("-t");
        assert("-h"@[1] == 'h' && "-v"@[1] == 'v' && "-n"@[1] == 'n' && "-t"@[1] == 't');
        assert("--help"@[2] == 'h' && "--name"@[2] == 'n' && "--test"@[2] == 't');
        assert("-v"@ != "-h"@);
        assert("-n"@ != "-h"@ && "-n"@ != "-v"@);
        assert("-t"@ != "-h"@ && "-t"@ != "-v"@ && "-t"@ != "-n"@);
        assert("--name"@ != "--help"@);
        assert("--test"@ != "--help"@ && "--test"@ != "--name"@);
    }
    r
}

/// The general usage text shown when help is asked for without a
/// project type.
pub fn general_help_text() -> (r: String)
    ensures
        r@.len() > 0,
{
    let r = String::from_str(
        "Plateboiler CLI HELP:\nThis CLI program helps setup various types of dev projects, think npm projects and the likes. For the time being. It will only setup npm and python projects and allow configuration of common workflows.\nIt walks you through prompts asking for the type of project you want setup and any dependencies along with it, similar to more specific framework CLIs\n\nUSAGE:\nrun with: <project-type> <flags>",
    );
    proof {
        reveal_strlit(
            "Plateboiler CLI HELP:\nThis CLI program helps setup various types of dev projects, think npm projects and the likes. For the time being. It will only setup npm and python projects and allow configuration of common workflows.\nIt walks you through prompts asking for the type of project you want setup and any dependencies along with it, similar to more specific framework CLIs\n\nUSAGE:\nrun with: <project-type> <flags>",
        );
    }
    r
}

} // verus!
