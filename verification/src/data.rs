//! The tool's data types and the verified argument resolver: raw
//! command-line tokens become a validated request of at most one project
//! type plus a sequence of flags, or a descriptive error. The spec-level
//! model of resolution, [`spec_resolve`], is the contract every
//! executable piece is held to.

use vstd::prelude::*;

use crate::catalog::{
    lemma_keyword_lookup, lookup_flag_spelling, lookup_project_type, spec_flag_for_spelling,
    spec_keyword, spec_project_lookup,
};
use crate::text::{
    find_char, first_index, is_space, lemma_first_index, lemma_plain_token, lower_char,
    normalize_token, spec_norm, str_eq,
};

verus! {

/// Whether a call carried out any visible work.
#[derive(Debug, PartialEq, Eq, Structural)]
pub enum DidSomething {
    Yes,
    No,
}

/// A terminal error of the whole run, carrying the text shown to the
/// operator.
#[derive(Debug)]
pub struct ProgramError {
    message: String,
}

impl View for ProgramError {
    type V = Seq<char>;

    closed spec fn view(&self) -> Seq<char> {
        self.message@
    }
}

impl ProgramError {
    pub fn new(message: String) -> (r: Self)
        ensures
            r@ == message@,
    {
        ProgramError { message }
    }

    pub fn msg(&self) -> (r: &str)
        ensures
            r@ == self@,
    {
        self.message.as_str()
    }
}

/// The category of starter project to scaffold.
#[derive(Debug, Clone, Copy, PartialEq, Eq, Structural)]
pub enum ProjectType {
    Django,
    React,
    Next,
}

/// The value attached to a flag, when one was given.
#[derive(Debug, PartialEq, Clone)]
pub struct Value(pub Option<String>);

impl View for Value {
    type V = Option<Seq<char>>;

    open spec fn view(&self) -> Option<Seq<char>> {
        match self.0 {
            Some(s) => Some(s@),
            None => None,
        }
    }
}

/// An optional modifier to the run, possibly carrying a value.
#[derive(Debug, PartialEq, Clone)]
pub enum Flag {
    Help,
    Verbose,
    Name(Value),
    Test,
}

/// The mathematical shape of a resolved flag.
pub ghost enum FlagView {
    Help,
    Verbose,
    Name(Option<Seq<char>>),
    Test,
}

impl View for Flag {
    type V = FlagView;

    open spec fn view(&self) -> FlagView {
        match self {
            Flag::Help => FlagView::Help,
            Flag::Verbose => FlagView::Verbose,
            Flag::Name(v) => FlagView::Name(v@),
            Flag::Test => FlagView::Test,
        }
    }
}

/// Why a token stream could not be resolved, with the offending
/// (normalised) token.
#[derive(Debug)]
pub enum ResolutionError {
    UnknownProjectType(String),
    UnknownFlag(String),
    DuplicateProjectType(String),
    FlagRejectsValue(String),
}

/// The mathematical shape of a resolution error.
pub ghost enum ResolutionErrorView {
    UnknownProjectType(Seq<char>),
    UnknownFlag(Seq<char>),
    DuplicateProjectType(Seq<char>),
    FlagRejectsValue(Seq<char>),
}

impl View for ResolutionError {
    type V = ResolutionErrorView;

    open spec fn view(&self) -> ResolutionErrorView {
        match self {
            ResolutionError::UnknownProjectType(t) => ResolutionErrorView::UnknownProjectType(t@),
            ResolutionError::UnknownFlag(t) => ResolutionErrorView::UnknownFlag(t@),
            ResolutionError::DuplicateProjectType(t) => ResolutionErrorView::DuplicateProjectType(
                t@,
            ),
            ResolutionError::FlagRejectsValue(t) => ResolutionErrorView::FlagRejectsValue(t@),
        }
    }
}

/// The diagnostic text shown for a resolution error.
pub open spec fn spec_resolution_message(e: ResolutionErrorView) -> Seq<char> {
    match e {
        ResolutionErrorView::UnknownProjectType(t) => "'"@ + t
            + "' is not a valid project type, run again with --help or -h for more info."@,
        ResolutionErrorView::UnknownFlag(t) => "'"@ + t
            + "' is not a valid flag, run again with --help or -h for more info."@,
        ResolutionErrorView::DuplicateProjectType(t) =>
            "You can only provide one project type! Found extra type '"@ + t + "'"@,
        ResolutionErrorView::FlagRejectsValue(k) => "Flag '"@ + k
            + "' does not accept a value, run again with --help or -h for more info."@,
    }
}

impl ResolutionError {
    /// The diagnostic text for this error, naming the offending token.
    pub fn message(&self) -> (r: String)
        ensures
            r@ == spec_resolution_message(self@),
    {
        match self {
            ResolutionError::UnknownProjectType(t) => {
                let mut m = String::from_str("'");
                m.append(t.as_str());
                m.append(
                    "' is not a valid project type, run again with --help or -h for more info.",
                );
                m
            },
            ResolutionError::UnknownFlag(t) => {
                let mut m = String::from_str("'");
                m.append(t.as_str());
                m.append("' is not a valid flag, run again with --help or -h for more info.");
                m
            },
            ResolutionError::DuplicateProjectType(t) => {
                let mut m = String::from_str(
                    "You can only provide one project type! Found extra type '",
                );
                m.append(t.as_str());
                m.append("'");
                m
            },
            ResolutionError::FlagRejectsValue(k) => {
                let mut m = String::from_str("Flag '");
                m.append(k.as_str());
                m.append(
                    "' does not accept a value, run again with --help or -h for more info.",
                );
                m
            },
        }
    }

    /// The same diagnostic, wrapped as a terminal program error.
    pub fn to_program_error(&self) -> (r: ProgramError)
        ensures
            r@ == spec_resolution_message(self@),
    {
        ProgramError::new(self.message())
    }
}

/// The resolved, validated request: at most one project type and the
/// flags in the order they were given.
#[derive(Debug)]
pub struct ProgramArguments {
    project_type: Option<ProjectType>,
    flags: Vec<Flag>,
}

/// The mathematical shape of a resolved request.
pub ghost struct ArgsView {
    pub project: Option<ProjectType>,
    pub flags: Seq<FlagView>,
}

impl View for ProgramArguments {
    type V = ArgsView;

    closed spec fn view(&self) -> ArgsView {
        ArgsView { project: self.project_type, flags: self.flags@.map_values(|f: Flag| f@) }
    }
}

/// A normalised token is taken as a flag exactly when it starts with
/// the flag prefix.
pub open spec fn spec_is_flag_token(t: Seq<char>) -> bool {
    t.len() > 0 && t[0] == '-'
}

/// What resolving one normalised flag token gives: a flag, possibly
/// carrying the value written after the first `=`, or the error the
/// catalog calls for.
pub open spec fn spec_flag_lookup(t: Seq<char>) -> Result<FlagView, ResolutionErrorView> {
    let i = first_index(t, '=');
    if i >= 0 {
        let key = t.subrange(0, i);
        let value = t.subrange(i + 1, t.len() as int);
        if key == "--name"@ || key == "-n"@ {
            Ok(FlagView::Name(Some(value)))
        } else if spec_flag_for_spelling(key) is Some {
            Err(ResolutionErrorView::FlagRejectsValue(key))
        } else {
            Err(ResolutionErrorView::UnknownFlag(key))
        }
    } else {
        match spec_flag_for_spelling(t) {
            Some(f) => Ok(f),
            None => Err(ResolutionErrorView::UnknownFlag(t)),
        }
    }
}

/// Resolution of the tokens from position `i` on, with the project type
/// and flags gathered so far. One pass, left to right, failing fast.
pub open spec fn spec_resolve_from(
    tokens: Seq<Seq<char>>,
    i: int,
    project: Option<ProjectType>,
    flags: Seq<FlagView>,
) -> Result<ArgsView, ResolutionErrorView>
    decreases tokens.len() - i,
{
    if i < 0 || i >= tokens.len() {
        Ok(ArgsView { project, flags })
    } else {
        let t = spec_norm(tokens[i]);
        if spec_is_flag_token(t) {
            match spec_flag_lookup(t) {
                Ok(f) => spec_resolve_from(tokens, i + 1, project, flags.push(f)),
                Err(e) => Err(e),
            }
        } else if project is None {
            match spec_project_lookup(t) {
                Some(p) => spec_resolve_from(tokens, i + 1, Some(p), flags),
                None => Err(ResolutionErrorView::UnknownProjectType(t)),
            }
        } else {
            Err(ResolutionErrorView::DuplicateProjectType(t))
        }
    }
}

/// What resolving a whole token stream gives. An empty stream resolves
/// to no project type and no flags; errors are terminal.
pub open spec fn spec_resolve(tokens: Seq<Seq<char>>) -> Result<ArgsView, ResolutionErrorView> {
    spec_resolve_from(tokens, 0, None, Seq::empty())
}

impl ProgramArguments {
    /// Which project type a normalised selector token names, or the
    /// unrecognised-project-type error.
    pub fn map_string_to_project_type(s: &str) -> (r: Result<ProjectType, ResolutionError>)
        ensures
            match spec_project_lookup(s@) {
                Some(p) => r == Ok::<ProjectType, ResolutionError>(p),
                None => r matches Err(e) && e@ == ResolutionErrorView::UnknownProjectType(s@),
            },
    {
        match lookup_project_type(s) {
            Some(p) => Ok(p),
            None => Err(ResolutionError::UnknownProjectType(String::from_str(s))),
        }
    }

    /// Which flag a normalised token that holds a `=` separator names:
    /// the key is looked up, and only the name flag takes the value.
    pub fn map_flag_with_value(s: &str) -> (r: Result<Flag, ResolutionError>)
        requires
            first_index(s@, '=') >= 0,
        ensures
            match (r, spec_flag_lookup(s@)) {
                (Ok(f), Ok(fv)) => f@ == fv,
                (Err(e), Err(ev)) => e@ == ev,
                _ => false,
            },
    {
        proof {
            lemma_first_index(s@, '=');
        }
        let i = match find_char(s, '=') {
            Some(i) => i,
            None => {
                proof {
                    assert(false);
                }
                0
            },
        };
        let len = s.unicode_len();
        let key = s.substring_char(0, i);
        let value = s.substring_char(i + 1, len);
        if str_eq(key, "--name") || str_eq(key, "-n") {
            Ok(Flag::Name(Value(Some(String::from_str(value)))))
        } else {
            match lookup_flag_spelling(key) {
                Some(_) => Err(ResolutionError::FlagRejectsValue(String::from_str(key))),
                None => Err(ResolutionError::UnknownFlag(String::from_str(key))),
            }
        }
    }

    /// Which flag a normalised token names, per the value-splitting rule:
    /// a token with `=` is split at the first occurrence, anything else
    /// is looked up whole.
    pub fn map_string_to_flag(s: &str) -> (r: Result<Flag, ResolutionError>)
        ensures
            match (r, spec_flag_lookup(s@)) {
                (Ok(f), Ok(fv)) => f@ == fv,
                (Err(e), Err(ev)) => e@ == ev,
                _ => false,
            },
    {
        match find_char(s, '=') {
            Some(_) => Self::map_flag_with_value(s),
            None => {
                match lookup_flag_spelling(s) {
                    Some(f) => Ok(f),
                    None => Err(ResolutionError::UnknownFlag(String::from_str(s))),
                }
            },
        }
    }

    /// Resolve the raw token stream, exactly as [`spec_resolve`] says:
    /// each token is trimmed and lowercased, flag tokens are looked up in
    /// the catalog, the first other token selects the project type, a
    /// second one is an error.
    pub fn build(raw_args: Vec<String>) -> (r: Result<Self, ResolutionError>)
        ensures
            (match r {
                Ok(args) => spec_resolve(raw_args.deep_view()) matches Ok(m) && args@ == m,
                Err(e) => spec_resolve(raw_args.deep_view()) matches Err(me) && e@ == me,
            }),
    {
        let ghost dv = raw_args.deep_view();
        let mut project_type: Option<ProjectType> = None;
        let mut flags: Vec<Flag> = Vec::new();
        let n = raw_args.len();
        let mut idx: usize = 0;
        proof {
            assert(flags@.map_values(|f: Flag| f@) =~= Seq::<FlagView>::empty());
        }
        while idx < n
            invariant
                n == raw_args.len(),
                dv == raw_args.deep_view(),
                idx <= n,
                spec_resolve(dv) == spec_resolve_from(
                    dv,
                    idx as int,
                    project_type,
                    flags@.map_values(|f: Flag| f@),
                ),
            decreases n - idx,
        {
            proof {
                assert(dv[idx as int] == raw_args@[idx as int]@);
            }
            let arg = normalize_token(raw_args[idx].as_str());
            let ghost flags_before = flags@.map_values(|f: Flag| f@);
            if arg.as_str().unicode_len() > 0 && arg.as_str().get_char(0) == '-' {
                match Self::map_string_to_flag(arg.as_str()) {
                    Ok(f) => {
                        flags.push(f);
                        proof {
                            assert(flags@.map_values(|f: Flag| f@) =~= flags_before.push(
                                flags@.last()@,
                            ));
                        }
                    },
                    Err(e) => {
                        return Err(e);
                    },
                }
            } else if project_type.is_none() {
                match Self::map_string_to_project_type(arg.as_str()) {
                    Ok(p) => {
                        project_type = Some(p);
                    },
                    Err(e) => {
                        return Err(e);
                    },
                }
            } else {
                return Err(ResolutionError::DuplicateProjectType(arg));
            }
            idx += 1;
        }
        Ok(ProgramArguments { project_type, flags })
    }

    /// The project type the request selected, if any.
    pub fn get_project_type(&self) -> (r: &Option<ProjectType>)
        ensures
            *r == self@.project,
    {
        &self.project_type
    }

    /// The flags of the request, in the order they were given.
    pub fn get_flags(&self) -> (r: &Vec<Flag>)
        ensures
            r@.map_values(|f: Flag| f@) == self@.flags,
    {
        &self.flags
    }
}

/// Whether the help flag occurs among the resolved flags.
pub open spec fn spec_has_help(flags: Seq<FlagView>) -> bool {
    exists|i: int| 0 <= i < flags.len() && flags[i] is Help
}

/// Whether the verbose flag occurs among the resolved flags.
pub open spec fn spec_has_verbose(flags: Seq<FlagView>) -> bool {
    exists|i: int| 0 <= i < flags.len() && flags[i] is Verbose
}

/// Whether the test-mode flag occurs among the resolved flags.
pub open spec fn spec_has_test(flags: Seq<FlagView>) -> bool {
    exists|i: int| 0 <= i < flags.len() && flags[i] is Test
}

/// The project name the flags supply: the value of the last name flag
/// that carries one, or nothing.
pub open spec fn spec_project_name(flags: Seq<FlagView>) -> Option<Seq<char>>
    decreases flags.len(),
{
    if flags.len() == 0 {
        None
    } else {
        match flags.last() {
            FlagView::Name(Some(v)) => Some(v),
            _ => spec_project_name(flags.drop_last()),
        }
    }
}

impl Flag {
    /// Whether step-by-step progress logging was asked for.
    pub fn is_verbose(flags: &Vec<Flag>) -> (r: bool)
        ensures
            r == spec_has_verbose(flags@.map_values(|f: Flag| f@)),
    {
        let ghost fv = flags@.map_values(|f: Flag| f@);
        let mut i: usize = 0;
        while i < flags.len()
            invariant
                i <= flags.len(),
                fv == flags@.map_values(|f: Flag| f@),
                forall|j: int| 0 <= j < i ==> !(fv[j] is Verbose),
            decreases flags.len() - i,
        {
            match &flags[i] {
                Flag::Verbose => {
                    proof {
                        assert(fv[i as int] is Verbose);
                    }
                    return true;
                },
                _ => {},
            }
            i += 1;
        }
        false
    }

    /// Whether the run was asked to nest the project under the staging
    /// directory.
    pub fn is_test_run(flags: &Vec<Flag>) -> (r: bool)
        ensures
            r == spec_has_test(flags@.map_values(|f: Flag| f@)),
    {
        let ghost fv = flags@.map_values(|f: Flag| f@);
        let mut i: usize = 0;
        while i < flags.len()
            invariant
                i <= flags.len(),
                fv == flags@.map_values(|f: Flag| f@),
                forall|j: int| 0 <= j < i ==> !(fv[j] is Test),
            decreases flags.len() - i,
        {
            match &flags[i] {
                Flag::Test => {
                    proof {
                        assert(fv[i as int] is Test);
                    }
                    return true;
                },
                _ => {},
            }
            i += 1;
        }
        false
    }

    /// Whether the request asks for help: the caller prints the usage
    /// text exactly when this answers yes, and then does nothing else.
    pub fn handle_help_flag(prog_args: &ProgramArguments) -> (r: DidSomething)
        ensures
            r == DidSomething::Yes <==> spec_has_help(prog_args@.flags),
    {
        let flags = prog_args.get_flags();
        let ghost fv = prog_args@.flags;
        let mut i: usize = 0;
        while i < flags.len()
            invariant
                i <= flags.len(),
                fv == flags@.map_values(|f: Flag| f@),
                fv == prog_args@.flags,
                forall|j: int| 0 <= j < i ==> !(fv[j] is Help),
            decreases flags.len() - i,
        {
            match &flags[i] {
                Flag::Help => {
                    proof {
                        assert(fv[i as int] is Help);
                        assert(prog_args@.flags[i as int] is Help);
                    }
                    return DidSomething::Yes;
                },
                _ => {},
            }
            i += 1;
        }
        DidSomething::No
    }

    /// The project name supplied by the flags: the value of the last
    /// name flag that carries one.
    pub fn get_project_name(flags: &Vec<Flag>) -> (r: Option<String>)
        ensures
            match (r, spec_project_name(flags@.map_values(|f: Flag| f@))) {
                (Some(s), Some(v)) => s@ == v,
                (None, None) => true,
                _ => false,
            },
    {
        let ghost fv = flags@.map_values(|f: Flag| f@);
        let mut i: usize = flags.len();
        proof {
            assert(fv.subrange(0, fv.len() as int) =~= fv);
        }
        while i > 0
            invariant
                i <= flags.len(),
                fv == flags@.map_values(|f: Flag| f@),
                spec_project_name(fv) == spec_project_name(fv.subrange(0, i as int)),
            decreases i,
        {
            let idx = i - 1;
            proof {
                assert(fv.subrange(0, i as int).last() == fv[idx as int]);
                assert(fv.subrange(0, i as int).drop_last() =~= fv.subrange(0, idx as int));
            }
            match &flags[idx] {
                Flag::Name(v) => {
                    match &v.0 {
                        Some(s) => {
                            return Some(s.clone());
                        },
                        None => {},
                    }
                },
                _ => {},
            }
            i = idx;
        }
        None
    }
}

/// Resolving a one-token input that is exactly a catalog keyword
/// succeeds and yields that project type with an empty flag list.
pub proof fn lemma_keyword_token_resolves(t: ProjectType)
    ensures
        spec_resolve(seq![spec_keyword(t)]) == Ok::<ArgsView, ResolutionErrorView>(
            ArgsView { project: Some(t), flags: Seq::empty() },
        ),
{
    lemma_keyword_lookup(t);
    let kw = spec_keyword(t);
    match t {
        ProjectType::Django => {
            reveal_strlit("django");
            assert forall|i: int|
                0 <= i < "django"@.len() implies (lower_char(#[trigger] "django"@[i])
                == "django"@[i] && !is_space("django"@[i]) && "django"@[i] != '=') by {}
            lemma_plain_token("django"@);
            assert("django"@[0] != '-');
        },
        ProjectType::React => {
            reveal_strlit("react");
            assert forall|i: int|
                0 <= i < "react"@.len() implies (lower_char(#[trigger] "react"@[i]) == "react"@[i]
                && !is_space("react"@[i]) && "react"@[i] != '=') by {}
            lemma_plain_token("react"@);
            assert("react"@[0] != '-');
        },
        ProjectType::Next => {
            reveal_strlit("next");
            assert forall|i: int|
                0 <= i < "next"@.len() implies (lower_char(#[trigger] "next"@[i]) == "next"@[i]
                && !is_space("next"@[i]) && "next"@[i] != '=') by {}
            lemma_plain_token("next"@);
            assert("next"@[0] != '-');
        },
    }
    let tokens = seq![kw];
    assert(tokens[0] == kw);
    assert(spec_norm(kw) == kw);
    assert(!spec_is_flag_token(kw));
    assert(spec_resolve_from(tokens, 1, Some(t), Seq::empty()) == Ok::<
        ArgsView,
        ResolutionErrorView,
    >(ArgsView { project: Some(t), flags: Seq::empty() }));
}

/// Resolving a one-token input that is exactly a flag spelling of the
/// catalog succeeds and yields no project type and just that flag.
pub proof fn lemma_spelling_token_resolves(s: Seq<char>, f: FlagView)
    requires
        spec_flag_for_spelling(s) == Some(f),
    ensures
        spec_resolve(seq![s]) == Ok::<ArgsView, ResolutionErrorView>(
            ArgsView { project: None, flags: seq![f] },
        ),
{
    reveal_strlit("--help");
    reveal_strlit("-h");
    reveal_strlit("--verbose");
    reveal_strlit("-v");
    reveal_strlit("--name");
    reveal_strlit("-n");
    reveal_strlit("--test");
    reveal_strlit("-t");
    if s == "--help"@ {
        assert forall|i: int|
            0 <= i < "--help"@.len() implies (lower_char(#[trigger] "--help"@[i]) == "--help"@[i]
            && !is_space("--help"@[i]) && "--help"@[i] != '=') by {}
        lemma_plain_token("--help"@);
        assert("--help"@[0] == '-');
    } else if s == "-h"@ {
        assert forall|i: int|
            0 <= i < "-h"@.len() implies (lower_char(#[trigger] "-h"@[i]) == "-h"@[i] && !is_space(
            "-h"@[i]) && "-h"@[i] != '=') by {}
        lemma_plain_token("-h"@);
        assert("-h"@[0] == '-');
    } else if s == "--verbose"@ {
        assert forall|i: int|
            0 <= i < "--verbose"@.len() implies (lower_char(#[trigger] "--verbose"@[i])
            == "--verbose"@[i] && !is_space("--verbose"@[i]) && "--verbose"@[i] != '=') by {}
        lemma_plain_token("--verbose"@);
        assert("--verbose"@[0] == '-');
    } else if s == "-v"@ {
        assert forall|i: int|
            0 <= i < "-v"@.len() implies (lower_char(#[trigger] "-v"@[i]) == "-v"@[i] && !is_space(
            "-v"@[i]) && "-v"@[i] != '=') by {}
        lemma_plain_token("-v"@);
        assert("-v"@[0] == '-');
    } else if s == "--name"@ {
        assert forall|i: int|
            0 <= i < "--name"@.len() implies (lower_char(#[trigger] "--name"@[i]) == "--name"@[i]
            && !is_space("--name"@[i]) && "--name"@[i] != '=') by {}
        lemma_plain_token("--name"@);
        assert("--name"@[0] == '-');
    } else if s == "-n"@ {
        assert forall|i: int|
            0 <= i < "-n"@.len() implies (lower_char(#[trigger] "-n"@[i]) == "-n"@[i] && !is_space(
            "-n"@[i]) && "-n"@[i] != '=') by {}
        lemma_plain_token("-n"@);
        assert("-n"@[0] == '-');
    } else if s == "--test"@ {
        assert forall|i: int|
            0 <= i < "--test"@.len() implies (lower_char(#[trigger] "--test"@[i]) == "--test"@[i]
            && !is_space("--test"@[i]) && "--test"@[i] != '=') by {}
        lemma_plain_token("--test"@);
        assert("--test"@[0] == '-');
    } else {
        assert forall|i: int|
            0 <= i < "-t"@.len() implies (lower_char(#[trigger] "-t"@[i]) == "-t"@[i] && !is_space(
            "-t"@[i]) && "-t"@[i] != '=') by {}
        lemma_plain_token("-t"@);
        assert("-t"@[0] == '-');
    }
    let tokens = seq![s];
    assert(tokens[0] == s);
    assert(spec_norm(s) == s);
    assert(spec_is_flag_token(s));
    assert(spec_flag_lookup(s) == Ok::<FlagView, ResolutionErrorView>(f));
    assert(Seq::<FlagView>::empty().push(f) =~= seq![f]);
    assert(spec_resolve_from(tokens, 1, None, seq![f]) == Ok::<ArgsView, ResolutionErrorView>(
        ArgsView { project: None, flags: seq![f] },
    ));
}

/// A second selector token is never taken: when the first token names
/// a project type and another non-flag token follows, resolution fails
/// with the multiple-project-types error naming the extra token.
pub proof fn lemma_second_selector_rejected(t0: Seq<char>, t1: Seq<char>)
    requires
        spec_project_lookup(spec_norm(t0)) is Some,
        !spec_is_flag_token(spec_norm(t1)),
    ensures
        spec_resolve(seq![t0, t1]) == Err::<ArgsView, ResolutionErrorView>(
            ResolutionErrorView::DuplicateProjectType(spec_norm(t1)),
        ),
{
    reveal_strlit("django");
    reveal_strlit("react");
    reveal_strlit("next");
    let n0 = spec_norm(t0);
    assert(n0 == "django"@ || n0 == "react"@ || n0 == "next"@);
    assert(n0[0] != '-');
    let tokens = seq![t0, t1];
    assert(tokens[0] == t0 && tokens[1] == t1);
    match spec_project_lookup(n0) {
        Some(p) => {
            assert(spec_resolve_from(tokens, 1, Some(p), Seq::empty())
                == Err::<ArgsView, ResolutionErrorView>(
                ResolutionErrorView::DuplicateProjectType(spec_norm(t1)),
            ));
        },
        None => {
            assert(false);
        },
    }
}

/// An unrecognised non-flag token fails resolution with the
/// unrecognised-project-type error naming it.
pub proof fn lemma_unknown_selector_rejected(t: Seq<char>)
    requires
        !spec_is_flag_token(spec_norm(t)),
        spec_project_lookup(spec_norm(t)) is None,
    ensures
        spec_resolve(seq![t]) == Err::<ArgsView, ResolutionErrorView>(
            ResolutionErrorView::UnknownProjectType(spec_norm(t)),
        ),
{
    let tokens = seq![t];
    assert(tokens[0] == t);
}

/// What the top level does with a resolved request.
pub enum RunDecision {
    /// Help was asked for: print it and end without side effects.
    ShowHelp,
    /// Check tooling for this project type, then orchestrate it.
    Proceed { project_type: ProjectType },
    /// Neither help nor a project type was given.
    NoProject { error: ProgramError },
}

/// Decide the run from a resolved request: help wins, else the
/// selected project type proceeds, else the run fails for want of a
/// project type.
pub fn plan_run(args: &ProgramArguments) -> (r: RunDecision)
    ensures
        spec_has_help(args@.flags) ==> r is ShowHelp,
        (!spec_has_help(args@.flags) && args@.project is Some) ==> (r matches
            RunDecision::Proceed { project_type } && Some(project_type) == args@.project),
        !spec_has_help(args@.flags) && args@.project is None ==> (r matches RunDecision::NoProject {
            error,
        } && error@ == "No valid project type provided"@),
{
    match Flag::handle_help_flag(args) {
        DidSomething::Yes => RunDecision::ShowHelp,
        DidSomething::No => {
            match args.get_project_type() {
                Some(t) => RunDecision::Proceed { project_type: *t },
                None => RunDecision::NoProject {
                    error: ProgramError::new(String::from_str("No valid project type provided")),
                },
            }
        },
    }
}

} // verus!
