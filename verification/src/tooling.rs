//! The tooling preflight: each project type declares probe groups — a
//! group is a set of alternative probe commands of which any one
//! succeeding confirms the tool, and all groups must be confirmed. The
//! verdict over the probe outcomes is computed here; spawning the
//! probes themselves is the caller's part.

use vstd::prelude::*;

use crate::data::{ProgramError, ProjectType};

verus! {

/// One probe group: alternative commands, any one of which succeeding
/// confirms the tool, and the diagnostic shown when none does.
pub struct ProbeGroup {
    pub commands: Vec<String>,
    pub missing_msg: String,
}

/// The mathematical shape of a probe group.
pub ghost struct ProbeGroupView {
    pub commands: Seq<Seq<char>>,
    pub missing_msg: Seq<char>,
}

impl View for ProbeGroup {
    type V = ProbeGroupView;

    open spec fn view(&self) -> ProbeGroupView {
        ProbeGroupView { commands: self.commands.deep_view(), missing_msg: self.missing_msg@ }
    }
}

/// The probe groups each project type requires, in the order they are
/// checked.
pub open spec fn spec_probe_groups(t: ProjectType) -> Seq<ProbeGroupView> {
    match t {
        ProjectType::Django => seq![
            ProbeGroupView {
                commands: seq!["python --version"@, "python3 -version"@],
                missing_msg:
                    "Could not confirm if python is installed, in order to set up a Django project."@,
            },
            ProbeGroupView {
                commands: seq!["python -m venv --help"@, "python3 -m venv --help"@],
                missing_msg:
                    "Could not confirm if the venv module is installed, in order to set up a Django project."@,
            },
            ProbeGroupView {
                commands: seq!["python -m pip --version"@, "python3 -m pip --version"@],
                missing_msg:
                    "Could not confirm if the pip package manager is installed, in order to set up a Django project."@,
            },
        ],
        ProjectType::React => seq![
            ProbeGroupView {
                commands: seq!["node --version"@],
                missing_msg:
                    "Could not confirm if Node js is installed, in order to set up a React project."@,
            },
            ProbeGroupView {
                commands: seq!["npm --version"@],
                missing_msg:
                    "Could not confirm if Npm is installed, in order to set up a React project."@,
            },
        ],
        ProjectType::Next => seq![
            ProbeGroupView {
                commands: seq!["node --version || deno --version"@],
                missing_msg:
                    "Could not confirm if any of Node, or Deno is installed, in order to set up a Next project."@,
            },
            ProbeGroupView {
                commands: seq!["npm --version || yarn --version || pnpm --version || deno --version"@],
                missing_msg:
                    "Could not confirm if any of Npm, Yarn, Pnpm, or Deno is installed, in order to set up a Next project."@,
            },
        ],
    }
}

/// A probe group is confirmed when any of its alternatives succeeded.
pub open spec fn spec_group_passes(outcomes: Seq<bool>) -> bool {
    exists|j: int| 0 <= j < outcomes.len() && outcomes[j]
}

/// Position of the first probe group that no alternative confirmed, or
/// `-1` when every group was confirmed.
pub open spec fn spec_first_failing(results: Seq<Seq<bool>>) -> int
    decreases results.len(),
{
    if results.len() == 0 {
        -1
    } else if !spec_group_passes(results[0]) {
        0
    } else {
        let r = spec_first_failing(results.drop_first());
        if r < 0 {
            -1
        } else {
            r + 1
        }
    }
}

/// What [`spec_first_failing`] returns, spelt out: either `-1` and all
/// groups passed, or the position of the first group that failed.
pub proof fn lemma_first_failing(results: Seq<Seq<bool>>)
    ensures
        spec_first_failing(results) == -1 ==> forall|j: int|
            0 <= j < results.len() ==> spec_group_passes(#[trigger] results[j]),
        spec_first_failing(results) != -1 ==> {
            let i = spec_first_failing(results);
            &&& 0 <= i < results.len()
            &&& !spec_group_passes(results[i])
            &&& forall|j: int| 0 <= j < i ==> spec_group_passes(#[trigger] results[j])
        },
    decreases results.len(),
{
    if results.len() > 0 && spec_group_passes(results[0]) {
        let t = results.drop_first();
        lemma_first_failing(t);
        if spec_first_failing(t) == -1 {
            assert forall|j: int| 0 <= j < results.len() implies spec_group_passes(
                #[trigger] results[j],
            ) by {
                if j > 0 {
                    assert(spec_group_passes(t[j - 1]));
                }
            }
        } else {
            let i = spec_first_failing(t) + 1;
            assert(results[i] == t[i - 1]);
            assert forall|j: int| 0 <= j < i implies spec_group_passes(
                #[trigger] results[j],
            ) by {
                if j > 0 {
                    assert(spec_group_passes(t[j - 1]));
                }
            }
        }
    }
}

/// Every project type requires at least one probe group, and when
/// every group fails, the preflight verdict is the first group's
/// diagnostic — the one naming the project type's missing tool.
pub proof fn lemma_all_groups_failing(t: ProjectType, results: Seq<Seq<bool>>)
    requires
        results.len() == spec_probe_groups(t).len(),
        forall|i: int| 0 <= i < results.len() ==> !spec_group_passes(#[trigger] results[i]),
    ensures
        spec_probe_groups(t).len() > 0,
        spec_first_failing(results) == 0,
{
    match t {
        ProjectType::Django => {
            assert(spec_probe_groups(t).len() == 3);
        },
        ProjectType::React => {
            assert(spec_probe_groups(t).len() == 2);
        },
        ProjectType::Next => {
            assert(spec_probe_groups(t).len() == 2);
        },
    }
    assert(!spec_group_passes(results[0]));
}

/// True when any probe outcome in the group succeeded.
pub fn any_probe_passed(outcomes: &Vec<bool>) -> (r: bool)
    ensures
        r == spec_group_passes(outcomes@),
{
    let mut i: usize = 0;
    while i < outcomes.len()
        invariant
            i <= outcomes.len(),
            forall|j: int| 0 <= j < i ==> !outcomes@[j],
        decreases outcomes.len() - i,
    {
        if outcomes[i] {
            return true;
        }
        i += 1;
    }
    false
}

impl ProjectType {
    /// The probe groups this project type requires, as
    /// [`spec_probe_groups`] lists them.
    pub fn tooling_probe_groups(&self) -> (r: Vec<ProbeGroup>)
        ensures
            r@.map_values(|g: ProbeGroup| g@) == spec_probe_groups(*self),
    {
        match self {
            ProjectType::Django => {
                let mut c0: Vec<String> = Vec::new();
                c0.push(String::from_str("python --version"));
                c0.push(String::from_str("python3 -version"));
                let mut c1: Vec<String> = Vec::new();
                c1.push(String::from_str("python -m venv --help"));
                c1.push(String::from_str("python3 -m venv --help"));
                let mut c2: Vec<String> = Vec::new();
                c2.push(String::from_str("python -m pip --version"));
                c2.push(String::from_str("python3 -m pip --version"));
                let mut r: Vec<ProbeGroup> = Vec::new();
                r.push(
                    ProbeGroup {
                        commands: c0,
                        missing_msg: String::from_str(
                            "Could not confirm if python is installed, in order to set up a Django project.",
                        ),
                    },
                );
                r.push(
                    ProbeGroup {
                        commands: c1,
                        missing_msg: String::from_str(
                            "Could not confirm if the venv module is installed, in order to set up a Django project.",
                        ),
                    },
                );
                r.push(
                    ProbeGroup {
                        commands: c2,
                        missing_msg: String::from_str(
                            "Could not confirm if the pip package manager is installed, in order to set up a Django project.",
                        ),
                    },
                );
                proof {
                    assert(r@[0]@.commands =~= spec_probe_groups(*self)[0].commands);
                    assert(r@[1]@.commands =~= spec_probe_groups(*self)[1].commands);
                    assert(r@[2]@.commands =~= spec_probe_groups(*self)[2].commands);
                    assert(r@.map_values(|g: ProbeGroup| g@) =~= spec_probe_groups(*self));
                }
                r
            },
            ProjectType::React => {
                let mut c0: Vec<String> = Vec::new();
                c0.push(String::from_str("node --version"));
                let mut c1: Vec<String> = Vec::new();
                c1.push(String::from_str("npm --version"));
                let mut r: Vec<ProbeGroup> = Vec::new();
                r.push(
                    ProbeGroup {
                        commands: c0,
                        missing_msg: String::from_str(
                            "Could not confirm if Node js is installed, in order to set up a React project.",
                        ),
                    },
                );
                r.push(
                    ProbeGroup {
                        commands: c1,
                        missing_msg: String::from_str(
                            "Could not confirm if Npm is installed, in order to set up a React project.",
                        ),
                    },
                );
                proof {
                    assert(r@[0]@.commands =~= spec_probe_groups(*self)[0].commands);
                    assert(r@[1]@.commands =~= spec_probe_groups(*self)[1].commands);
                    assert(r@.map_values(|g: ProbeGroup| g@) =~= spec_probe_groups(*self));
                }
                r
            },
            ProjectType::Next => {
                let mut c0: Vec<String> = Vec::new();
                c0.push(String::from_str("node --version || deno --version"));
                let mut c1: Vec<String> = Vec::new();
                c1.push(
                    String::from_str(
                        "npm --version || yarn --version || pnpm --version || deno --version",
                    ),
                );
                let mut r: Vec<ProbeGroup> = Vec::new();
                r.push(
                    ProbeGroup {
                        commands: c0,
                        missing_msg: String::from_str(
                            "Could not confirm if any of Node, or Deno is installed, in order to set up a Next project.",
                        ),
                    },
                );
                r.push(
                    ProbeGroup {
                        commands: c1,
                        missing_msg: String::from_str(
                            "Could not confirm if any of Npm, Yarn, Pnpm, or Deno is installed, in order to set up a Next project.",
                        ),
                    },
                );
                proof {
                    assert(r@[0]@.commands =~= spec_probe_groups(*self)[0].commands);
                    assert(r@[1]@.commands =~= spec_probe_groups(*self)[1].commands);
                    assert(r@.map_values(|g: ProbeGroup| g@) =~= spec_probe_groups(*self));
                }
                r
            },
        }
    }

    /// The preflight verdict over the probe outcomes, one outcome list
    /// per probe group: confirmed when every group has a passing
    /// alternative, else the diagnostic of the first unconfirmed group.
    pub fn check_for_required_tooling(&self, probe_results: &Vec<Vec<bool>>) -> (r: Result<
        (),
        ProgramError,
    >)
        requires
            probe_results.deep_view().len() == spec_probe_groups(*self).len(),
        ensures
            r is Ok <==> spec_first_failing(probe_results.deep_view()) == -1,
            (r matches Err(e) ==> {
                let i = spec_first_failing(probe_results.deep_view());
                &&& 0 <= i < spec_probe_groups(*self).len()
                &&& e@ == spec_probe_groups(*self)[i].missing_msg
            }),
    {
        let ghost dv = probe_results.deep_view();
        let groups = self.tooling_probe_groups();
        let mut i: usize = 0;
        while i < groups.len()
            invariant
                i <= groups.len(),
                dv == probe_results.deep_view(),
                dv.len() == groups.len(),
                probe_results.len() == groups.len(),
                groups@.map_values(|g: ProbeGroup| g@) == spec_probe_groups(*self),
                forall|j: int| 0 <= j < i ==> spec_group_passes(#[trigger] dv[j]),
            decreases groups.len() - i,
        {
            proof {
                assert(dv[i as int] == probe_results@[i as int]@);
            }
            if !any_probe_passed(&probe_results[i]) {
                proof {
                    lemma_first_failing(dv);
                    assert(spec_first_failing(dv) == i as int);
                    assert(groups@[i as int]@ == spec_probe_groups(*self)[i as int]);
                }
                return Err(ProgramError::new(groups[i].missing_msg.clone()));
            }
            i += 1;
        }
        proof {
            lemma_first_failing(dv);
        }
        Ok(())
    }
}

} // verus!
