//! CI-environment and interactive-terminal detection, on what the caller
//! read from the environment and the standard streams.
use vstd::prelude::*;
use crate::text::str_eq;

verus! {

/// Common CI environment variables.
pub open spec fn ci_env_var_names() -> Seq<Seq<char>> {
    seq![
        "CI"@, "CONTINUOUS_INTEGRATION"@, "GITHUB_ACTIONS"@, "GITLAB_CI"@, "CIRCLECI"@, "TRAVIS"@,
        "JENKINS_URL"@, "BUILDKITE"@, "DRONE"@,
        // AWS CodeBuild
        "CODEBUILD_BUILD_ID"@,
        // Azure Pipelines
        "TF_BUILD"@,
    ]
}

/// The environment variables whose presence marks a CI environment.
pub fn ci_env_vars() -> (v: Vec<&'static str>)
    ensures
        v@.len() == ci_env_var_names().len(),
        forall|i: int| 0 <= i < v@.len() ==> #[trigger] v@[i]@ == ci_env_var_names()[i],
{
    vec![
        "CI", "CONTINUOUS_INTEGRATION", "GITHUB_ACTIONS", "GITLAB_CI", "CIRCLECI", "TRAVIS",
        "JENKINS_URL", "BUILDKITE", "DRONE", "CODEBUILD_BUILD_ID", "TF_BUILD",
    ]
}

/// The environment is a CI environment when any of the CI variables is set.
pub open spec fn ci_from(present: Seq<bool>) -> bool {
    exists|i: int| 0 <= i < present.len() && #[trigger] present[i]
}

/// Whether any CI variable is set, given for each variable of `ci_env_vars`,
/// in order, whether the environment holds it.
pub fn is_ci_environment_with(present: &Vec<bool>) -> (r: bool)
    ensures
        r == ci_from(present@),
{
    let mut i: usize = 0;
    while i < present.len()
        invariant
            i <= present@.len(),
            forall|k: int| 0 <= k < i ==> !#[trigger] present@[k],
        decreases present@.len() - i,
    {
        if present[i] {
            return true;
        }
        i += 1;
    }
    false
}

/// vp can show interactive prompts when stdin and stdout are terminals, the
/// terminal is capable (`TERM` is unset, not Unicode, or not `dumb`), and this
/// is not a CI environment.
pub open spec fn interactive_of(stdin_tty: bool, stdout_tty: bool, term: Option<Seq<char>>, ci: bool) -> bool {
    &&& stdin_tty
    &&& stdout_tty
    &&& match term {
        Some(t) => t != "dumb"@,
        None => true,
    }
    &&& !ci
}

pub open spec fn term_view(term: Option<&str>) -> Option<Seq<char>> {
    match term {
        Some(t) => Some(t@),
        None => None,
    }
}

/// Whether vp can show interactive prompts, given whether stdin and stdout
/// are terminals, the value of `TERM` (`None` when unset or not Unicode), and
/// whether this is a CI environment.
pub fn is_interactive_with(stdin_is_terminal: bool, stdout_is_terminal: bool, term: Option<&str>, ci: bool) -> (r: bool)
    ensures
        r == interactive_of(stdin_is_terminal, stdout_is_terminal, term_view(term), ci),
{
    let capable = match term {
        Some(t) => !str_eq(t, "dumb"),
        None => true,
    };
    stdin_is_terminal && stdout_is_terminal && capable && !ci
}

/// No prompt ever appears in CI, on a `dumb` terminal, or when either stdin
/// or stdout is not a terminal.
pub proof fn law_never_interactive_in_ci_or_dumb_terminal(
    stdin_tty: bool,
    stdout_tty: bool,
    term: Option<Seq<char>>,
    ci: bool,
)
    ensures
        ci ==> !interactive_of(stdin_tty, stdout_tty, term, ci),
        term == Some("dumb"@) ==> !interactive_of(stdin_tty, stdout_tty, term, ci),
        !(stdin_tty && stdout_tty) ==> !interactive_of(stdin_tty, stdout_tty, term, ci),
{
}

/// The environment is CI exactly when some CI variable is set, whichever it
/// is; `CI` itself is one of them.
pub proof fn law_any_ci_variable_marks_ci(present: Seq<bool>, i: int)
    ensures
        ci_from(present) <==> present.contains(true),
        0 <= i < present.len() && present[i] ==> ci_from(present),
        ci_env_var_names().contains("CI"@),
        ci_env_var_names()[0] == "CI"@,
{
    if present.contains(true) {
        let k = choose|k: int| 0 <= k < present.len() && present[k] == true;
        assert(present[k]);
    }
    if ci_from(present) {
        let k = choose|k: int| 0 <= k < present.len() && #[trigger] present[k];
        assert(present[k] == true);
    }
    assert(ci_env_var_names()[0] == "CI"@);
}

/// Prompts are shown when stdin and stdout are terminals, `TERM` is anything
/// but `dumb` (or unset), and no CI variable is set.
pub proof fn law_interactive_when_everything_allows(term: Option<Seq<char>>)
    ensures
        interactive_of(true, true, None, false),
        (term matches Some(t) && t != "dumb"@) ==> interactive_of(true, true, term, false),
{
}

} // verus!
