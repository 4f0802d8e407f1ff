//! The likely-runnable ranking signal of a package directory.
use vstd::prelude::*;
use crate::text::str_eq;

verus! {

/// What the likely-runnable heuristic reads of a package directory.
#[derive(Clone, Copy)]
pub struct RunnableSignals {
    /// The static config explicitly declares a `pack` block.
    pub pack_declared: bool,
    /// `src/index.ts` (tsdown's default entry) is a file.
    pub has_src_index_ts: bool,
    /// The static config explicitly declares a `build` block (such as a
    /// library build).
    pub build_declared: bool,
    /// A `vite.config.*` file exists.
    pub has_config_file: bool,
    /// `index.html` is a file.
    pub has_index_html: bool,
}

/// Does a directory with these signals look runnable for `command`?
///
/// `pack` needs a declared `pack` block or tsdown's default entry. The
/// workspace root needs a stronger signal than a config file: a shared root
/// config is the normal monorepo setup and must not make the root look like
/// an app. It needs `index.html`, or, for `build` only, a declared `build`
/// block (a library or SSR root builds, but has no app to serve). A member
/// package looks runnable with a config file or `index.html`.
pub open spec fn runnable(command: Seq<char>, is_root: bool, s: RunnableSignals) -> bool {
    if command == "pack"@ {
        s.pack_declared || s.has_src_index_ts
    } else if is_root {
        s.has_index_html || (command == "build"@ && s.build_declared)
    } else {
        s.has_config_file || s.has_index_html
    }
}

/// Heuristic ranking signal: does a directory look runnable for `command`?
/// Used for ordering and single-candidate auto-selection, never for hiding.
pub fn looks_runnable(command: &str, is_root: bool, signals: &RunnableSignals) -> (r: bool)
    ensures
        r == runnable(command@, is_root, *signals),
{
    if str_eq(command, "pack") {
        signals.pack_declared || signals.has_src_index_ts
    } else if is_root {
        signals.has_index_html || (str_eq(command, "build") && signals.build_declared)
    } else {
        signals.has_config_file || signals.has_index_html
    }
}

/// A shared root config never makes the workspace root look like an app:
/// outside `pack`, the root's answer does not depend on a config file, and a
/// root without `index.html` and without a declared `build` block is never
/// runnable. A member with a config file is runnable for every command but
/// `pack`.
pub proof fn law_shared_root_config_is_not_an_app(command: Seq<char>, s: RunnableSignals, has_config: bool)
    ensures
        command != "pack"@ ==> runnable(command, true, s) == runnable(
            command,
            true,
            RunnableSignals { has_config_file: has_config, ..s },
        ),
        command != "pack"@ && !s.has_index_html && !s.build_declared ==> !runnable(command, true, s),
        command != "pack"@ && s.has_index_html ==> runnable(command, true, s),
        command != "pack"@ && s.has_config_file ==> runnable(command, false, s),
{
}

/// A declared `build` block makes the root a target of `build` alone: a
/// library root builds, but has nothing to serve or preview.
pub proof fn law_build_block_only_builds(command: Seq<char>, s: RunnableSignals, declared: bool)
    ensures
        s.build_declared ==> runnable("build"@, true, s),
        command != "build"@ ==> runnable(command, true, s) == runnable(
            command,
            true,
            RunnableSignals { build_declared: declared, ..s },
        ),
{
    reveal_strlit("build");
    reveal_strlit("pack");
    assert("build"@.len() != "pack"@.len());
}

/// `pack` asks for a pack target: a declared `pack` block or tsdown's
/// default entry, for the root and members alike; an app's config file or
/// `index.html` does not count.
pub proof fn law_pack_needs_a_pack_target(is_root: bool, s: RunnableSignals)
    ensures
        runnable("pack"@, is_root, s) <==> (s.pack_declared || s.has_src_index_ts),
{
}

} // verus!
