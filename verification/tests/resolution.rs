use vp_cli::args::SynthesizableSubcommand;
use vp_cli::default_package::{default_package_target, resolve_default_package, DeclaredField, DefaultPackageStep};
use vp_cli::output::{AppTarget, Outcome, OutputKind};
use vp_cli::resolve::{
    consults_default_package, interactive_step, lists_packages, needs_elicitation_at, needs_elicitation, needs_elicitation_after_config, picked_target,
    picker_milestone, resolve_app_target, rows_step, ElicitationProbe, InteractiveStep, RowsStep,
    WorkspaceRootInfo,
};
use vp_cli::rows::{package_rows, PackageCandidate, PackageRow};
use vp_cli::runnable::{looks_runnable, RunnableSignals};

fn signals(pack_declared: bool, has_src_index_ts: bool, has_config_file: bool, has_index_html: bool) -> RunnableSignals {
    RunnableSignals { pack_declared, has_src_index_ts, build_declared: false, has_config_file, has_index_html }
}

fn lib_root() -> RunnableSignals {
    RunnableSignals {
        pack_declared: false,
        has_src_index_ts: false,
        build_declared: true,
        has_config_file: true,
        has_index_html: false,
    }
}

fn none() -> RunnableSignals {
    signals(false, false, false, false)
}

fn app() -> RunnableSignals {
    signals(false, false, true, true)
}

fn candidate(name: &str, path: &str, s: RunnableSignals) -> PackageCandidate {
    PackageCandidate {
        name: name.to_string(),
        path: path.to_string(),
        absolute: format!("/acme/{}", path),
        signals: s,
    }
}

fn row_summary(rows: &[PackageRow]) -> Vec<(String, String, bool)> {
    rows.iter().map(|r| (r.name.clone(), r.path.clone(), r.runnable)).collect()
}

fn lines(o: &Outcome) -> Vec<(OutputKind, String)> {
    o.lines.iter().map(|l| (l.kind, l.text.clone())).collect()
}

fn target_dir(o: &Outcome) -> Option<String> {
    match &o.target {
        AppTarget::Dir(d) => Some(d.clone()),
        _ => None,
    }
}

fn exit_code(o: &Outcome) -> Option<i32> {
    match &o.target {
        AppTarget::Exit(c) => Some(*c),
        _ => None,
    }
}

fn listing_workspace() -> Vec<PackageCandidate> {
    vec![
        candidate("acme", "", none()),
        candidate("web", "apps/web", app()),
        candidate("ui", "packages/ui", none()),
        candidate("admin", "apps/admin", app()),
    ]
}

#[test]
fn looks_runnable_rules() {
    // pack: a declared pack block or tsdown's default entry.
    assert!(looks_runnable("pack", false, &signals(true, false, false, false)));
    assert!(looks_runnable("pack", true, &signals(false, true, false, false)));
    assert!(!looks_runnable("pack", false, &signals(false, false, true, true)));
    // the root needs index.html; a shared root config does not count.
    assert!(!looks_runnable("dev", true, &signals(false, false, true, false)));
    assert!(looks_runnable("dev", true, &signals(false, false, false, true)));
    // a member needs a config file or index.html.
    assert!(looks_runnable("build", false, &signals(false, false, true, false)));
    assert!(looks_runnable("preview", false, &signals(false, false, false, true)));
    assert!(!looks_runnable("build", false, &none()));
    // a root with a declared build block builds, but has nothing to serve.
    assert!(looks_runnable("build", true, &lib_root()));
    assert!(!looks_runnable("dev", true, &lib_root()));
    assert!(!looks_runnable("preview", true, &lib_root()));
    assert!(looks_runnable("build", false, &lib_root()));
}

#[test]
fn root_only_workspace_runs_in_place() {
    let cands = vec![candidate("vp-config", "", signals(false, true, false, false))];
    match rows_step("pack", &cands) {
        RowsStep::Done(o) => {
            assert!(matches!(o.target, AppTarget::CurrentDir));
            assert!(o.lines.is_empty());
        }
        RowsStep::Elicit(_) => panic!("expected to run in place"),
    }
}

#[test]
fn lib_root_elicits_for_dev_and_builds_in_place() {
    let cands = vec![candidate("lib-root", "", lib_root()), candidate("ui", "packages/ui", none())];
    let RowsStep::Elicit(rows) = rows_step("dev", &cands) else {
        panic!("expected elicitation");
    };
    assert_eq!(row_summary(&rows), vec![("ui".to_string(), "packages/ui".to_string(), false)]);
    let InteractiveStep::Done(o) = interactive_step("dev", &rows, false) else {
        panic!("expected the listing");
    };
    assert_eq!(o.lines[0].text, "`vp dev` at the workspace root needs a target package.");
    assert_eq!(o.lines[3].text, "    ui  packages/ui");
    assert_eq!(o.lines[6].text, "  Or run every package's dev script:  vp run -r dev");
    match rows_step("build", &cands) {
        RowsStep::Done(o) => {
            assert!(matches!(o.target, AppTarget::CurrentDir));
            assert!(o.lines.is_empty());
        }
        RowsStep::Elicit(_) => panic!("a library root builds in place"),
    }
}

#[test]
fn rows_rank_runnable_first_then_by_path() {
    let rows = package_rows("build", &listing_workspace());
    assert_eq!(
        row_summary(&rows),
        vec![
            ("admin".to_string(), "apps/admin".to_string(), true),
            ("web".to_string(), "apps/web".to_string(), true),
            ("ui".to_string(), "packages/ui".to_string(), false),
        ]
    );
    assert_eq!(rows[0].absolute, "/acme/apps/admin");
}

#[test]
fn runnable_root_is_a_dot_row() {
    let cands = vec![
        candidate("runnable-root", "", signals(false, false, true, true)),
        candidate("ui", "packages/ui", none()),
    ];
    let rows = package_rows("build", &cands);
    assert_eq!(
        row_summary(&rows),
        vec![
            ("runnable-root".to_string(), ".".to_string(), true),
            ("ui".to_string(), "packages/ui".to_string(), false),
        ]
    );
}

#[test]
fn paths_compare_by_code_point_and_ties_keep_their_order() {
    let cands = vec![
        candidate("b", "pkg/b", none()),
        candidate("B", "pkg/B", none()),
        candidate("e-acute", "pkg/\u{e9}", none()),
        candidate("z", "pkg/z", none()),
        candidate("first", "pkg/same", none()),
        candidate("second", "pkg/same", none()),
        candidate("short", "pkg", none()),
    ];
    let rows = package_rows("dev", &cands);
    let names: Vec<String> = rows.iter().map(|r| r.name.clone()).collect();
    assert_eq!(names, vec!["short", "B", "b", "first", "second", "z", "e-acute"]);
}

#[test]
fn no_rows_runs_in_place() {
    let cands = vec![candidate("acme", "", none())];
    match rows_step("dev", &cands) {
        RowsStep::Done(o) => {
            assert!(matches!(o.target, AppTarget::CurrentDir));
            assert!(o.lines.is_empty());
        }
        RowsStep::Elicit(_) => panic!("expected no rows"),
    }
}

#[test]
fn non_interactive_listing_text() {
    let rows = package_rows("build", &listing_workspace());
    let InteractiveStep::Done(o) = interactive_step("build", &rows, false) else {
        panic!("expected the listing");
    };
    assert_eq!(exit_code(&o), Some(1));
    assert_eq!(
        lines(&o),
        vec![
            (OutputKind::Error, "`vp build` at the workspace root needs a target package.".to_string()),
            (OutputKind::Stderr, "".to_string()),
            (OutputKind::Stderr, "  Packages in this workspace:".to_string()),
            (OutputKind::Stderr, "    admin  apps/admin".to_string()),
            (OutputKind::Stderr, "    web    apps/web".to_string()),
            (OutputKind::Stderr, "    ui     packages/ui".to_string()),
            (OutputKind::Stderr, "".to_string()),
            (OutputKind::Stderr, "  Pass a directory:  vp -C apps/admin build".to_string()),
            (OutputKind::Stderr, "  Or run every package's build script:  vp run -r build".to_string()),
        ]
    );
}

#[test]
fn listing_pads_by_characters_to_the_byte_width() {
    // The name column is as wide as the longest name in bytes ("é" is two).
    let cands = vec![candidate("\u{e9}", "a", none()), candidate("ab", "b", none())];
    let rows = package_rows("dev", &cands);
    let InteractiveStep::Done(o) = interactive_step("dev", &rows, false) else {
        panic!("expected the listing");
    };
    assert_eq!(o.lines[3].text, "    \u{e9}   a");
    assert_eq!(o.lines[4].text, "    ab  b");
}

#[test]
fn single_runnable_auto_selects() {
    let cands = vec![
        candidate("acme", "", none()),
        candidate("ui", "packages/ui", none()),
        candidate("web", "apps/web", app()),
    ];
    let rows = package_rows("build", &cands);
    let InteractiveStep::Done(o) = interactive_step("build", &rows, true) else {
        panic!("expected auto-selection");
    };
    assert_eq!(target_dir(&o), Some("/acme/apps/web".to_string()));
    assert_eq!(
        lines(&o),
        vec![
            (OutputKind::Stdout, "Selected package: web (apps/web)".to_string()),
            (OutputKind::Stdout, "Tip: run this directly with `vp -C apps/web build`".to_string()),
        ]
    );
}

#[test]
fn pack_auto_selects_the_default_entry_library() {
    let cands = vec![
        candidate("acme", "", none()),
        candidate("app", "apps/app", app()),
        candidate("lib", "packages/lib", signals(false, true, false, false)),
    ];
    let rows = package_rows("pack", &cands);
    let InteractiveStep::Done(o) = interactive_step("pack", &rows, true) else {
        panic!("expected auto-selection");
    };
    assert_eq!(o.lines[0].text, "Selected package: lib (packages/lib)");
    assert_eq!(o.lines[1].text, "Tip: run this directly with `vp -C packages/lib pack`");
}

#[test]
fn runnable_root_runs_in_place_among_members() {
    let cands = vec![
        candidate("runnable-root", "", signals(false, false, false, true)),
        candidate("ui", "packages/ui", none()),
        candidate("web", "apps/web", app()),
    ];
    match rows_step("build", &cands) {
        RowsStep::Done(o) => {
            assert!(matches!(o.target, AppTarget::CurrentDir));
            assert!(o.lines.is_empty());
        }
        RowsStep::Elicit(_) => panic!("expected to run in place"),
    }
}

#[test]
fn several_candidates_run_the_picker() {
    let rows = package_rows("build", &listing_workspace());
    let InteractiveStep::RunPicker { prompt, items } = interactive_step("build", &rows, true) else {
        panic!("expected the picker");
    };
    assert_eq!(prompt, "Select a package to build (\u{2191}/\u{2193}, Enter to run, type to search):");
    assert_eq!(items.len(), 3);
    assert_eq!(items[0].label, "admin apps/admin");
    assert_eq!(items[0].display_name, "admin");
    assert_eq!(items[0].description, "apps/admin");
    assert_eq!(items[2].label, "ui packages/ui");
}

#[test]
fn picker_outcomes() {
    let rows = package_rows("build", &listing_workspace());
    let cancelled = picked_target("build", &rows, None);
    assert_eq!(exit_code(&cancelled), Some(130));
    assert!(cancelled.lines.is_empty());
    let picked = picked_target("build", &rows, Some(1));
    assert_eq!(target_dir(&picked), Some("/acme/apps/web".to_string()));
    assert_eq!(picked.lines[0].text, "Selected package: web (apps/web)");
    assert_eq!(picked.lines[1].text, "Tip: run this directly with `vp -C apps/web build`");
}

#[test]
fn picker_milestones() {
    assert_eq!(picker_milestone("", 0), "package-select::0");
    assert_eq!(picker_milestone("web", 0), "package-select:web:0");
    assert_eq!(picker_milestone("a", 1234567890), "package-select:a:1234567890");
}

#[test]
fn default_package_steps() {
    assert!(matches!(resolve_default_package(None), DefaultPackageStep::NotDeclared));
    match resolve_default_package(Some(DeclaredField::JsonString("./frontend".to_string()))) {
        DefaultPackageStep::CheckDirectory(dir) => assert_eq!(dir, "./frontend"),
        _ => panic!("expected a directory check"),
    }
    let DefaultPackageStep::Done(o) = resolve_default_package(Some(DeclaredField::JsonOther("42".to_string()))) else {
        panic!("expected an error");
    };
    assert_eq!(exit_code(&o), Some(1));
    assert_eq!(lines(&o), vec![(OutputKind::Error, "defaultPackage must be a string of a directory, got: 42".to_string())]);
    let DefaultPackageStep::Done(o) = resolve_default_package(Some(DeclaredField::NonStatic)) else {
        panic!("expected an error");
    };
    assert_eq!(exit_code(&o), Some(1));
    assert_eq!(
        o.lines[0].text,
        "defaultPackage in vite.config.ts must be a static string literal so vp can read it without executing the config"
    );
}

#[test]
fn default_package_directory() {
    let o = default_package_target("pack", "./packages/ui", "/shop/packages/ui".to_string(), true);
    assert_eq!(target_dir(&o), Some("/shop/packages/ui".to_string()));
    assert_eq!(lines(&o), vec![(OutputKind::Note, "vp pack: using ./packages/ui (defaultPackage)".to_string())]);
    let o = default_package_target("build", "./packages/nope", "/shop/packages/nope".to_string(), false);
    assert_eq!(exit_code(&o), Some(1));
    assert_eq!(
        lines(&o),
        vec![(OutputKind::Error, "defaultPackage points to a missing directory: ./packages/nope".to_string())]
    );
}

#[test]
fn only_bare_app_commands_are_resolved() {
    let to_args = |a: &[&str]| a.iter().map(|s| s.to_string()).collect::<Vec<_>>();
    assert_eq!(resolve_app_target(&SynthesizableSubcommand::Dev { args: to_args(&["--port", "4000"]) }), Some("dev"));
    assert_eq!(resolve_app_target(&SynthesizableSubcommand::Build { args: to_args(&["apps/web"]) }), None);
    assert_eq!(resolve_app_target(&SynthesizableSubcommand::Pack { args: to_args(&["--help"]) }), None);
    assert_eq!(resolve_app_target(&SynthesizableSubcommand::Lint { args: vec![] }), None);
    assert_eq!(resolve_app_target(&SynthesizableSubcommand::Build { args: to_args(&["-c", "lib.config.ts"]) }), None);
}

#[test]
fn workspace_root_detection() {
    let root = |rel: &str, non_workspace: bool| Some(WorkspaceRootInfo { rel_from_root: rel.to_string(), non_workspace_package: non_workspace });
    assert!(lists_packages(&root("", false)));
    assert!(!lists_packages(&root("apps/web", false)));
    assert!(!lists_packages(&root("", true)));
    assert!(!lists_packages(&None));
}

#[test]
fn needs_elicitation_probes() {
    let root = |rel: &str, non_workspace: bool| Some(WorkspaceRootInfo { rel_from_root: rel.to_string(), non_workspace_package: non_workspace });
    assert_eq!(needs_elicitation(&SynthesizableSubcommand::Test { args: vec![] }), ElicitationProbe::Answer(false));
    assert_eq!(needs_elicitation(&SynthesizableSubcommand::Preview { args: vec![] }), ElicitationProbe::FindWorkspaceRoot);
    assert_eq!(needs_elicitation(&SynthesizableSubcommand::Preview { args: vec!["src".to_string()] }), ElicitationProbe::Answer(false));
    assert_eq!(
        needs_elicitation(&SynthesizableSubcommand::Build { args: vec!["-c".to_string(), "lib.config.ts".to_string()] }),
        ElicitationProbe::Answer(false)
    );
    assert_eq!(needs_elicitation_at(&root("packages/ui", false)), ElicitationProbe::Answer(false));
    assert_eq!(needs_elicitation_at(&root("", false)), ElicitationProbe::Answer(true));
    assert_eq!(needs_elicitation_at(&root("", true)), ElicitationProbe::ReadDefaultPackage);
    assert_eq!(needs_elicitation_at(&None), ElicitationProbe::ReadDefaultPackage);
    assert_eq!(needs_elicitation_after_config(true), ElicitationProbe::Answer(true));
    assert_eq!(needs_elicitation_after_config(false), ElicitationProbe::Answer(false));
}

#[test]
fn default_package_is_a_root_pointer() {
    let root = |rel: &str, non_workspace: bool| Some(WorkspaceRootInfo { rel_from_root: rel.to_string(), non_workspace_package: non_workspace });
    // A member's own defaultPackage is ignored.
    assert!(!consults_default_package(&root("packages/ui", false)));
    assert!(!consults_default_package(&root("src", true)));
    // The workspace root, a standalone package root, and a repo outside any JS workspace consult it.
    assert!(consults_default_package(&root("", false)));
    assert!(consults_default_package(&root("", true)));
    assert!(consults_default_package(&None));
}
