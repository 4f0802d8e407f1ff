use vp_cli::args::SynthesizableSubcommand;
use vp_cli::default_package::DeclaredField;
use vp_cli::output::{AppTarget, OutputKind};
use vp_cli::resolve::WorkspaceRootInfo;
use vp_cli::resolver::{advance, start_resolution, ResolveAction, ResolveEvent, ResolveState};
use vp_cli::rows::PackageCandidate;
use vp_cli::runnable::RunnableSignals;

fn app() -> RunnableSignals {
    RunnableSignals { pack_declared: false, has_src_index_ts: false, build_declared: false, has_config_file: true, has_index_html: true }
}

fn none() -> RunnableSignals {
    RunnableSignals { pack_declared: false, has_src_index_ts: false, build_declared: false, has_config_file: false, has_index_html: false }
}

fn candidate(name: &str, path: &str, signals: RunnableSignals) -> PackageCandidate {
    PackageCandidate { name: name.to_string(), path: path.to_string(), absolute: format!("/acme/{}", path), signals }
}

fn root(rel: &str) -> Option<WorkspaceRootInfo> {
    Some(WorkspaceRootInfo { rel_from_root: rel.to_string(), non_workspace_package: false })
}

fn build() -> SynthesizableSubcommand {
    SynthesizableSubcommand::Build { args: vec![] }
}

fn step(state: ResolveState, event: ResolveEvent) -> (ResolveState, ResolveAction) {
    advance(state, event)
}

#[test]
fn non_app_commands_finish_at_once() {
    let (_, action) = start_resolution(&SynthesizableSubcommand::Lint { args: vec![] });
    let ResolveAction::Finish(o) = action else { panic!("expected to finish") };
    assert!(matches!(o.target, AppTarget::CurrentDir));
    let (_, action) = start_resolution(&SynthesizableSubcommand::Build { args: vec!["apps/web".to_string()] });
    assert!(matches!(action, ResolveAction::Finish(_)));
}

#[test]
fn questions_come_in_order_up_to_the_picker() {
    let (state, action) = start_resolution(&build());
    assert!(matches!(action, ResolveAction::FindWorkspaceRoot));
    let (state, action) = step(state, ResolveEvent::WorkspaceRoot(root("")));
    assert!(matches!(action, ResolveAction::ReadDefaultPackage));
    let (state, action) = step(state, ResolveEvent::DefaultPackage(None));
    assert!(matches!(action, ResolveAction::LoadPackages));
    let cands = vec![
        candidate("acme", "", none()),
        candidate("web", "apps/web", app()),
        candidate("admin", "apps/admin", app()),
    ];
    let (state, action) = step(state, ResolveEvent::Packages(cands));
    assert!(matches!(action, ResolveAction::QueryTerminal));
    let (state, action) = step(state, ResolveEvent::Terminal { interactive: true });
    let ResolveAction::RunPicker { prompt, items } = action else { panic!("expected the picker") };
    assert_eq!(prompt, "Select a package to build (\u{2191}/\u{2193}, Enter to run, type to search):");
    assert_eq!(items.len(), 2);
    let (state, action) = step(state, ResolveEvent::Picked(Some(1)));
    assert!(matches!(state, ResolveState::Finished));
    let ResolveAction::Finish(o) = action else { panic!("expected to finish") };
    match o.target {
        AppTarget::Dir(d) => assert_eq!(d, "/acme/apps/web"),
        _ => panic!("expected a directory"),
    }
    assert_eq!(o.lines[0].text, "Selected package: web (apps/web)");
}

#[test]
fn cancelled_picker_exits_130() {
    let (state, _) = start_resolution(&build());
    let (state, _) = step(state, ResolveEvent::WorkspaceRoot(root("")));
    let (state, _) = step(state, ResolveEvent::DefaultPackage(None));
    let cands = vec![candidate("web", "apps/web", app()), candidate("admin", "apps/admin", app())];
    let (state, _) = step(state, ResolveEvent::Packages(cands));
    let (state, _) = step(state, ResolveEvent::Terminal { interactive: true });
    let (_, action) = step(state, ResolveEvent::Picked(None));
    let ResolveAction::Finish(o) = action else { panic!("expected to finish") };
    assert!(matches!(o.target, AppTarget::Exit(130)));
    assert!(o.lines.is_empty());
}

#[test]
fn member_finishes_before_reading_the_config() {
    let (state, _) = start_resolution(&build());
    let (state, action) = step(state, ResolveEvent::WorkspaceRoot(root("packages/ui")));
    assert!(matches!(state, ResolveState::Finished));
    let ResolveAction::Finish(o) = action else { panic!("expected to finish") };
    assert!(matches!(o.target, AppTarget::CurrentDir));
    assert!(o.lines.is_empty());
}

#[test]
fn default_package_outside_a_workspace() {
    let (state, _) = start_resolution(&SynthesizableSubcommand::Dev { args: vec![] });
    let (state, action) = step(state, ResolveEvent::WorkspaceRoot(None));
    assert!(matches!(action, ResolveAction::ReadDefaultPackage));
    let (state, action) = step(state, ResolveEvent::DefaultPackage(Some(DeclaredField::JsonString("./frontend".to_string()))));
    let ResolveAction::CheckDirectory(dir) = action else { panic!("expected a directory check") };
    assert_eq!(dir, "./frontend");
    let (_, action) = step(state, ResolveEvent::Directory { resolved: "/shop/frontend".to_string(), is_dir: true });
    let ResolveAction::Finish(o) = action else { panic!("expected to finish") };
    match o.target {
        AppTarget::Dir(d) => assert_eq!(d, "/shop/frontend"),
        _ => panic!("expected a directory"),
    }
    assert_eq!(o.lines[0].kind, OutputKind::Note);
    assert_eq!(o.lines[0].text, "vp dev: using ./frontend (defaultPackage)");
}

#[test]
fn no_default_package_outside_a_workspace_runs_in_place() {
    let (state, _) = start_resolution(&build());
    let (state, _) = step(state, ResolveEvent::WorkspaceRoot(None));
    let (_, action) = step(state, ResolveEvent::DefaultPackage(None));
    let ResolveAction::Finish(o) = action else { panic!("expected to finish") };
    assert!(matches!(o.target, AppTarget::CurrentDir));
}

#[test]
fn non_interactive_listing_exits_1() {
    let (state, _) = start_resolution(&build());
    let (state, _) = step(state, ResolveEvent::WorkspaceRoot(root("")));
    let (state, _) = step(state, ResolveEvent::DefaultPackage(None));
    let cands = vec![candidate("web", "apps/web", app()), candidate("ui", "packages/ui", none())];
    let (state, _) = step(state, ResolveEvent::Packages(cands));
    let (_, action) = step(state, ResolveEvent::Terminal { interactive: false });
    let ResolveAction::Finish(o) = action else { panic!("expected to finish") };
    assert!(matches!(o.target, AppTarget::Exit(1)));
    assert_eq!(o.lines[3].text, "    web  apps/web");
}
