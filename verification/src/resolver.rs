//! Target resolution as one state machine: from the subcommand, each step
//! names the outside question to answer next (the workspace lookup, the
//! `defaultPackage` field, the directory check, the packages, the terminal,
//! the picker), and the answer gives the next step, until a step finishes
//! with an outcome. The caller only answers the questions; the order in which
//! they are asked, and when they stop, is decided here.
use vstd::prelude::*;
use crate::args::SynthesizableSubcommand;
use crate::default_package::{DeclaredField, DeclaredView, DefaultPackageStep, DefaultPackageStepView,
    default_package_outcome, default_package_step, default_package_target, field_view,
    resolve_default_package};
use crate::output::{Outcome, OutcomeView, OutputKind, TargetView, current_dir};
use crate::resolve::{InteractiveStep, InteractiveStepView, PickerItem, RowsStep, RowsStepView,
    WorkspaceRootInfo, consults_default_package, consults_default_package_at, elicited_command,
    interactive_step, interactive_step_of, lists_packages, lists_packages_at, lookup_view,
    picked_outcome, picked_target, resolution, resolve_app_target, rows_step, rows_step_of};
use crate::rows::{CandidateView, PackageCandidate, PackageRow, RowView, candidate_views,
    package_rows_of, row_views};

verus! {

/// Where resolution stands: which answer it waits for, with what it keeps.
pub enum ResolveState {
    AwaitWorkspaceRoot { command: &'static str },
    /// `lists` is whether the invocation directory is the root of a real
    /// workspace.
    AwaitDefaultPackage { command: &'static str, lists: bool },
    AwaitDirectory { command: &'static str, dir: String },
    AwaitPackages { command: &'static str },
    AwaitTerminal { command: &'static str, rows: Vec<PackageRow> },
    AwaitPick { command: &'static str, rows: Vec<PackageRow> },
    Finished,
}

pub enum StateView {
    AwaitWorkspaceRoot { command: Seq<char> },
    AwaitDefaultPackage { command: Seq<char>, lists: bool },
    AwaitDirectory { command: Seq<char>, dir: Seq<char> },
    AwaitPackages { command: Seq<char> },
    AwaitTerminal { command: Seq<char>, rows: Seq<RowView> },
    AwaitPick { command: Seq<char>, rows: Seq<RowView> },
    Finished,
}

impl View for ResolveState {
    type V = StateView;

    open spec fn view(&self) -> StateView {
        match self {
            ResolveState::AwaitWorkspaceRoot { command } => StateView::AwaitWorkspaceRoot { command: command@ },
            ResolveState::AwaitDefaultPackage { command, lists } => StateView::AwaitDefaultPackage {
                command: command@,
                lists: *lists,
            },
            ResolveState::AwaitDirectory { command, dir } => StateView::AwaitDirectory {
                command: command@,
                dir: dir@,
            },
            ResolveState::AwaitPackages { command } => StateView::AwaitPackages { command: command@ },
            ResolveState::AwaitTerminal { command, rows } => StateView::AwaitTerminal {
                command: command@,
                rows: row_views(rows@),
            },
            ResolveState::AwaitPick { command, rows } => StateView::AwaitPick {
                command: command@,
                rows: row_views(rows@),
            },
            ResolveState::Finished => StateView::Finished,
        }
    }
}

/// An answer to the pending question.
pub enum ResolveEvent {
    /// The workspace lookup of the invocation directory (`None` when it failed).
    WorkspaceRoot(Option<WorkspaceRootInfo>),
    /// The `defaultPackage` field of the invocation directory's config.
    DefaultPackage(Option<DeclaredField>),
    /// The configured directory resolved against the invocation directory,
    /// and whether it is a directory.
    Directory { resolved: String, is_dir: bool },
    /// The workspace packages.
    Packages(Vec<PackageCandidate>),
    /// Whether the terminal is interactive.
    Terminal { interactive: bool },
    /// The picker's selection, `None` when it was cancelled.
    Picked(Option<usize>),
}

pub enum EventView {
    WorkspaceRoot(Option<(Seq<char>, bool)>),
    DefaultPackage(Option<DeclaredView>),
    Directory { resolved: Seq<char>, is_dir: bool },
    Packages(Seq<CandidateView>),
    Terminal { interactive: bool },
    Picked(Option<usize>),
}

impl View for ResolveEvent {
    type V = EventView;

    open spec fn view(&self) -> EventView {
        match self {
            ResolveEvent::WorkspaceRoot(l) => EventView::WorkspaceRoot(lookup_view(*l)),
            ResolveEvent::DefaultPackage(f) => EventView::DefaultPackage(field_view(*f)),
            ResolveEvent::Directory { resolved, is_dir } => EventView::Directory {
                resolved: resolved@,
                is_dir: *is_dir,
            },
            ResolveEvent::Packages(cs) => EventView::Packages(candidate_views(cs@)),
            ResolveEvent::Terminal { interactive } => EventView::Terminal { interactive: *interactive },
            ResolveEvent::Picked(p) => EventView::Picked(*p),
        }
    }
}

/// The next question, or the finished outcome.
pub enum ResolveAction {
    Finish(Outcome),
    FindWorkspaceRoot,
    ReadDefaultPackage,
    /// Resolve this directory against the invocation directory and check it.
    CheckDirectory(String),
    LoadPackages,
    QueryTerminal,
    /// Run the package picker with this prompt over these items.
    RunPicker { prompt: String, items: Vec<PickerItem> },
}

pub enum ActionView {
    Finish(OutcomeView),
    FindWorkspaceRoot,
    ReadDefaultPackage,
    CheckDirectory(Seq<char>),
    LoadPackages,
    QueryTerminal,
    RunPicker { prompt: Seq<char>, items: Seq<(Seq<char>, Seq<char>, Seq<char>)> },
}

impl View for ResolveAction {
    type V = ActionView;

    open spec fn view(&self) -> ActionView {
        match self {
            ResolveAction::Finish(o) => ActionView::Finish(o@),
            ResolveAction::FindWorkspaceRoot => ActionView::FindWorkspaceRoot,
            ResolveAction::ReadDefaultPackage => ActionView::ReadDefaultPackage,
            ResolveAction::CheckDirectory(d) => ActionView::CheckDirectory(d@),
            ResolveAction::LoadPackages => ActionView::LoadPackages,
            ResolveAction::QueryTerminal => ActionView::QueryTerminal,
            ResolveAction::RunPicker { prompt, items } => ActionView::RunPicker {
                prompt: prompt@,
                items: items@.map_values(|i: PickerItem| i@),
            },
        }
    }
}

pub open spec fn current_outcome() -> OutcomeView {
    OutcomeView { target: TargetView::CurrentDir, lines: Seq::empty() }
}

/// The row lists that resolution keeps are never empty.
pub open spec fn well_formed(state: StateView) -> bool {
    match state {
        StateView::AwaitTerminal { rows, .. } => rows.len() > 0,
        StateView::AwaitPick { rows, .. } => rows.len() > 0,
        _ => true,
    }
}

/// The event answers the state's pending question.
pub open spec fn answers(state: StateView, event: EventView) -> bool {
    match (state, event) {
        (StateView::AwaitWorkspaceRoot { .. }, EventView::WorkspaceRoot(_)) => true,
        (StateView::AwaitDefaultPackage { .. }, EventView::DefaultPackage(_)) => true,
        (StateView::AwaitDirectory { .. }, EventView::Directory { .. }) => true,
        (StateView::AwaitPackages { .. }, EventView::Packages(_)) => true,
        (StateView::AwaitTerminal { .. }, EventView::Terminal { .. }) => true,
        (StateView::AwaitPick { rows, .. }, EventView::Picked(p)) => p matches Some(i) ==> i < rows.len(),
        _ => false,
    }
}

/// The action is the question that the state waits on (a picker over one item
/// per kept row), or the state is finished.
pub open spec fn asks(state: StateView, action: ActionView) -> bool {
    match (state, action) {
        (StateView::AwaitWorkspaceRoot { .. }, ActionView::FindWorkspaceRoot) => true,
        (StateView::AwaitDefaultPackage { .. }, ActionView::ReadDefaultPackage) => true,
        (StateView::AwaitDirectory { dir, .. }, ActionView::CheckDirectory(asked)) => asked == dir,
        (StateView::AwaitPackages { .. }, ActionView::LoadPackages) => true,
        (StateView::AwaitTerminal { .. }, ActionView::QueryTerminal) => true,
        (StateView::AwaitPick { rows, .. }, ActionView::RunPicker { items, .. }) => items.len() == rows.len(),
        (StateView::Finished, ActionView::Finish(_)) => true,
        _ => false,
    }
}

/// Where resolution of a subcommand starts: a subcommand that is not a bare
/// app command finishes in the current directory; otherwise the workspace
/// lookup comes first.
pub open spec fn start_of(sub: SynthesizableSubcommand) -> (StateView, ActionView) {
    match elicited_command(sub) {
        None => (StateView::Finished, ActionView::Finish(current_outcome())),
        Some(command) => (StateView::AwaitWorkspaceRoot { command }, ActionView::FindWorkspaceRoot),
    }
}

/// One step: the state and the answer to its question give the next state
/// and the next question (or the outcome).
pub open spec fn advance_of(state: StateView, event: EventView) -> (StateView, ActionView) {
    let finish = |o: OutcomeView| (StateView::Finished, ActionView::Finish(o));
    match (state, event) {
        (StateView::AwaitWorkspaceRoot { command }, EventView::WorkspaceRoot(lookup)) => {
            if !consults_default_package_at(lookup) {
                finish(current_outcome())
            } else {
                (
                    StateView::AwaitDefaultPackage { command, lists: lists_packages_at(lookup) },
                    ActionView::ReadDefaultPackage,
                )
            }
        },
        (StateView::AwaitDefaultPackage { command, lists }, EventView::DefaultPackage(field)) => {
            match default_package_step(field) {
                DefaultPackageStepView::NotDeclared => if lists {
                    (StateView::AwaitPackages { command }, ActionView::LoadPackages)
                } else {
                    finish(current_outcome())
                },
                DefaultPackageStepView::CheckDirectory(dir) => (
                    StateView::AwaitDirectory { command, dir },
                    ActionView::CheckDirectory(dir),
                ),
                DefaultPackageStepView::Done(o) => finish(o),
            }
        },
        (StateView::AwaitDirectory { command, dir }, EventView::Directory { resolved, is_dir }) => {
            finish(default_package_outcome(command, dir, resolved, is_dir))
        },
        (StateView::AwaitPackages { command }, EventView::Packages(candidates)) => {
            match rows_step_of(package_rows_of(command, candidates)) {
                RowsStepView::Done(o) => finish(o),
                RowsStepView::Elicit(rows) => (
                    StateView::AwaitTerminal { command, rows },
                    ActionView::QueryTerminal,
                ),
            }
        },
        (StateView::AwaitTerminal { command, rows }, EventView::Terminal { interactive }) => {
            match interactive_step_of(command, rows, interactive) {
                InteractiveStepView::Done(o) => finish(o),
                InteractiveStepView::RunPicker { prompt, items } => (
                    StateView::AwaitPick { command, rows },
                    ActionView::RunPicker { prompt, items },
                ),
            }
        },
        (StateView::AwaitPick { command, rows }, EventView::Picked(picked)) => {
            finish(picked_outcome(command, rows, picked))
        },
        _ => finish(current_outcome()),
    }
}

/// The first step of resolving a subcommand's target.
pub fn start_resolution(subcommand: &SynthesizableSubcommand) -> (r: (ResolveState, ResolveAction))
    ensures
        (r.0@, r.1@) == start_of(*subcommand),
        well_formed(r.0@),
        asks(r.0@, r.1@),
{
    match resolve_app_target(subcommand) {
        None => (ResolveState::Finished, ResolveAction::Finish(current_dir())),
        Some(command) => (ResolveState::AwaitWorkspaceRoot { command }, ResolveAction::FindWorkspaceRoot),
    }
}

/// The next step, given the answer to the pending question.
pub fn advance(state: ResolveState, event: ResolveEvent) -> (r: (ResolveState, ResolveAction))
    requires
        well_formed(state@),
        answers(state@, event@),
    ensures
        (r.0@, r.1@) == advance_of(state@, event@),
        well_formed(r.0@),
        asks(r.0@, r.1@),
{
    let finish = |o: Outcome| -> (r: (ResolveState, ResolveAction))
        ensures
            r.0@ == StateView::Finished,
            r.1@ == ActionView::Finish(o@),
        { (ResolveState::Finished, ResolveAction::Finish(o)) };
    match state {
        ResolveState::AwaitWorkspaceRoot { command } => {
            let ResolveEvent::WorkspaceRoot(lookup) = event else { return finish(current_dir()) };
            if !consults_default_package(&lookup) {
                return finish(current_dir());
            }
            let lists = lists_packages(&lookup);
            (ResolveState::AwaitDefaultPackage { command, lists }, ResolveAction::ReadDefaultPackage)
        },
        ResolveState::AwaitDefaultPackage { command, lists } => {
            let ResolveEvent::DefaultPackage(field) = event else { return finish(current_dir()) };
            match resolve_default_package(field) {
                DefaultPackageStep::NotDeclared => if lists {
                    (ResolveState::AwaitPackages { command }, ResolveAction::LoadPackages)
                } else {
                    finish(current_dir())
                },
                DefaultPackageStep::CheckDirectory(dir) => {
                    let asked = dir.clone();
                    (ResolveState::AwaitDirectory { command, dir }, ResolveAction::CheckDirectory(asked))
                },
                DefaultPackageStep::Done(o) => finish(o),
            }
        },
        ResolveState::AwaitDirectory { command, dir } => {
            let ResolveEvent::Directory { resolved, is_dir } = event else { return finish(current_dir()) };
            finish(default_package_target(command, dir.as_str(), resolved, is_dir))
        },
        ResolveState::AwaitPackages { command } => {
            let ResolveEvent::Packages(candidates) = event else { return finish(current_dir()) };
            match rows_step(command, &candidates) {
                RowsStep::Done(o) => finish(o),
                RowsStep::Elicit(rows) => (ResolveState::AwaitTerminal { command, rows }, ResolveAction::QueryTerminal),
            }
        },
        ResolveState::AwaitTerminal { command, rows } => {
            let ResolveEvent::Terminal { interactive } = event else { return finish(current_dir()) };
            match interactive_step(command, &rows, interactive) {
                InteractiveStep::Done(o) => finish(o),
                InteractiveStep::RunPicker { prompt, items } => (
                    ResolveState::AwaitPick { command, rows },
                    ResolveAction::RunPicker { prompt, items },
                ),
            }
        },
        ResolveState::AwaitPick { command, rows } => {
            let ResolveEvent::Picked(picked) = event else { return finish(current_dir()) };
            finish(picked_target(command, &rows, picked))
        },
        ResolveState::Finished => finish(current_dir()),
    }
}

/// What the outside reports when asked: the workspace lookup, the
/// `defaultPackage` field, the resolved directory and whether it is one, the
/// package candidates, whether the terminal is interactive, and what the
/// picker returns.
pub struct Reports {
    pub lookup: Option<(Seq<char>, bool)>,
    pub field: Option<DeclaredView>,
    pub resolved: Seq<char>,
    pub is_dir: bool,
    pub candidates: Seq<CandidateView>,
    pub interactive: bool,
    pub picked: Option<usize>,
}

/// The answer that the reports give to a question.
pub open spec fn report(action: ActionView, r: Reports) -> EventView {
    match action {
        ActionView::FindWorkspaceRoot => EventView::WorkspaceRoot(r.lookup),
        ActionView::ReadDefaultPackage => EventView::DefaultPackage(r.field),
        ActionView::CheckDirectory(_) => EventView::Directory { resolved: r.resolved, is_dir: r.is_dir },
        ActionView::LoadPackages => EventView::Packages(r.candidates),
        ActionView::QueryTerminal => EventView::Terminal { interactive: r.interactive },
        ActionView::RunPicker { .. } => EventView::Picked(r.picked),
        ActionView::Finish(_) => EventView::Picked(r.picked),
    }
}

/// The outcome of answering each question from the reports, for at most
/// `fuel` questions.
pub open spec fn run(state: StateView, action: ActionView, r: Reports, fuel: nat) -> OutcomeView
    decreases fuel,
{
    match action {
        ActionView::Finish(o) => o,
        _ => if fuel == 0 {
            current_outcome()
        } else {
            let (next, asked) = advance_of(state, report(action, r));
            run(next, asked, r, (fuel - 1) as nat)
        },
    }
}

/// Stepping from the start and answering each question from the reports
/// finishes within five questions, with exactly the outcome of the
/// resolution order: not a bare app command, a workspace member, a
/// `defaultPackage`, the package listing, the terminal, the picker.
pub proof fn law_stepping_gives_resolution(sub: SynthesizableSubcommand, r: Reports)
    ensures
        run(start_of(sub).0, start_of(sub).1, r, 5) == resolution(
            sub,
            r.field,
            r.resolved,
            r.is_dir,
            r.lookup,
            r.candidates,
            r.interactive,
            r.picked,
        ),
{
    reveal_with_fuel(run, 6);
}

/// Answering the question that a step asks, of the kind it asks for (the
/// picker with an index among its items), always meets `advance`'s demands.
pub proof fn law_reports_answer_questions(state: StateView, action: ActionView, r: Reports)
    requires
        asks(state, action),
        !(action is Finish),
        action matches ActionView::RunPicker { items, .. } ==> (r.picked matches Some(i) ==> i
            < items.len()),
    ensures
        answers(state, report(action, r)),
{
}

/// After the workspace lookup, `defaultPackage` is read next exactly when the
/// invocation directory holds the root config: the lookup failed (no JS
/// workspace at all), or the directory is the root that the lookup found,
/// a workspace or a plain package. In a member the command finishes in place
/// with nothing printed.
pub proof fn law_default_package_read_at_the_root(command: Seq<char>, lookup: Option<(Seq<char>, bool)>)
    ensures
        (advance_of(StateView::AwaitWorkspaceRoot { command }, EventView::WorkspaceRoot(lookup)).1
            == ActionView::ReadDefaultPackage) <==> (lookup is None || lookup.unwrap().0.len() == 0),
        (lookup matches Some((rel, _)) && rel.len() > 0) ==> advance_of(
            StateView::AwaitWorkspaceRoot { command },
            EventView::WorkspaceRoot(lookup),
        ) == (StateView::Finished, ActionView::Finish(
            OutcomeView { target: TargetView::CurrentDir, lines: Seq::empty() },
        )),
{
}

/// Where the invocation directory holds the root config (outside any JS
/// workspace, or at the root the lookup found, whether a workspace or a plain
/// package), a declared string `defaultPackage` decides: an existing
/// directory becomes the target with the note `vp <command>: using <dir>
/// (defaultPackage)`, and a missing one fails with exit 1, whatever the
/// packages, the terminal and the picker would say.
pub proof fn law_default_package_directory_at_the_root(
    sub: SynthesizableSubcommand,
    dir: Seq<char>,
    resolved: Seq<char>,
    is_dir: bool,
    lookup: Option<(Seq<char>, bool)>,
    candidates: Seq<CandidateView>,
    interactive: bool,
    picked: Option<usize>,
)
    requires
        elicited_command(sub) is Some,
        lookup is None || lookup.unwrap().0.len() == 0,
    ensures
        is_dir ==> resolution(
            sub,
            Some(DeclaredView::JsonString(dir)),
            resolved,
            is_dir,
            lookup,
            candidates,
            interactive,
            picked,
        ) == (OutcomeView {
            target: TargetView::Dir(resolved),
            lines: seq![
                (
                    OutputKind::Note,
                    "vp "@ + elicited_command(sub).unwrap() + ": using "@ + dir + " (defaultPackage)"@,
                ),
            ],
        }),
        !is_dir ==> resolution(
            sub,
            Some(DeclaredView::JsonString(dir)),
            resolved,
            is_dir,
            lookup,
            candidates,
            interactive,
            picked,
        ) == (OutcomeView {
            target: TargetView::Exit(1),
            lines: seq![(OutputKind::Error, "defaultPackage points to a missing directory: "@ + dir)],
        }),
{
}

} // verus!
