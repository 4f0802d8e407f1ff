//! Target elicitation for bare app commands at a workspace root.
//!
//! A bare `vp dev`/`build`/`preview`/`pack` at a workspace root has no target
//! and would silently run against the root. The resolution order: explicit
//! `-C`, positional targets and explicit config files skip elicitation
//! entirely; a workspace member runs in place; then `defaultPackage` from the
//! config in the invocation directory; then, at the root of a workspace, a
//! root that looks runnable runs in place, and otherwise the interactive
//! package picker (a package listing plus exit 1 when the terminal is not
//! interactive).
//!
//! Each function here is one decision of that resolution; `resolver` chains
//! them into the state machine that fixes their order, and the caller does
//! the reading, probing and prompting in between and hands the results back.
use vstd::prelude::*;
use crate::args::{SynthesizableSubcommand, app_command, app_command_parts, arg_views, bare, is_bare};
use crate::output::{AppTarget, Outcome, OutcomeView, OutputKind, OutputLine, TargetView, line,
    line_views, current_dir};
use crate::rows::{CandidateView, PackageCandidate, PackageRow, RowView, candidate_views, is_ranked,
    lemma_ranked_is_ranked, package_rows, package_rows_of, row_views};
use crate::rows::law_candidate_rows_listed;
use crate::order::chars_lt;
use crate::runnable::runnable;
use crate::text::{decimal, pad_right, push_decimal, push_spaces};
use crate::default_package::{DeclaredView, DefaultPackageStepView, default_package_outcome,
    default_package_step};

verus! {

/// The command whose target must be elicited: an app command with bare
/// arguments. `None` when the subcommand runs in the current directory.
pub open spec fn elicited_command(sub: SynthesizableSubcommand) -> Option<Seq<char>> {
    match app_command(sub) {
        Some((name, args)) => if bare(arg_views(args)) {
            Some(name)
        } else {
            None
        },
        None => None,
    }
}

/// The first decision: which app command needs its target resolved. `None`
/// means the command runs in the current directory (not an app command, or
/// arguments that are not bare).
pub fn resolve_app_target(subcommand: &SynthesizableSubcommand) -> (r: Option<&'static str>)
    ensures
        r is Some <==> elicited_command(*subcommand) is Some,
        r matches Some(c) ==> c@ == elicited_command(*subcommand).unwrap(),
{
    let Some((command, args)) = app_command_parts(subcommand) else {
        return None;
    };
    if !is_bare(args) {
        return None;
    }
    Some(command)
}

/// Where the invocation directory sits in its workspace.
pub struct WorkspaceRootInfo {
    /// The invocation directory relative to the workspace root.
    pub rel_from_root: String,
    /// The workspace file is a plain package, not a workspace.
    pub non_workspace_package: bool,
}

/// Packages are listed only at the root of a real workspace.
pub open spec fn lists_packages_at(lookup: Option<(Seq<char>, bool)>) -> bool {
    match lookup {
        Some((rel, non_workspace)) => rel.len() == 0 && !non_workspace,
        None => false,
    }
}

pub open spec fn lookup_view(lookup: Option<WorkspaceRootInfo>) -> Option<(Seq<char>, bool)> {
    match lookup {
        Some(info) => Some((info.rel_from_root@, info.non_workspace_package)),
        None => None,
    }
}

/// Whether the package listing applies: the workspace lookup succeeded and
/// the invocation directory is the root of a real workspace. Anything
/// unresolvable keeps running in the current directory.
pub fn lists_packages(lookup: &Option<WorkspaceRootInfo>) -> (r: bool)
    ensures
        r == lists_packages_at(lookup_view(*lookup)),
{
    match lookup {
        Some(info) => info.rel_from_root.as_str().is_empty() && !info.non_workspace_package,
        None => false,
    }
}

/// What comes after loading the workspace packages.
pub enum RowsStep {
    /// No candidate, or only the root itself: run in the current directory.
    Done(Outcome),
    /// Elicit a target among these rows (never empty).
    Elicit(Vec<PackageRow>),
}

pub enum RowsStepView {
    Done(OutcomeView),
    Elicit(Seq<RowView>),
}

impl View for RowsStep {
    type V = RowsStepView;

    open spec fn view(&self) -> RowsStepView {
        match self {
            RowsStep::Done(o) => RowsStepView::Done(o@),
            RowsStep::Elicit(rows) => RowsStepView::Elicit(row_views(rows@)),
        }
    }
}

/// Whether one of the rows is the workspace root itself.
pub open spec fn has_root_row(rows: Seq<RowView>) -> bool {
    exists|i: int| 0 <= i < rows.len() && #[trigger] rows[i].is_root
}

/// A workspace root that itself looks runnable for the command is the
/// command's target: it runs in place and prints nothing, with or without
/// members (this covers a single package whose workspace file only carries
/// settings, and a root that builds a library). Otherwise the members are the
/// rows to elicit among; with none, the command runs in place too.
pub open spec fn rows_step_of(rows: Seq<RowView>) -> RowsStepView {
    if rows.len() == 0 || has_root_row(rows) {
        RowsStepView::Done(OutcomeView { target: TargetView::CurrentDir, lines: Seq::empty() })
    } else {
        RowsStepView::Elicit(rows)
    }
}

/// Whether one of the rows is the workspace root.
fn contains_root_row(rows: &Vec<PackageRow>) -> (r: bool)
    ensures
        r == has_root_row(row_views(rows@)),
{
    let ghost rs = row_views(rows@);
    let mut i: usize = 0;
    while i < rows.len()
        invariant
            rs == row_views(rows@),
            i <= rows@.len(),
            forall|k: int| 0 <= k < i ==> !(#[trigger] rs[k]).is_root,
        decreases rows@.len() - i,
    {
        if rows[i].is_root {
            assert(rs[i as int].is_root);
            return true;
        }
        i += 1;
    }
    false
}

/// The rows to elicit among, or the current directory when there are none
/// or the root itself looks runnable.
pub fn rows_step(command: &str, candidates: &Vec<PackageCandidate>) -> (r: RowsStep)
    ensures
        r@ == rows_step_of(package_rows_of(command@, candidate_views(candidates@))),
{
    let rows = package_rows(command, candidates);
    if rows.len() == 0 || contains_root_row(&rows) {
        RowsStep::Done(current_dir())
    } else {
        RowsStep::Elicit(rows)
    }
}

/// Exactly one likely-runnable row leads (rows rank runnable first).
pub open spec fn single_runnable(rows: Seq<RowView>) -> bool {
    rows[0].runnable && (rows.len() < 2 || !rows[1].runnable)
}

pub open spec fn selected_line(row: RowView) -> Seq<char> {
    "Selected package: "@ + row.name + " ("@ + row.path + ")"@
}

pub open spec fn tip_line(command: Seq<char>, row: RowView) -> Seq<char> {
    "Tip: run this directly with `vp -C "@ + row.path + " "@ + command + "`"@
}

/// Running in a selected row: print the selection and the `-C` tip on stdout.
pub open spec fn selected_outcome(command: Seq<char>, row: RowView) -> OutcomeView {
    OutcomeView {
        target: TargetView::Dir(row.absolute),
        lines: seq![(OutputKind::Stdout, selected_line(row)), (OutputKind::Stdout, tip_line(command, row))],
    }
}

/// The length in bytes of the UTF-8 encoding of `s` (what `str::len` gives).
pub open spec fn byte_len(s: Seq<char>) -> usize {
    vstd::utf8::encode_utf8(s).len() as usize
}

/// The width of the name column: the longest name, in bytes.
pub open spec fn name_width(rows: Seq<RowView>) -> usize
    decreases rows.len(),
{
    if rows.len() == 0 {
        0
    } else {
        let w = name_width(rows.drop_last());
        let b = byte_len(rows.last().name);
        if w < b { b } else { w }
    }
}

pub open spec fn listing_row(row: RowView, width: usize) -> Seq<char> {
    "    "@ + pad_right(row.name, width as nat) + "  "@ + row.path
}

pub open spec fn listing_rows(rows: Seq<RowView>, width: usize) -> Seq<(OutputKind, Seq<char>)> {
    rows.map_values(|r: RowView| (OutputKind::Stderr, listing_row(r, width)))
}

pub open spec fn listing_head(command: Seq<char>) -> Seq<(OutputKind, Seq<char>)> {
    seq![
        (OutputKind::Error, "`vp "@ + command + "` at the workspace root needs a target package."@),
        (OutputKind::Stderr, ""@),
        (OutputKind::Stderr, "  Packages in this workspace:"@),
    ]
}

pub open spec fn listing_tail(command: Seq<char>, first: RowView) -> Seq<(OutputKind, Seq<char>)> {
    seq![
        (OutputKind::Stderr, ""@),
        (OutputKind::Stderr, "  Pass a directory:  vp -C "@ + first.path + " "@ + command),
        (OutputKind::Stderr, "  Or run every package's "@ + command + " script:  vp run -r "@ + command),
    ]
}

/// Without an interactive terminal: the error, the package listing and the
/// `-C` hint, then exit 1.
pub open spec fn listing_outcome(command: Seq<char>, rows: Seq<RowView>) -> OutcomeView {
    OutcomeView {
        target: TargetView::Exit(1),
        lines: listing_head(command) + listing_rows(rows, name_width(rows)) + listing_tail(command, rows[0]),
    }
}

/// One item of the fuzzy package picker.
pub struct PickerItem {
    /// What the fuzzy search matches: name and path.
    pub label: String,
    pub display_name: String,
    pub description: String,
}

impl View for PickerItem {
    type V = (Seq<char>, Seq<char>, Seq<char>);

    open spec fn view(&self) -> (Seq<char>, Seq<char>, Seq<char>) {
        (self.label@, self.display_name@, self.description@)
    }
}

pub open spec fn item_of(row: RowView) -> (Seq<char>, Seq<char>, Seq<char>) {
    (row.name + " "@ + row.path, row.name, row.path)
}

pub open spec fn picker_prompt_of(command: Seq<char>) -> Seq<char> {
    "Select a package to "@ + command + " (\u{2191}/\u{2193}, Enter to run, type to search):"@
}

/// What comes after asking whether the terminal is interactive.
pub enum InteractiveStep {
    Done(Outcome),
    /// Run the fuzzy picker with this prompt over these items (one per row).
    RunPicker { prompt: String, items: Vec<PickerItem> },
}

pub enum InteractiveStepView {
    Done(OutcomeView),
    RunPicker { prompt: Seq<char>, items: Seq<(Seq<char>, Seq<char>, Seq<char>)> },
}

impl View for InteractiveStep {
    type V = InteractiveStepView;

    open spec fn view(&self) -> InteractiveStepView {
        match self {
            InteractiveStep::Done(o) => InteractiveStepView::Done(o@),
            InteractiveStep::RunPicker { prompt, items } => InteractiveStepView::RunPicker {
                prompt: prompt@,
                items: items@.map_values(|i: PickerItem| i@),
            },
        }
    }
}

/// In an interactive terminal, exactly one likely-runnable row is selected
/// without a menu, and otherwise the picker runs; without one, the listing.
pub open spec fn interactive_step_of(command: Seq<char>, rows: Seq<RowView>, interactive: bool) -> InteractiveStepView {
    if interactive {
        if single_runnable(rows) {
            InteractiveStepView::Done(selected_outcome(command, rows[0]))
        } else {
            InteractiveStepView::RunPicker {
                prompt: picker_prompt_of(command),
                items: rows.map_values(|r: RowView| item_of(r)),
            }
        }
    } else {
        InteractiveStepView::Done(listing_outcome(command, rows))
    }
}

/// The outcome of the picker: Ctrl+C (`None`) exits 130 and runs nothing.
pub open spec fn picked_outcome(command: Seq<char>, rows: Seq<RowView>, picked: Option<usize>) -> OutcomeView {
    match picked {
        Some(i) => selected_outcome(command, rows[i as int]),
        None => OutcomeView { target: TargetView::Exit(130), lines: Seq::empty() },
    }
}

/// The selection lines and the target of a row.
fn select_row(command: &str, row: &PackageRow) -> (r: Outcome)
    ensures
        r@ == selected_outcome(command@, row@),
{
    let mut selected = String::from_str("Selected package: ");
    selected.append(row.name.as_str());
    selected.append(" (");
    selected.append(row.path.as_str());
    selected.append(")");
    let mut tip = String::from_str("Tip: run this directly with `vp -C ");
    tip.append(row.path.as_str());
    tip.append(" ");
    tip.append(command);
    tip.append("`");
    let ghost s = selected@;
    let ghost t = tip@;
    let mut lines: Vec<OutputLine> = Vec::new();
    lines.push(line(OutputKind::Stdout, selected));
    lines.push(line(OutputKind::Stdout, tip));
    proof {
        assert(line_views(lines@) =~= seq![(OutputKind::Stdout, s), (OutputKind::Stdout, t)]);
    }
    Outcome { target: AppTarget::Dir(row.absolute.clone()), lines }
}

/// The width of the name column.
fn names_width(rows: &Vec<PackageRow>) -> (w: usize)
    ensures
        w == name_width(row_views(rows@)),
{
    let ghost rs = row_views(rows@);
    let mut w: usize = 0;
    let mut i: usize = 0;
    proof {
        assert(rs.take(0) =~= Seq::<RowView>::empty());
    }
    while i < rows.len()
        invariant
            rs == row_views(rows@),
            i <= rows@.len(),
            w == name_width(rs.take(i as int)),
        decreases rows@.len() - i,
    {
        let b = rows[i].name.as_str().len();
        proof {
            assert(rs.take(i + 1).drop_last() =~= rs.take(i as int));
            assert(rs.take(i + 1).last() == rows@[i as int]@);
        }
        if w < b {
            w = b;
        }
        i += 1;
    }
    proof {
        assert(rs.take(rows@.len() as int) =~= rs);
    }
    w
}

/// One row of the listing: the name padded to the name column, then the path.
fn listing_line(row: &PackageRow, width: usize) -> (r: String)
    ensures
        r@ == listing_row(row@, width),
{
    let mut s = String::from_str("    ");
    s.append(row.name.as_str());
    let chars = row.name.as_str().unicode_len();
    if chars < width {
        push_spaces(&mut s, width - chars);
    }
    s.append("  ");
    s.append(row.path.as_str());
    proof {
        assert(s@ =~= listing_row(row@, width));
    }
    s
}

/// The package listing for a non-interactive terminal, then exit 1.
fn listing(command: &str, rows: &Vec<PackageRow>) -> (r: Outcome)
    requires
        rows@.len() > 0,
    ensures
        r@ == listing_outcome(command@, row_views(rows@)),
{
    let ghost rs = row_views(rows@);
    let width = names_width(rows);
    let mut lines: Vec<OutputLine> = Vec::new();
    let mut first = String::from_str("`vp ");
    first.append(command);
    first.append("` at the workspace root needs a target package.");
    lines.push(line(OutputKind::Error, first));
    lines.push(line(OutputKind::Stderr, String::from_str("")));
    lines.push(line(OutputKind::Stderr, String::from_str("  Packages in this workspace:")));
    let ghost head = listing_head(command@);
    proof {
        assert(line_views(lines@) =~= head);
    }
    let mut i: usize = 0;
    while i < rows.len()
        invariant
            rs == row_views(rows@),
            head == listing_head(command@),
            width == name_width(rs),
            i <= rows@.len(),
            line_views(lines@) == head + listing_rows(rs.take(i as int), width),
        decreases rows@.len() - i,
    {
        let text = listing_line(&rows[i], width);
        let ghost before = line_views(lines@);
        lines.push(line(OutputKind::Stderr, text));
        proof {
            assert(listing_rows(rs.take(i + 1), width) =~= listing_rows(rs.take(i as int), width).push(
                (OutputKind::Stderr, listing_row(rs[i as int], width)),
            ));
            assert(line_views(lines@) =~= before.push((OutputKind::Stderr, listing_row(rs[i as int], width))));
        }
        i += 1;
    }
    proof {
        assert(rs.take(rows@.len() as int) =~= rs);
    }
    let ghost middle = line_views(lines@);
    lines.push(line(OutputKind::Stderr, String::from_str("")));
    let mut pass = String::from_str("  Pass a directory:  vp -C ");
    pass.append(rows[0].path.as_str());
    pass.append(" ");
    pass.append(command);
    lines.push(line(OutputKind::Stderr, pass));
    let mut every = String::from_str("  Or run every package's ");
    every.append(command);
    every.append(" script:  vp run -r ");
    every.append(command);
    lines.push(line(OutputKind::Stderr, every));
    proof {
        assert(line_views(lines@) =~= middle + listing_tail(command@, rs[0]));
    }
    Outcome { target: AppTarget::Exit(1), lines }
}

/// The picker items, one per row.
fn picker_items(rows: &Vec<PackageRow>) -> (items: Vec<PickerItem>)
    ensures
        items@.map_values(|i: PickerItem| i@) == row_views(rows@).map_values(|r: RowView| item_of(r)),
{
    let mut items: Vec<PickerItem> = Vec::new();
    let mut i: usize = 0;
    while i < rows.len()
        invariant
            i <= rows@.len(),
            items@.len() == i,
            forall|k: int| 0 <= k < i ==> #[trigger] items@[k]@ == item_of(rows@[k]@),
        decreases rows@.len() - i,
    {
        let row = &rows[i];
        let mut label = row.name.clone();
        label.append(" ");
        label.append(row.path.as_str());
        items.push(PickerItem { label, display_name: row.name.clone(), description: row.path.clone() });
        i += 1;
    }
    proof {
        assert(items@.map_values(|i: PickerItem| i@) =~= row_views(rows@).map_values(|r: RowView| item_of(r)));
    }
    items
}

/// The decision once it is known whether the terminal is interactive.
pub fn interactive_step(command: &str, rows: &Vec<PackageRow>, interactive: bool) -> (r: InteractiveStep)
    requires
        rows@.len() > 0,
    ensures
        r@ == interactive_step_of(command@, row_views(rows@), interactive),
{
    if interactive {
        let single = rows[0].runnable && (rows.len() < 2 || !rows[1].runnable);
        if single {
            return InteractiveStep::Done(select_row(command, &rows[0]));
        }
        let mut prompt = String::from_str("Select a package to ");
        prompt.append(command);
        prompt.append(" (\u{2191}/\u{2193}, Enter to run, type to search):");
        return InteractiveStep::RunPicker { prompt, items: picker_items(rows) };
    }
    InteractiveStep::Done(listing(command, rows))
}

/// The outcome of the package picker: the selected row, or exit 130 when it
/// was cancelled.
pub fn picked_target(command: &str, rows: &Vec<PackageRow>, picked: Option<usize>) -> (r: Outcome)
    requires
        picked matches Some(i) ==> i < rows@.len(),
    ensures
        r@ == picked_outcome(command@, row_views(rows@), picked),
{
    match picked {
        Some(i) => select_row(command, &rows[i]),
        None => {
            let lines: Vec<OutputLine> = Vec::new();
            proof {
                assert(line_views(lines@) =~= Seq::empty());
            }
            Outcome { target: AppTarget::Exit(130), lines }
        }
    }
}

pub open spec fn picker_milestone_of(query: Seq<char>, index: usize) -> Seq<char> {
    "package-select:"@ + query + ":"@ + decimal(index as nat)
}

/// The milestone that every render of the picker emits, so that terminal
/// snapshot tests can synchronize: `package-select:<query>:<index>`.
pub fn picker_milestone(query: &str, index: usize) -> (r: String)
    ensures
        r@ == picker_milestone_of(query@, index),
{
    let mut s = String::from_str("package-select:");
    s.append(query);
    s.append(":");
    push_decimal(&mut s, index);
    s
}

/// `defaultPackage` is a root pointer: it is consulted only in the directory
/// that holds the root config, a workspace root or a directory outside any
/// JS workspace. A member's own declaration neither redirects nor fails the
/// command.
pub open spec fn consults_default_package_at(lookup: Option<(Seq<char>, bool)>) -> bool {
    match lookup {
        Some((rel, _)) => rel.len() == 0,
        None => true,
    }
}

/// Whether `defaultPackage` is consulted, given the workspace lookup of the
/// invocation directory. When it is not, the command runs in the current
/// directory and prints nothing.
pub fn consults_default_package(lookup: &Option<WorkspaceRootInfo>) -> (r: bool)
    ensures
        r == consults_default_package_at(lookup_view(*lookup)),
{
    match lookup {
        Some(info) => info.rel_from_root.as_str().is_empty(),
        None => true,
    }
}

/// What `needs_elicitation` has to learn next, or its answer.
#[derive(PartialEq, Eq, Structural, Debug)]
pub enum ElicitationProbe {
    Answer(bool),
    /// The workspace lookup of the invocation directory.
    FindWorkspaceRoot,
    /// Whether the config in the invocation directory declares `defaultPackage`.
    ReadDefaultPackage,
}

/// Would target resolution do anything other than run in the current
/// directory? Never prints and never runs the picker. It over-approximates
/// slightly: a workspace root without candidate rows, or whose only row is
/// the root, answers true.
pub open spec fn needs_elicitation_of(
    sub: SynthesizableSubcommand,
    declared: bool,
    lookup: Option<(Seq<char>, bool)>,
) -> bool {
    elicited_command(sub) is Some && consults_default_package_at(lookup) && (declared
        || lists_packages_at(lookup))
}

/// The first question of `needs_elicitation`: only a bare app command can
/// need elicitation.
pub fn needs_elicitation(subcommand: &SynthesizableSubcommand) -> (r: ElicitationProbe)
    ensures
        r == (if elicited_command(*subcommand) is Some {
            ElicitationProbe::FindWorkspaceRoot
        } else {
            ElicitationProbe::Answer(false)
        }),
{
    match resolve_app_target(subcommand) {
        Some(_) => ElicitationProbe::FindWorkspaceRoot,
        None => ElicitationProbe::Answer(false),
    }
}

/// After the workspace lookup: a member never needs elicitation, the root of
/// a real workspace always does, and anywhere else a `defaultPackage`
/// decides.
pub fn needs_elicitation_at(lookup: &Option<WorkspaceRootInfo>) -> (r: ElicitationProbe)
    ensures
        r == (if !consults_default_package_at(lookup_view(*lookup)) {
            ElicitationProbe::Answer(false)
        } else if lists_packages_at(lookup_view(*lookup)) {
            ElicitationProbe::Answer(true)
        } else {
            ElicitationProbe::ReadDefaultPackage
        }),
{
    if !consults_default_package(lookup) {
        ElicitationProbe::Answer(false)
    } else if lists_packages(lookup) {
        ElicitationProbe::Answer(true)
    } else {
        ElicitationProbe::ReadDefaultPackage
    }
}

/// After reading the config: a declared `defaultPackage` needs elicitation
/// (also a malformed one, whose error resolution reports).
pub fn needs_elicitation_after_config(declared: bool) -> (r: ElicitationProbe)
    ensures
        r == ElicitationProbe::Answer(declared),
{
    ElicitationProbe::Answer(declared)
}

/// The whole resolution of a subcommand's target, given what each outside
/// step would report: the workspace lookup, the `defaultPackage` field, the
/// resolved directory and whether it is one, the package candidates, whether
/// the terminal is interactive, and what the picker returned.
pub open spec fn resolution(
    sub: SynthesizableSubcommand,
    field: Option<DeclaredView>,
    resolved: Seq<char>,
    is_dir: bool,
    lookup: Option<(Seq<char>, bool)>,
    candidates: Seq<CandidateView>,
    interactive: bool,
    picked: Option<usize>,
) -> OutcomeView {
    let current = OutcomeView { target: TargetView::CurrentDir, lines: Seq::empty() };
    match elicited_command(sub) {
        None => current,
        Some(command) => if !consults_default_package_at(lookup) {
            current
        } else {
            match default_package_step(field) {
                DefaultPackageStepView::Done(o) => o,
                DefaultPackageStepView::CheckDirectory(dir) => default_package_outcome(
                    command,
                    dir,
                    resolved,
                    is_dir,
                ),
                DefaultPackageStepView::NotDeclared => if !lists_packages_at(lookup) {
                    current
                } else {
                    match rows_step_of(package_rows_of(command, candidates)) {
                        RowsStepView::Done(o) => o,
                        RowsStepView::Elicit(rows) => match interactive_step_of(
                            command,
                            rows,
                            interactive,
                        ) {
                            InteractiveStepView::Done(o) => o,
                            InteractiveStepView::RunPicker { .. } => picked_outcome(
                                command,
                                rows,
                                picked,
                            ),
                        },
                    }
                },
            }
        },
    }
}

/// Whenever `needs_elicitation` answers false, target resolution runs in the
/// current directory and prints nothing, whatever the later steps would
/// report.
pub proof fn law_no_elicitation_means_current_dir(
    sub: SynthesizableSubcommand,
    field: Option<DeclaredView>,
    resolved: Seq<char>,
    is_dir: bool,
    lookup: Option<(Seq<char>, bool)>,
    candidates: Seq<CandidateView>,
    interactive: bool,
    picked: Option<usize>,
)
    requires
        !needs_elicitation_of(sub, field is Some, lookup),
    ensures
        resolution(sub, field, resolved, is_dir, lookup, candidates, interactive, picked)
            == (OutcomeView { target: TargetView::CurrentDir, lines: Seq::empty() }),
{
}

/// In a workspace member, the member's own `defaultPackage`, whatever it
/// declares, neither redirects nor fails the command: it runs in place and
/// prints nothing.
pub proof fn law_member_default_package_ignored(
    sub: SynthesizableSubcommand,
    field: Option<DeclaredView>,
    resolved: Seq<char>,
    is_dir: bool,
    rel_from_root: Seq<char>,
    non_workspace_package: bool,
    candidates: Seq<CandidateView>,
    interactive: bool,
    picked: Option<usize>,
)
    requires
        rel_from_root.len() > 0,
    ensures
        resolution(
            sub,
            field,
            resolved,
            is_dir,
            Some((rel_from_root, non_workspace_package)),
            candidates,
            interactive,
            picked,
        ) == (OutcomeView { target: TargetView::CurrentDir, lines: Seq::empty() }),
{
}

/// Where it is consulted, a `defaultPackage` decides the outcome before the
/// package listing: the packages, the terminal and the picker have no say.
pub proof fn law_default_package_comes_first(
    sub: SynthesizableSubcommand,
    field: Option<DeclaredView>,
    resolved: Seq<char>,
    is_dir: bool,
    lookup: Option<(Seq<char>, bool)>,
    candidates1: Seq<CandidateView>,
    interactive1: bool,
    picked1: Option<usize>,
    candidates2: Seq<CandidateView>,
    interactive2: bool,
    picked2: Option<usize>,
)
    requires
        field is Some,
        consults_default_package_at(lookup),
    ensures
        resolution(sub, field, resolved, is_dir, lookup, candidates1, interactive1, picked1)
            == resolution(sub, field, resolved, is_dir, lookup, candidates2, interactive2, picked2),
{
}

/// At the root of a workspace, a root that itself looks runnable for the
/// command runs the command in place and prints nothing, whatever members,
/// terminal or picker there are.
pub proof fn law_runnable_root_runs_in_place(
    sub: SynthesizableSubcommand,
    resolved: Seq<char>,
    is_dir: bool,
    lookup: Option<(Seq<char>, bool)>,
    candidates: Seq<CandidateView>,
    root: int,
    interactive: bool,
    picked: Option<usize>,
)
    requires
        elicited_command(sub) is Some,
        lists_packages_at(lookup),
        0 <= root < candidates.len(),
        candidates[root].path.len() == 0,
        runnable(elicited_command(sub).unwrap(), true, candidates[root].signals),
    ensures
        resolution(sub, None, resolved, is_dir, lookup, candidates, interactive, picked)
            == (OutcomeView { target: TargetView::CurrentDir, lines: Seq::empty() }),
{
    let command = elicited_command(sub).unwrap();
    let rows = package_rows_of(command, candidates);
    law_candidate_rows_listed(command, candidates, root);
    let r = RowView {
        name: candidates[root].name,
        path: "."@,
        absolute: candidates[root].absolute,
        runnable: true,
        is_root: true,
    };
    assert(rows.contains(r));
    let k = choose|k: int| 0 <= k < rows.len() && rows[k] == r;
    assert(rows[k].is_root);
    assert(has_root_row(rows));
}

/// Exactly one row is likely runnable.
pub open spec fn exactly_one_runnable(rows: Seq<RowView>) -> bool {
    exists|i: int|
        0 <= i < rows.len() && #[trigger] rows[i].runnable && forall|j: int|
            0 <= j < rows.len() && j != i ==> !#[trigger] rows[j].runnable
}

/// In an interactive terminal the picker is skipped and the first row is
/// selected exactly when one package (the root counted) is likely runnable.
pub proof fn law_auto_select_iff_one_runnable(command: Seq<char>, candidates: Seq<CandidateView>)
    requires
        package_rows_of(command, candidates).len() > 0,
    ensures
        single_runnable(package_rows_of(command, candidates))
            <==> exactly_one_runnable(package_rows_of(command, candidates)),
{
    let rows = package_rows_of(command, candidates);
    lemma_ranked_is_ranked(crate::rows::kept_rows(command, candidates));
    assert(is_ranked(rows));
    if single_runnable(rows) {
        assert forall|j: int| 0 <= j < rows.len() && j != 0 implies !#[trigger] rows[j].runnable by {
            if j >= 2 && rows[j].runnable {
                assert(!crate::rows::row_before(rows[j], rows[1]));
            }
        }
        assert(rows[0].runnable);
    }
    if exactly_one_runnable(rows) {
        let i = choose|i: int|
            0 <= i < rows.len() && #[trigger] rows[i].runnable && forall|j: int|
                0 <= j < rows.len() && j != i ==> !#[trigger] rows[j].runnable;
        if i != 0 {
            assert(!crate::rows::row_before(rows[i], rows[0]));
            assert(!rows[0].runnable);
        }
        assert(rows[0].runnable);
        if rows.len() >= 2 {
            assert(!rows[1].runnable);
        }
    }
}

/// The picker's outcome: cancelling exits 130 and prints nothing; a selected
/// row becomes the target, announced on stdout with its name, its path and
/// the `-C` form of the command.
pub proof fn law_picker_outcomes(command: Seq<char>, rows: Seq<RowView>, i: usize)
    requires
        i < rows.len(),
    ensures
        picked_outcome(command, rows, None) == (OutcomeView {
            target: TargetView::Exit(130),
            lines: Seq::empty(),
        }),
        picked_outcome(command, rows, Some(i)).target == TargetView::Dir(rows[i as int].absolute),
        picked_outcome(command, rows, Some(i)).lines == seq![
            (OutputKind::Stdout, "Selected package: "@ + rows[i as int].name + " ("@ + rows[i as int].path + ")"@),
            (OutputKind::Stdout, "Tip: run this directly with `vp -C "@ + rows[i as int].path + " "@ + command + "`"@),
        ],
{
}

/// Without an interactive terminal the command fails with exit 1: an error
/// line, then one listing line per row in row order (the name, padded, then
/// the path), then the `-C` hint with the first row's path.
pub proof fn law_listing_without_a_terminal(command: Seq<char>, rows: Seq<RowView>, k: int)
    requires
        rows.len() > 0,
        0 <= k < rows.len(),
    ensures
        interactive_step_of(command, rows, false) matches InteractiveStepView::Done(o) && o.target
            == TargetView::Exit(1) && o.lines.len() == rows.len() + 6 && o.lines[0].0 == OutputKind::Error
            && o.lines[3 + k].0 == OutputKind::Stderr
            && o.lines[3 + k].1 == "    "@ + pad_right(rows[k].name, name_width(rows) as nat) + "  "@ + rows[k].path
            && o.lines[rows.len() + 4int].1 == "  Pass a directory:  vp -C "@ + rows[0].path + " "@ + command,
{
    let o = listing_outcome(command, rows);
    let w = name_width(rows);
    assert(listing_rows(rows, w)[k] == (OutputKind::Stderr, listing_row(rows[k], w)));
    assert(o.lines[3 + k] == listing_rows(rows, w)[k]);
}

/// In an interactive terminal, a single likely-runnable row is selected with
/// no picker; otherwise the picker offers every row, as `name path`.
pub proof fn law_interactive_choice(command: Seq<char>, rows: Seq<RowView>, k: int)
    requires
        rows.len() > 0,
        0 <= k < rows.len(),
    ensures
        single_runnable(rows) ==> interactive_step_of(command, rows, true) == InteractiveStepView::Done(
            picked_outcome(command, rows, Some(0)),
        ),
        !single_runnable(rows) ==> (interactive_step_of(command, rows, true) matches InteractiveStepView::RunPicker { items, .. }
            && items.len() == rows.len() && items[k] == (rows[k].name + " "@ + rows[k].path, rows[k].name, rows[k].path)),
{
}

/// `needs_elicitation` answers true for a bare app command at the root of a
/// real workspace, and false in a workspace member and for every subcommand
/// that is not a bare app command, whatever the config declares.
pub proof fn law_needs_elicitation_by_place(sub: SynthesizableSubcommand, declared: bool, rel: Seq<char>, non_workspace: bool)
    ensures
        elicited_command(sub) is Some ==> needs_elicitation_of(sub, declared, Some((Seq::empty(), false))),
        rel.len() > 0 ==> !needs_elicitation_of(sub, declared, Some((rel, non_workspace))),
        elicited_command(sub) is None ==> !needs_elicitation_of(sub, declared, Some((rel, non_workspace))),
        elicited_command(sub) is Some ==> (needs_elicitation_of(sub, declared, None) == declared),
{
}

/// The name column is as wide as the longest name, counted in bytes of its
/// UTF-8 encoding.
pub proof fn law_name_column_is_the_longest_name(rows: Seq<RowView>, k: int)
    requires
        forall|j: int| 0 <= j < rows.len() ==> vstd::utf8::encode_utf8(#[trigger] rows[j].name).len() <= usize::MAX,
    ensures
        0 <= k < rows.len() ==> vstd::utf8::encode_utf8(rows[k].name).len() <= name_width(rows),
        rows.len() > 0 ==> exists|j: int| 0 <= j < rows.len() && vstd::utf8::encode_utf8(#[trigger] rows[j].name).len() == name_width(rows),
        rows.len() == 0 ==> name_width(rows) == 0,
    decreases rows.len(),
{
    if rows.len() > 0 {
        let init = rows.drop_last();
        assert forall|j: int| 0 <= j < init.len() implies vstd::utf8::encode_utf8(#[trigger] init[j].name).len() <= usize::MAX by {
            assert(init[j] == rows[j]);
        }
        law_name_column_is_the_longest_name(init, k);
        let last = rows.len() - 1;
        assert(byte_len(rows[last].name) == vstd::utf8::encode_utf8(rows[last].name).len());
        if 0 <= k < init.len() {
            assert(init[k] == rows[k]);
        }
        if init.len() > 0 {
            let j = choose|j: int| 0 <= j < init.len() && vstd::utf8::encode_utf8(#[trigger] init[j].name).len() == name_width(init);
            assert(init[j] == rows[j]);
            if name_width(rows) == name_width(init) {
                assert(vstd::utf8::encode_utf8(rows[j].name).len() == name_width(rows));
            } else {
                assert(vstd::utf8::encode_utf8(rows[last].name).len() == name_width(rows));
            }
        } else {
            assert(vstd::utf8::encode_utf8(rows[last].name).len() == name_width(rows));
        }
    }
}

/// The rows come likely-runnable first; among rows alike in that, no path
/// sorts before an earlier one.
pub proof fn law_rows_order(command: Seq<char>, candidates: Seq<CandidateView>, i: int, j: int)
    requires
        0 <= i < j < package_rows_of(command, candidates).len(),
    ensures
        package_rows_of(command, candidates)[j].runnable ==> package_rows_of(command, candidates)[i].runnable,
        package_rows_of(command, candidates)[i].runnable == package_rows_of(command, candidates)[j].runnable
            ==> !chars_lt(package_rows_of(command, candidates)[j].path, package_rows_of(command, candidates)[i].path),
{
    lemma_ranked_is_ranked(crate::rows::kept_rows(command, candidates));
    let rows = package_rows_of(command, candidates);
    assert(!crate::rows::row_before(rows[j], rows[i]));
}

/// The texts of elicitation: the picker's prompt, and the first and last
/// lines of the listing.
pub proof fn law_elicitation_texts(command: Seq<char>, rows: Seq<RowView>)
    requires
        rows.len() > 0,
    ensures
        !single_runnable(rows) ==> (interactive_step_of(command, rows, true) matches InteractiveStepView::RunPicker { prompt, .. }
            && prompt == "Select a package to "@ + command + " (\u{2191}/\u{2193}, Enter to run, type to search):"@),
        interactive_step_of(command, rows, false) matches InteractiveStepView::Done(o)
            && o.lines[0] == (OutputKind::Error, "`vp "@ + command + "` at the workspace root needs a target package."@)
            && o.lines[o.lines.len() - 1] == (OutputKind::Stderr, "  Or run every package's "@ + command + " script:  vp run -r "@ + command),
{
}

/// At the root of a plain package (no workspace to list), only a declared
/// `defaultPackage` needs elicitation.
pub proof fn law_needs_elicitation_at_a_package_root(sub: SynthesizableSubcommand, declared: bool)
    requires
        elicited_command(sub) is Some,
    ensures
        needs_elicitation_of(sub, declared, Some((Seq::empty(), true))) == declared,
{
}

} // verus!
