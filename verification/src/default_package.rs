//! `defaultPackage`: the configured target of bare app commands.
use vstd::prelude::*;
use crate::output::{AppTarget, Outcome, OutcomeView, OutputKind, OutputLine, TargetView, line,
    line_views};

verus! {

/// The `defaultPackage` field as the static config of the invocation
/// directory declares it.
pub enum DeclaredField {
    /// A JSON string: the directory, relative to the config's directory.
    JsonString(String),
    /// Any other JSON value, as JSON text.
    JsonOther(String),
    /// Declared by an expression that static extraction cannot evaluate.
    NonStatic,
}

pub enum DeclaredView {
    JsonString(Seq<char>),
    JsonOther(Seq<char>),
    NonStatic,
}

impl View for DeclaredField {
    type V = DeclaredView;

    open spec fn view(&self) -> DeclaredView {
        match self {
            DeclaredField::JsonString(s) => DeclaredView::JsonString(s@),
            DeclaredField::JsonOther(s) => DeclaredView::JsonOther(s@),
            DeclaredField::NonStatic => DeclaredView::NonStatic,
        }
    }
}

/// What comes after reading `defaultPackage`.
pub enum DefaultPackageStep {
    /// Not declared: resolution goes on to the workspace lookup.
    NotDeclared,
    /// Check whether this directory (relative to the invocation directory)
    /// exists.
    CheckDirectory(String),
    /// Resolution is finished.
    Done(Outcome),
}

pub enum DefaultPackageStepView {
    NotDeclared,
    CheckDirectory(Seq<char>),
    Done(OutcomeView),
}

impl View for DefaultPackageStep {
    type V = DefaultPackageStepView;

    open spec fn view(&self) -> DefaultPackageStepView {
        match self {
            DefaultPackageStep::NotDeclared => DefaultPackageStepView::NotDeclared,
            DefaultPackageStep::CheckDirectory(d) => DefaultPackageStepView::CheckDirectory(d@),
            DefaultPackageStep::Done(o) => DefaultPackageStepView::Done(o@),
        }
    }
}

pub open spec fn not_a_string_message(rendered: Seq<char>) -> Seq<char> {
    "defaultPackage must be a string of a directory, got: "@ + rendered
}

pub open spec fn non_static_message() -> Seq<char> {
    "defaultPackage in vite.config.ts must be a static string literal so vp can read it without executing the config"@
}

pub open spec fn missing_directory_message(dir: Seq<char>) -> Seq<char> {
    "defaultPackage points to a missing directory: "@ + dir
}

pub open spec fn using_message(command: Seq<char>, dir: Seq<char>) -> Seq<char> {
    "vp "@ + command + ": using "@ + dir + " (defaultPackage)"@
}

/// Exit 1 after printing one error.
pub open spec fn fail_with(message: Seq<char>) -> OutcomeView {
    OutcomeView { target: TargetView::Exit(1), lines: seq![(OutputKind::Error, message)] }
}

/// The step after reading `defaultPackage`.
pub open spec fn default_package_step(field: Option<DeclaredView>) -> DefaultPackageStepView {
    match field {
        None => DefaultPackageStepView::NotDeclared,
        Some(DeclaredView::JsonString(dir)) => DefaultPackageStepView::CheckDirectory(dir),
        Some(DeclaredView::JsonOther(rendered)) => DefaultPackageStepView::Done(
            fail_with(not_a_string_message(rendered)),
        ),
        Some(DeclaredView::NonStatic) => DefaultPackageStepView::Done(
            fail_with(non_static_message()),
        ),
    }
}

/// The outcome once the configured directory has been checked.
pub open spec fn default_package_outcome(
    command: Seq<char>,
    dir: Seq<char>,
    resolved: Seq<char>,
    is_dir: bool,
) -> OutcomeView {
    if is_dir {
        OutcomeView {
            target: TargetView::Dir(resolved),
            lines: seq![(OutputKind::Note, using_message(command, dir))],
        }
    } else {
        fail_with(missing_directory_message(dir))
    }
}

pub open spec fn field_view(field: Option<DeclaredField>) -> Option<DeclaredView> {
    match field {
        Some(f) => Some(f@),
        None => None,
    }
}

/// An outcome that prints one error and exits 1.
fn fail(message: String) -> (r: Outcome)
    ensures
        r@ == fail_with(message@),
{
    let mut lines: Vec<OutputLine> = Vec::new();
    lines.push(line(OutputKind::Error, message));
    proof {
        assert(line_views(lines@) =~= seq![(OutputKind::Error, message@)]);
    }
    Outcome { target: AppTarget::Exit(1), lines }
}

/// `defaultPackage` from the config in the invocation directory, where it is
/// consulted (see `resolve::consults_default_package`). It must be a static
/// string literal; a value of another kind, or one that static extraction
/// cannot read, fails the command. A config without the field (also one that
/// is unanalyzable or hides fields behind a spread) falls through to the
/// workspace resolution.
pub fn resolve_default_package(field: Option<DeclaredField>) -> (r: DefaultPackageStep)
    ensures
        r@ == default_package_step(field_view(field)),
{
    match field {
        None => DefaultPackageStep::NotDeclared,
        Some(DeclaredField::JsonString(dir)) => DefaultPackageStep::CheckDirectory(dir),
        Some(DeclaredField::JsonOther(rendered)) => {
            let mut message = String::from_str("defaultPackage must be a string of a directory, got: ");
            message.append(rendered.as_str());
            DefaultPackageStep::Done(fail(message))
        }
        Some(DeclaredField::NonStatic) => {
            let message = String::from_str(
                "defaultPackage in vite.config.ts must be a static string literal so vp can read it without executing the config",
            );
            DefaultPackageStep::Done(fail(message))
        }
    }
}

/// The outcome once `dir` (resolved against the invocation directory to
/// `resolved`) has been checked: run there with a note, or fail when it is
/// not a directory.
pub fn default_package_target(command: &str, dir: &str, resolved: String, is_dir: bool) -> (r: Outcome)
    ensures
        r@ == default_package_outcome(command@, dir@, resolved@, is_dir),
{
    if !is_dir {
        let mut message = String::from_str("defaultPackage points to a missing directory: ");
        message.append(dir);
        return fail(message);
    }
    let mut message = String::from_str("vp ");
    message.append(command);
    message.append(": using ");
    message.append(dir);
    message.append(" (defaultPackage)");
    let ghost text = message@;
    let mut lines: Vec<OutputLine> = Vec::new();
    lines.push(line(OutputKind::Note, message));
    proof {
        assert(line_views(lines@) =~= seq![(OutputKind::Note, text)]);
    }
    Outcome { target: AppTarget::Dir(resolved), lines }
}

/// A `defaultPackage` that is not a string, or not static, fails the command
/// with exit 1 and one error naming the problem; a string is checked as a
/// directory; no `defaultPackage` passes on.
pub proof fn law_default_package_kinds(dir: Seq<char>, rendered: Seq<char>)
    ensures
        default_package_step(Some(DeclaredView::JsonOther(rendered))) == DefaultPackageStepView::Done(
            OutcomeView {
                target: TargetView::Exit(1),
                lines: seq![(OutputKind::Error, "defaultPackage must be a string of a directory, got: "@ + rendered)],
            },
        ),
        default_package_step(Some(DeclaredView::NonStatic)) == DefaultPackageStepView::Done(
            OutcomeView {
                target: TargetView::Exit(1),
                lines: seq![(OutputKind::Error, "defaultPackage in vite.config.ts must be a static string literal so vp can read it without executing the config"@)],
            },
        ),
        default_package_step(Some(DeclaredView::JsonString(dir))) == DefaultPackageStepView::CheckDirectory(dir),
        default_package_step(None) == DefaultPackageStepView::NotDeclared,
{
}

} // verus!
