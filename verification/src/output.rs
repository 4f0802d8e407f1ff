//! The lines that target resolution prints, and where they go.
use vstd::prelude::*;

verus! {

/// Where a line goes: an error or a note on stderr (with their prefixes),
/// plain stderr, or stdout.
#[derive(PartialEq, Eq, Structural, Clone, Copy, Debug)]
pub enum OutputKind {
    Error,
    Note,
    Stderr,
    Stdout,
}

/// One line of output.
pub struct OutputLine {
    pub kind: OutputKind,
    pub text: String,
}

impl View for OutputLine {
    type V = (OutputKind, Seq<char>);

    open spec fn view(&self) -> (OutputKind, Seq<char>) {
        (self.kind, self.text@)
    }
}

pub open spec fn line_views(lines: Seq<OutputLine>) -> Seq<(OutputKind, Seq<char>)> {
    lines.map_values(|l: OutputLine| l@)
}

/// Where a bare app command should run.
pub enum AppTarget {
    /// No elicitation applies; run in the invocation directory.
    CurrentDir,
    /// Run as if invoked in this directory (an implicit `-C`).
    Dir(String),
    /// Elicitation printed its output and decided the exit code.
    Exit(i32),
}

/// The view of an `AppTarget`.
pub enum TargetView {
    CurrentDir,
    Dir(Seq<char>),
    Exit(i32),
}

impl View for AppTarget {
    type V = TargetView;

    open spec fn view(&self) -> TargetView {
        match self {
            AppTarget::CurrentDir => TargetView::CurrentDir,
            AppTarget::Dir(d) => TargetView::Dir(d@),
            AppTarget::Exit(c) => TargetView::Exit(*c),
        }
    }
}

/// A finished resolution: where to run, and what to print first.
pub struct Outcome {
    pub target: AppTarget,
    pub lines: Vec<OutputLine>,
}

pub struct OutcomeView {
    pub target: TargetView,
    pub lines: Seq<(OutputKind, Seq<char>)>,
}

impl View for Outcome {
    type V = OutcomeView;

    open spec fn view(&self) -> OutcomeView {
        OutcomeView { target: self.target@, lines: line_views(self.lines@) }
    }
}

/// A line of the given kind.
pub fn line(kind: OutputKind, text: String) -> (r: OutputLine)
    ensures
        r@ == (kind, text@),
{
    OutputLine { kind, text }
}

/// The outcome that runs in the invocation directory and prints nothing.
pub fn current_dir() -> (r: Outcome)
    ensures
        r@ == (OutcomeView { target: TargetView::CurrentDir, lines: Seq::empty() }),
{
    let lines: Vec<OutputLine> = Vec::new();
    proof {
        assert(line_views(lines@) =~= Seq::empty());
    }
    Outcome { target: AppTarget::CurrentDir, lines }
}

} // verus!
