//! `vpr`: the standalone shorthand for `vp run`.
//!
//! `vpr -C <dir> <task>` mirrors `vp -C <dir> run <task>`: the leading global
//! flag is consumed before the rest is treated as run arguments. Each
//! function here is one decision; the caller checks directories, changes the
//! working directory, offers help and delegates in between.
use vstd::prelude::*;
use crate::args::arg_views;
use crate::output::{OutputKind, OutputLine, line, line_views};
use crate::text::str_eq;

verus! {

/// A leading `-C <dir>` or `-C=<dir>`: the directory and how many argument
/// tokens the flag used. A `-C` without a value, or `-C=` with an empty one,
/// is no directory.
pub open spec fn leading_chdir(args: Seq<Seq<char>>) -> Option<(Seq<char>, usize)> {
    if args.len() == 0 {
        None
    } else if args[0] == "-C"@ {
        if args.len() >= 2 {
            Some((args[1], 2))
        } else {
            None
        }
    } else if args[0].len() > 3 && args[0].take(3) == "-C="@ {
        Some((args[0].skip(3), 1))
    } else {
        None
    }
}

pub open spec fn chdir_view(r: Option<(String, usize)>) -> Option<(Seq<char>, usize)> {
    match r {
        Some((dir, n)) => Some((dir@, n)),
        None => None,
    }
}

/// Reads a leading `-C <dir>` or `-C=<dir>` from the arguments.
pub fn parse_leading_chdir(args: &[String]) -> (r: Option<(String, usize)>)
    ensures
        chdir_view(r) == leading_chdir(arg_views(args@)),
{
    proof {
        reveal_strlit("-C=");
    }
    if args.len() == 0 {
        return None;
    }
    let first = args[0].as_str();
    if str_eq(first, "-C") {
        if args.len() >= 2 {
            return Some((args[1].clone(), 2));
        }
        return None;
    }
    let n = first.unicode_len();
    if n > 3 && first.get_char(0) == '-' && first.get_char(1) == 'C' && first.get_char(2) == '=' {
        assert(first@.take(3) =~= "-C="@);
        let dir = first.substring_char(3, n);
        return Some((String::from_str(dir), 1));
    }
    proof {
        if first@.len() > 3 && first@.take(3) == "-C="@ {
            assert(first@.take(3)[0] == '-' && first@.take(3)[1] == 'C' && first@.take(3)[2] == '=');
        }
    }
    None
}

/// The next thing `vpr` does.
pub enum VprStep {
    /// Print these lines and exit with this code.
    Exit { code: i32, lines: Vec<OutputLine> },
    /// Resolve `dir` against the working directory and check that it is one.
    CheckDirectory { dir: String, consumed: usize },
    /// Make the checked directory the working directory (and `PWD`).
    ChangeDirectory { dir: String, consumed: usize },
    /// Offer the unified `run` help for the arguments from `skip` on.
    OfferHelp { skip: usize },
    /// Delegate `run` with the arguments from `skip` on.
    Delegate { skip: usize },
}

pub enum VprStepView {
    Exit { code: i32, lines: Seq<(OutputKind, Seq<char>)> },
    CheckDirectory { dir: Seq<char>, consumed: usize },
    ChangeDirectory { dir: Seq<char>, consumed: usize },
    OfferHelp { skip: usize },
    Delegate { skip: usize },
}

impl View for VprStep {
    type V = VprStepView;

    open spec fn view(&self) -> VprStepView {
        match self {
            VprStep::Exit { code, lines } => VprStepView::Exit { code: *code, lines: line_views(lines@) },
            VprStep::CheckDirectory { dir, consumed } => VprStepView::CheckDirectory {
                dir: dir@,
                consumed: *consumed,
            },
            VprStep::ChangeDirectory { dir, consumed } => VprStepView::ChangeDirectory {
                dir: dir@,
                consumed: *consumed,
            },
            VprStep::OfferHelp { skip } => VprStepView::OfferHelp { skip: *skip },
            VprStep::Delegate { skip } => VprStepView::Delegate { skip: *skip },
        }
    }
}

pub open spec fn exit_with(code: i32, kind: OutputKind, text: Seq<char>) -> VprStepView {
    VprStepView::Exit { code, lines: seq![(kind, text)] }
}

/// The first step: a bare `-C` (or `-C=`) without a value errors as the vp
/// binary would; a leading `-C <dir>` is applied; otherwise everything is a
/// run argument.
pub open spec fn vpr_start_of(args: Seq<Seq<char>>) -> VprStepView {
    if args.len() > 0 && (args[0] == "-C"@ || args[0] == "-C="@) && leading_chdir(args) is None {
        exit_with(1, OutputKind::Stderr, "-C requires a directory argument"@)
    } else {
        match leading_chdir(args) {
            Some((dir, consumed)) => VprStepView::CheckDirectory { dir, consumed },
            None => VprStepView::OfferHelp { skip: 0 },
        }
    }
}

fn exit_line(code: i32, kind: OutputKind, text: String) -> (r: VprStep)
    ensures
        r@ == exit_with(code, kind, text@),
{
    let mut lines: Vec<OutputLine> = Vec::new();
    lines.push(line(kind, text));
    proof {
        assert(line_views(lines@) =~= seq![(kind, text@)]);
    }
    VprStep::Exit { code, lines }
}

/// The first step of `vpr` with these arguments.
pub fn vpr_start(args: &[String]) -> (r: VprStep)
    ensures
        r@ == vpr_start_of(arg_views(args@)),
        r matches VprStep::CheckDirectory { consumed, .. } ==> consumed <= args@.len(),
{
    let parsed = parse_leading_chdir(args);
    if args.len() > 0 && (str_eq(args[0].as_str(), "-C") || str_eq(args[0].as_str(), "-C=")) && parsed.is_none() {
        return exit_line(1, OutputKind::Stderr, String::from_str("-C requires a directory argument"));
    }
    match parsed {
        Some((dir, consumed)) => VprStep::CheckDirectory { dir, consumed },
        None => VprStep::OfferHelp { skip: 0 },
    }
}

pub open spec fn vpr_after_directory_check_of(dir: Seq<char>, consumed: usize, is_dir: bool) -> VprStepView {
    if is_dir {
        VprStepView::ChangeDirectory { dir, consumed }
    } else {
        exit_with(1, OutputKind::Stderr, "directory not found: "@ + dir)
    }
}

/// After checking the `-C` directory: a missing one exits 1.
pub fn vpr_after_directory_check(dir: String, consumed: usize, is_dir: bool) -> (r: VprStep)
    ensures
        r@ == vpr_after_directory_check_of(dir@, consumed, is_dir),
{
    if !is_dir {
        let mut text = String::from_str("directory not found: ");
        text.append(dir.as_str());
        return exit_line(1, OutputKind::Stderr, text);
    }
    VprStep::ChangeDirectory { dir, consumed }
}

pub open spec fn vpr_after_change_directory_of(dir: Seq<char>, consumed: usize, changed: bool) -> VprStepView {
    if changed {
        VprStepView::OfferHelp { skip: consumed }
    } else {
        exit_with(1, OutputKind::Error, "Failed to change directory to "@ + dir)
    }
}

/// After changing the working directory: a failure exits 1; otherwise the
/// arguments after the flag are the run arguments.
pub fn vpr_after_change_directory(dir: &str, consumed: usize, changed: bool) -> (r: VprStep)
    ensures
        r@ == vpr_after_change_directory_of(dir@, consumed, changed),
{
    if !changed {
        let mut text = String::from_str("Failed to change directory to ");
        text.append(dir);
        return exit_line(1, OutputKind::Error, text);
    }
    VprStep::OfferHelp { skip: consumed }
}

pub open spec fn vpr_after_help_of(skip: usize, printed: bool) -> VprStepView {
    if printed {
        VprStepView::Exit { code: 0, lines: Seq::empty() }
    } else {
        VprStepView::Delegate { skip }
    }
}

/// After offering help: printed help exits 0, anything else delegates.
pub fn vpr_after_help(skip: usize, printed: bool) -> (r: VprStep)
    ensures
        r@ == vpr_after_help_of(skip, printed),
{
    if printed {
        let lines: Vec<OutputLine> = Vec::new();
        proof {
            assert(line_views(lines@) =~= Seq::empty());
        }
        return VprStep::Exit { code: 0, lines };
    }
    VprStep::Delegate { skip }
}

/// The exit code of the delegated run: its status code, 1 when it has none
/// (killed by a signal), and 1 after printing the error when it failed.
pub open spec fn vpr_exit_of(result: Result<Option<i32>, Seq<char>>) -> (i32, Seq<(OutputKind, Seq<char>)>) {
    match result {
        Ok(Some(code)) => (code, Seq::empty()),
        Ok(None) => (1, Seq::empty()),
        Err(message) => (1, seq![(OutputKind::Error, message)]),
    }
}

pub open spec fn result_view(result: Result<Option<i32>, String>) -> Result<Option<i32>, Seq<char>> {
    match result {
        Ok(c) => Ok(c),
        Err(m) => Err(m@),
    }
}

/// The exit code and the lines to print after delegating.
pub fn vpr_exit(result: Result<Option<i32>, String>) -> (r: (i32, Vec<OutputLine>))
    ensures
        (r.0, line_views(r.1@)) == vpr_exit_of(result_view(result)),
{
    let mut lines: Vec<OutputLine> = Vec::new();
    let code = match result {
        Ok(Some(code)) => code,
        Ok(None) => 1,
        Err(message) => {
            lines.push(line(OutputKind::Error, message));
            1
        },
    };
    proof {
        assert(line_views(lines@) =~= vpr_exit_of(result_view(result)).1);
    }
    (code, lines)
}

/// `vpr -C <dir> <args...>` applies `-C <dir>` first and then runs exactly
/// the arguments after it, as `vp -C <dir> run <args...>` does.
pub proof fn law_leading_chdir_then_run_rest(dir: Seq<char>, rest: Seq<Seq<char>>)
    ensures
        vpr_start_of(seq!["-C"@, dir] + rest) == (VprStepView::CheckDirectory { dir, consumed: 2 }),
        vpr_after_directory_check_of(dir, 2, true) == (VprStepView::ChangeDirectory { dir, consumed: 2 }),
        vpr_after_change_directory_of(dir, 2, true) == (VprStepView::OfferHelp { skip: 2 }),
        (seq!["-C"@, dir] + rest).skip(2) == rest,
{
    let args = seq!["-C"@, dir] + rest;
    assert(args[0] == "-C"@ && args[1] == dir);
    assert(args.skip(2) =~= rest);
}

/// A `-C` without a directory never falls through as a run argument: it is
/// an error with exit code 1.
pub proof fn law_bare_chdir_flag_fails()
    ensures
        vpr_start_of(seq!["-C"@]) == exit_with(1, OutputKind::Stderr, "-C requires a directory argument"@),
        vpr_start_of(seq!["-C="@]) == exit_with(1, OutputKind::Stderr, "-C requires a directory argument"@),
{
    reveal_strlit("-C=");
    assert(seq!["-C="@][0].len() == 3);
}

/// Arguments that do not start with a `-C` flag are all run arguments.
pub proof fn law_no_chdir_runs_everything(args: Seq<Seq<char>>)
    requires
        args.len() == 0 || (args[0] != "-C"@ && args[0] != "-C="@ && !(args[0].len() > 3
            && args[0].take(3) == "-C="@)),
    ensures
        vpr_start_of(args) == (VprStepView::OfferHelp { skip: 0 }),
{
}

/// `vpr` exits with the delegated run's own status code, whatever it is;
/// it exits 1 only when the run has no code (killed by a signal), printing
/// nothing, or when delegating failed, printing that error.
pub proof fn law_vpr_passes_the_status_through(code: i32, message: Seq<char>, result: Result<Option<i32>, Seq<char>>)
    ensures
        vpr_exit_of(Ok(Some(code))) == (code, Seq::<(OutputKind, Seq<char>)>::empty()),
        vpr_exit_of(Ok(None)) == (1i32, Seq::<(OutputKind, Seq<char>)>::empty()),
        vpr_exit_of(Err(message)) == (1i32, seq![(OutputKind::Error, message)]),
        vpr_exit_of(result).0 != 1 ==> result == Ok::<Option<i32>, Seq<char>>(Some(vpr_exit_of(result).0)),
{
}

/// A missing `-C` directory fails with exit 1 and `directory not found:
/// <dir>` on stderr; a failed directory change fails with exit 1 and an
/// error; printed help exits 0; otherwise the run is delegated.
pub proof fn law_vpr_failures_and_help(dir: Seq<char>, consumed: usize, skip: usize)
    ensures
        vpr_after_directory_check_of(dir, consumed, false) == (VprStepView::Exit {
            code: 1,
            lines: seq![(OutputKind::Stderr, "directory not found: "@ + dir)],
        }),
        vpr_after_directory_check_of(dir, consumed, true) == (VprStepView::ChangeDirectory { dir, consumed }),
        vpr_after_change_directory_of(dir, consumed, false) == (VprStepView::Exit {
            code: 1,
            lines: seq![(OutputKind::Error, "Failed to change directory to "@ + dir)],
        }),
        vpr_after_help_of(skip, true) == (VprStepView::Exit { code: 0, lines: Seq::empty() }),
        vpr_after_help_of(skip, false) == (VprStepView::Delegate { skip }),
{
}

/// `-C=<dir>` is read as `-C <dir>` in one token.
pub proof fn law_chdir_with_equals(dir: Seq<char>, rest: Seq<Seq<char>>)
    requires
        dir.len() > 0,
    ensures
        vpr_start_of(seq!["-C="@ + dir] + rest) == (VprStepView::CheckDirectory { dir, consumed: 1 }),
{
    reveal_strlit("-C=");
    reveal_strlit("-C");
    let args = seq!["-C="@ + dir] + rest;
    assert(args[0] == "-C="@ + dir);
    assert(args[0].take(3) =~= "-C="@);
    assert(args[0].skip(3) =~= dir);
    assert(args[0] != "-C"@ && args[0] != "-C="@) by {
        assert(args[0].len() > 3);
    }
}

} // verus!
