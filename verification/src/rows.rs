//! The package rows offered when an app command needs a target: which
//! workspace packages are listed, and in which order.
use vstd::prelude::*;
use crate::order::{chars_lt, str_lt, lemma_chars_lt_irreflexive, lemma_chars_lt_transitive};
use crate::runnable::{RunnableSignals, runnable, looks_runnable};

verus! {

/// A workspace package as loaded from the package graph.
pub struct PackageCandidate {
    pub name: String,
    /// Path relative to the workspace root; empty for the root itself.
    pub path: String,
    pub absolute: String,
    pub signals: RunnableSignals,
}

pub struct CandidateView {
    pub name: Seq<char>,
    pub path: Seq<char>,
    pub absolute: Seq<char>,
    pub signals: RunnableSignals,
}

impl View for PackageCandidate {
    type V = CandidateView;

    open spec fn view(&self) -> CandidateView {
        CandidateView {
            name: self.name@,
            path: self.path@,
            absolute: self.absolute@,
            signals: self.signals,
        }
    }
}

/// One row of the package picker or listing.
pub struct PackageRow {
    pub name: String,
    /// Path relative to the workspace root; `.` for the root itself.
    pub path: String,
    pub absolute: String,
    pub runnable: bool,
    /// The row is the workspace root itself.
    pub is_root: bool,
}

pub struct RowView {
    pub name: Seq<char>,
    pub path: Seq<char>,
    pub absolute: Seq<char>,
    pub runnable: bool,
    pub is_root: bool,
}

impl View for PackageRow {
    type V = RowView;

    open spec fn view(&self) -> RowView {
        RowView {
            name: self.name@,
            path: self.path@,
            absolute: self.absolute@,
            runnable: self.runnable,
            is_root: self.is_root,
        }
    }
}

pub open spec fn candidate_views(cs: Seq<PackageCandidate>) -> Seq<CandidateView> {
    cs.map_values(|c: PackageCandidate| c@)
}

pub open spec fn row_views(rs: Seq<PackageRow>) -> Seq<RowView> {
    rs.map_values(|r: PackageRow| r@)
}

/// The row a candidate gives for `command`: the root is a row only when it
/// looks runnable, and is shown as `.`; every other package is a row.
pub open spec fn row_of(command: Seq<char>, c: CandidateView) -> Option<RowView> {
    let is_root = c.path.len() == 0;
    let r = runnable(command, is_root, c.signals);
    if is_root && !r {
        None
    } else {
        Some(RowView {
            name: c.name,
            path: if is_root { "."@ } else { c.path },
            absolute: c.absolute,
            runnable: r,
            is_root,
        })
    }
}

/// The rows of the candidates, in candidate order.
pub open spec fn kept_rows(command: Seq<char>, cs: Seq<CandidateView>) -> Seq<RowView>
    decreases cs.len(),
{
    if cs.len() == 0 {
        Seq::empty()
    } else {
        let before = kept_rows(command, cs.drop_last());
        match row_of(command, cs.last()) {
            Some(r) => before.push(r),
            None => before,
        }
    }
}

/// `a` ranks strictly before `b`: likely-runnable rows first, then by path.
pub open spec fn row_before(a: RowView, b: RowView) -> bool {
    (a.runnable && !b.runnable) || (a.runnable == b.runnable && chars_lt(a.path, b.path))
}

/// Where `x` goes in the ranked `s`: before the first row that it ranks before,
/// after every row that ranks with it or before it.
pub open spec fn insert_pos(x: RowView, s: Seq<RowView>) -> nat
    decreases s.len(),
{
    if s.len() == 0 {
        0
    } else if row_before(x, s[0]) {
        0
    } else {
        1 + insert_pos(x, s.drop_first())
    }
}

pub open spec fn insert_row(x: RowView, s: Seq<RowView>) -> Seq<RowView> {
    s.insert(insert_pos(x, s) as int, x)
}

/// The rows ranked by `row_before`, keeping the given order among rows that
/// rank alike (a stable sort).
pub open spec fn ranked(s: Seq<RowView>) -> Seq<RowView>
    decreases s.len(),
{
    if s.len() == 0 {
        s
    } else {
        insert_row(s.last(), ranked(s.drop_last()))
    }
}

/// The rows of the package picker and listing.
pub open spec fn package_rows_of(command: Seq<char>, cs: Seq<CandidateView>) -> Seq<RowView> {
    ranked(kept_rows(command, cs))
}

/// No row of `s` ranks before a row that precedes it.
pub open spec fn is_ranked(s: Seq<RowView>) -> bool {
    forall|i: int, j: int| 0 <= i < j < s.len() ==> !row_before(#[trigger] s[j], #[trigger] s[i])
}

proof fn lemma_row_before_irreflexive(a: RowView)
    ensures
        !row_before(a, a),
{
    lemma_chars_lt_irreflexive(a.path);
}

proof fn lemma_row_before_transitive(a: RowView, b: RowView, c: RowView)
    requires
        row_before(a, b),
        row_before(b, c),
    ensures
        row_before(a, c),
{
    if a.runnable == b.runnable && b.runnable == c.runnable {
        lemma_chars_lt_transitive(a.path, b.path, c.path);
    }
}

proof fn lemma_insert_pos(x: RowView, s: Seq<RowView>)
    ensures
        insert_pos(x, s) <= s.len(),
        forall|k: int| 0 <= k < insert_pos(x, s) ==> !row_before(x, #[trigger] s[k]),
        insert_pos(x, s) < s.len() ==> row_before(x, s[insert_pos(x, s) as int]),
    decreases s.len(),
{
    if s.len() > 0 && !row_before(x, s[0]) {
        lemma_insert_pos(x, s.drop_first());
        assert forall|k: int| 0 <= k < insert_pos(x, s) implies !row_before(x, #[trigger] s[k]) by {
            if k > 0 {
                assert(s[k] == s.drop_first()[k - 1]);
            }
        }
    }
}

/// `insert_pos` is the first position whose row `x` ranks before.
proof fn lemma_insert_pos_is_first(x: RowView, s: Seq<RowView>, p: int)
    requires
        0 <= p <= s.len(),
        forall|k: int| 0 <= k < p ==> !row_before(x, #[trigger] s[k]),
        p < s.len() ==> row_before(x, s[p]),
    ensures
        insert_pos(x, s) == p,
    decreases s.len(),
{
    if s.len() > 0 && p > 0 {
        assert(!row_before(x, s[0]));
        assert forall|k: int| 0 <= k < p - 1 implies !row_before(x, #[trigger] s.drop_first()[k]) by {
            assert(s.drop_first()[k] == s[k + 1]);
        }
        lemma_insert_pos_is_first(x, s.drop_first(), p - 1);
    }
}

proof fn lemma_insert_row_ranked(x: RowView, s: Seq<RowView>)
    requires
        is_ranked(s),
    ensures
        is_ranked(insert_row(x, s)),
{
    let p = insert_pos(x, s) as int;
    lemma_insert_pos(x, s);
    s.insert_ensures(p, x);
    let t = insert_row(x, s);
    assert forall|i: int, j: int| 0 <= i < j < t.len() implies !row_before(#[trigger] t[j], #[trigger] t[i]) by {
        if j < p {
            assert(t[i] == s[i] && t[j] == s[j]);
        } else if j == p {
            assert(t[i] == s[i]);
        } else if i < p {
            assert(t[i] == s[i] && t[j] == s[j - 1]);
        } else if i == p {
            assert(t[j] == s[j - 1]);
            assert(row_before(x, s[p]));
            if row_before(s[j - 1], x) {
                lemma_row_before_transitive(s[j - 1], x, s[p]);
                if j - 1 == p {
                    lemma_row_before_irreflexive(s[p]);
                }
            }
        } else {
            assert(t[i] == s[i - 1] && t[j] == s[j - 1]);
        }
    }
}

/// The ranked rows are in ranking order.
pub proof fn lemma_ranked_is_ranked(s: Seq<RowView>)
    ensures
        is_ranked(ranked(s)),
    decreases s.len(),
{
    if s.len() > 0 {
        lemma_ranked_is_ranked(s.drop_last());
        lemma_insert_row_ranked(s.last(), ranked(s.drop_last()));
    }
}

/// Ranking neither adds nor drops a row.
pub proof fn lemma_ranked_permutes(s: Seq<RowView>)
    ensures
        ranked(s).to_multiset() == s.to_multiset(),
        ranked(s).len() == s.len(),
    decreases s.len(),
{
    broadcast use vstd::seq_lib::group_to_multiset_ensures;

    if s.len() > 0 {
        let r = ranked(s.drop_last());
        lemma_ranked_permutes(s.drop_last());
        lemma_insert_pos(s.last(), r);
        assert(s =~= s.drop_last().push(s.last()));
        vstd::seq_lib::to_multiset_insert(r, insert_pos(s.last(), r) as int, s.last());
        r.insert_ensures(insert_pos(s.last(), r) as int, s.last());
    } else {
        assert(ranked(s) =~= s);
    }
}

/// Whether row `a` ranks strictly before row `b`.
fn row_ranks_before(a: &PackageRow, b: &PackageRow) -> (r: bool)
    ensures
        r == row_before(a@, b@),
{
    if a.runnable != b.runnable {
        a.runnable
    } else {
        str_lt(a.path.as_str(), b.path.as_str())
    }
}

/// Inserts `x` into the ranked rows `out` at its place.
fn insert_ranked(out: &mut Vec<PackageRow>, x: PackageRow)
    ensures
        row_views(final(out)@) == insert_row(x@, row_views(old(out)@)),
{
    let n = out.len();
    let ghost s = row_views(out@);
    let mut i: usize = 0;
    while i < n && !row_ranks_before(&x, &out[i])
        invariant
            n == out@.len(),
            s == row_views(out@),
            i <= n,
            forall|k: int| 0 <= k < i ==> !row_before(x@, #[trigger] s[k]),
        decreases n - i,
    {
        i += 1;
    }
    proof {
        lemma_insert_pos_is_first(x@, s, i as int);
    }
    let ghost xv = x@;
    out.insert(i, x);
    proof {
        assert(row_views(out@) =~= s.insert(i as int, xv));
    }
}

/// The row of one candidate, if it has one.
fn candidate_row(command: &str, c: &PackageCandidate) -> (r: Option<PackageRow>)
    ensures
        match r {
            Some(row) => row_of(command@, c@) == Some(row@),
            None => row_of(command@, c@) is None,
        },
{
    let is_root = c.path.as_str().is_empty();
    let runnable = looks_runnable(command, is_root, &c.signals);
    // The root itself is a valid target only when it looks runnable;
    // `.` keeps the -C hint and the selection working there.
    if is_root && !runnable {
        return None;
    }
    let path = if is_root { String::from_str(".") } else { c.path.clone() };
    Some(PackageRow { name: c.name.clone(), path, absolute: c.absolute.clone(), runnable, is_root })
}

/// The rows for a bare app command at the workspace root: one per package
/// (the root only when it looks runnable), likely-runnable rows first, then
/// by path.
pub fn package_rows(command: &str, candidates: &Vec<PackageCandidate>) -> (rows: Vec<PackageRow>)
    ensures
        row_views(rows@) == package_rows_of(command@, candidate_views(candidates@)),
{
    let ghost cs = candidate_views(candidates@);
    let mut out: Vec<PackageRow> = Vec::new();
    let n = candidates.len();
    let mut i: usize = 0;
    proof {
        assert(cs.take(0).len() == 0);
        assert(row_views(out@) =~= ranked(kept_rows(command@, cs.take(0))));
    }
    while i < n
        invariant
            n == candidates@.len(),
            cs == candidate_views(candidates@),
            i <= n,
            row_views(out@) == ranked(kept_rows(command@, cs.take(i as int))),
        decreases n - i,
    {
        let ghost before = kept_rows(command@, cs.take(i as int));
        proof {
            assert(cs.take(i + 1).drop_last() =~= cs.take(i as int));
            assert(cs.take(i + 1).last() == candidates@[i as int]@);
        }
        match candidate_row(command, &candidates[i]) {
            Some(row) => {
                proof {
                    assert(kept_rows(command@, cs.take(i + 1)) == before.push(row@));
                    assert(before.push(row@).drop_last() =~= before);
                }
                insert_ranked(&mut out, row);
            }
            None => {}
        }
        i += 1;
    }
    proof {
        assert(cs.take(n as int) =~= cs);
    }
    out
}

proof fn lemma_kept_rows_contains(command: Seq<char>, cs: Seq<CandidateView>, i: int)
    requires
        0 <= i < cs.len(),
        row_of(command, cs[i]) is Some,
    ensures
        kept_rows(command, cs).contains(row_of(command, cs[i]).unwrap()),
    decreases cs.len(),
{
    let r = row_of(command, cs[i]).unwrap();
    let before = kept_rows(command, cs.drop_last());
    if i == cs.len() - 1 {
        assert(before.push(r)[before.len() as int] == r);
    } else {
        assert(cs.drop_last()[i] == cs[i]);
        lemma_kept_rows_contains(command, cs.drop_last(), i);
        let k = choose|k: int| 0 <= k < before.len() && before[k] == r;
        match row_of(command, cs.last()) {
            Some(last) => {
                assert(before.push(last)[k] == r);
            },
            None => {},
        }
    }
}

/// The rows are in ranking order (likely-runnable first, then by path), and
/// ranking neither adds nor drops a row.
pub proof fn law_rows_ranked_and_complete(command: Seq<char>, cs: Seq<CandidateView>)
    ensures
        is_ranked(package_rows_of(command, cs)),
        package_rows_of(command, cs).to_multiset() == kept_rows(command, cs).to_multiset(),
{
    lemma_ranked_is_ranked(kept_rows(command, cs));
    lemma_ranked_permutes(kept_rows(command, cs));
}

/// Nothing is hidden: every member package is a row with its own path, and the
/// root is a row, shown as `.`, whenever it looks runnable.
pub proof fn law_candidate_rows_listed(command: Seq<char>, cs: Seq<CandidateView>, i: int)
    requires
        0 <= i < cs.len(),
    ensures
        cs[i].path.len() > 0 ==> package_rows_of(command, cs).contains(
            RowView {
                name: cs[i].name,
                path: cs[i].path,
                absolute: cs[i].absolute,
                runnable: runnable(command, false, cs[i].signals),
                is_root: false,
            },
        ),
        cs[i].path.len() == 0 && runnable(command, true, cs[i].signals) ==> package_rows_of(
            command,
            cs,
        ).contains(
            RowView {
                name: cs[i].name,
                path: "."@,
                absolute: cs[i].absolute,
                runnable: true,
                is_root: true,
            },
        ),
{
    broadcast use vstd::seq_lib::group_to_multiset_ensures;

    if row_of(command, cs[i]) is Some {
        lemma_kept_rows_contains(command, cs, i);
        lemma_ranked_permutes(kept_rows(command, cs));
        let r = row_of(command, cs[i]).unwrap();
        assert(kept_rows(command, cs).to_multiset().count(r) > 0);
        assert(package_rows_of(command, cs).to_multiset().count(r) > 0);
    }
}

} // verus!
