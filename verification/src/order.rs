//! The order of text that `str`'s comparison uses, on characters.
use vstd::prelude::*;

verus! {

/// `a` sorts strictly before `b` in lexicographic order of code points. For
/// UTF-8 text this is the order in which `str` compares bytes.
pub open spec fn chars_lt(a: Seq<char>, b: Seq<char>) -> bool
    decreases a.len(),
{
    if a.len() == 0 {
        b.len() > 0
    } else if b.len() == 0 {
        false
    } else if a[0] != b[0] {
        (a[0] as u32) < (b[0] as u32)
    } else {
        chars_lt(a.drop_first(), b.drop_first())
    }
}

/// No string sorts before itself.
pub proof fn lemma_chars_lt_irreflexive(a: Seq<char>)
    ensures
        !chars_lt(a, a),
    decreases a.len(),
{
    if a.len() > 0 {
        lemma_chars_lt_irreflexive(a.drop_first());
    }
}

/// The order is transitive.
pub proof fn lemma_chars_lt_transitive(a: Seq<char>, b: Seq<char>, c: Seq<char>)
    requires
        chars_lt(a, b),
        chars_lt(b, c),
    ensures
        chars_lt(a, c),
    decreases a.len(),
{
    if a.len() > 0 && b.len() > 0 && c.len() > 0 && a[0] == b[0] && b[0] == c[0] {
        lemma_chars_lt_transitive(a.drop_first(), b.drop_first(), c.drop_first());
    }
}

/// Whether `a` sorts strictly before `b`.
pub fn str_lt(a: &str, b: &str) -> (r: bool)
    ensures
        r == chars_lt(a@, b@),
{
    let n = a.unicode_len();
    let m = b.unicode_len();
    let mut i: usize = 0;
    proof {
        assert(a@.skip(0) =~= a@);
        assert(b@.skip(0) =~= b@);
    }
    while i < n && i < m
        invariant
            n == a@.len(),
            m == b@.len(),
            i <= n,
            i <= m,
            chars_lt(a@.skip(i as int), b@.skip(i as int)) == chars_lt(a@, b@),
        decreases n - i,
    {
        let x = a.get_char(i);
        let y = b.get_char(i);
        let ghost sa = a@.skip(i as int);
        let ghost sb = b@.skip(i as int);
        assert(sa[0] == x && sb[0] == y);
        if x != y {
            return (x as u32) < (y as u32);
        }
        assert(sa.drop_first() =~= a@.skip(i + 1));
        assert(sb.drop_first() =~= b@.skip(i + 1));
        i += 1;
    }
    i == n && i < m
}

/// A proper prefix sorts first, and otherwise the first differing character
/// decides: two strings differing first at `i` are ordered by their
/// characters at `i`.
pub proof fn law_first_difference_decides(a: Seq<char>, b: Seq<char>, i: int)
    ensures
        a.len() < b.len() && a == b.take(a.len() as int) ==> chars_lt(a, b) && !chars_lt(b, a),
        (0 <= i < a.len() && i < b.len() && a.take(i) == b.take(i) && a[i] != b[i]) ==> (chars_lt(a, b)
            <==> (a[i] as u32) < (b[i] as u32)),
    decreases a.len(),
{
    if a.len() > 0 && b.len() > 0 {
        if a.len() < b.len() && a == b.take(a.len() as int) {
            assert(a[0] == b[0]);
            assert(a.drop_first() == b.drop_first().take(a.drop_first().len() as int));
        }
        if 0 < i < a.len() && i < b.len() && a.take(i) == b.take(i) && a[i] != b[i] {
            assert(a[0] == a.take(i)[0] && b[0] == b.take(i)[0]);
            assert(a.drop_first().take(i - 1) =~= b.drop_first().take(i - 1)) by {
                assert forall|j: int| 0 <= j < i - 1 implies a.drop_first()[j] == b.drop_first()[j] by {
                    assert(a.take(i)[j + 1] == b.take(i)[j + 1]);
                }
            }
        }
        law_first_difference_decides(a.drop_first(), b.drop_first(), i - 1);
    }
}

} // verus!
