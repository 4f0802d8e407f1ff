//! Small verified string helpers shared by the argument and message logic.
use vstd::prelude::*;

verus! {

/// Whether a string's first character is `-`.
pub open spec fn starts_with_dash(s: Seq<char>) -> bool {
    s.len() > 0 && s[0] == '-'
}

/// `n` space characters.
pub open spec fn spaces(n: nat) -> Seq<char> {
    Seq::new(n, |i: int| ' ')
}

/// `s` left-aligned in a field of `width` characters, as `{:<width$}` writes it:
/// spaces are added after `s` until it holds `width` characters.
pub open spec fn pad_right(s: Seq<char>, width: nat) -> Seq<char> {
    if s.len() < width {
        s + spaces((width - s.len()) as nat)
    } else {
        s
    }
}

/// The decimal digits of `n`, as `Display` writes an unsigned integer.
pub open spec fn decimal(n: nat) -> Seq<char>
    decreases n,
{
    if n < 10 {
        seq![digit_char(n)]
    } else {
        decimal(n / 10) + seq![digit_char(n % 10)]
    }
}

/// The character of a single decimal digit.
pub open spec fn digit_char(d: nat) -> char {
    if d == 0 { '0' }
    else if d == 1 { '1' }
    else if d == 2 { '2' }
    else if d == 3 { '3' }
    else if d == 4 { '4' }
    else if d == 5 { '5' }
    else if d == 6 { '6' }
    else if d == 7 { '7' }
    else if d == 8 { '8' }
    else { '9' }
}

/// Whether two strings hold the same characters.
pub fn str_eq(a: &str, b: &str) -> (r: bool)
    ensures
        r == (a@ == b@),
{
    let n = a.unicode_len();
    if n != b.unicode_len() {
        return false;
    }
    let mut i: usize = 0;
    while i < n
        invariant
            n == a@.len(),
            n == b@.len(),
            i <= n,
            forall|j: int| 0 <= j < i ==> a@[j] == b@[j],
        decreases n - i,
    {
        if a.get_char(i) != b.get_char(i) {
            return false;
        }
        i += 1;
    }
    assert(a@ =~= b@);
    true
}

/// Whether a string begins with `-`.
pub fn has_leading_dash(s: &str) -> (r: bool)
    ensures
        r == starts_with_dash(s@),
{
    s.unicode_len() > 0 && s.get_char(0) == '-'
}

/// Appends `n` spaces to `out`.
pub fn push_spaces(out: &mut String, n: usize)
    ensures
        final(out)@ == old(out)@ + spaces(n as nat),
{
    let mut i: usize = 0;
    while i < n
        invariant
            i <= n,
            out@ == old(out)@ + spaces(i as nat),
        decreases n - i,
    {
        out.append(" ");
        proof {
            assert(" "@ =~= seq![' ']) by {
                reveal_strlit(" ");
            }
            assert(old(out)@ + spaces((i + 1) as nat) =~= old(out)@ + spaces(i as nat) + seq![' ']);
        }
        i += 1;
    }
}

/// The one-character string of a decimal digit.
fn digit_str(d: usize) -> (r: &'static str)
    requires
        d < 10,
    ensures
        r@ == seq![digit_char(d as nat)],
{
    proof {
        reveal_strlit("0");
        reveal_strlit("1");
        reveal_strlit("2");
        reveal_strlit("3");
        reveal_strlit("4");
        reveal_strlit("5");
        reveal_strlit("6");
        reveal_strlit("7");
        reveal_strlit("8");
        reveal_strlit("9");
    }
    if d == 0 { "0" }
    else if d == 1 { "1" }
    else if d == 2 { "2" }
    else if d == 3 { "3" }
    else if d == 4 { "4" }
    else if d == 5 { "5" }
    else if d == 6 { "6" }
    else if d == 7 { "7" }
    else if d == 8 { "8" }
    else { "9" }
}

/// Appends the decimal digits of `n` to `out`.
pub fn push_decimal(out: &mut String, n: usize)
    ensures
        final(out)@ == old(out)@ + decimal(n as nat),
    decreases n,
{
    if n >= 10 {
        push_decimal(out, n / 10);
    }
    out.append(digit_str(n % 10));
    proof {
        if n >= 10 {
            assert(old(out)@ + decimal(n as nat) =~= old(out)@ + decimal((n / 10) as nat) + seq![digit_char((n % 10) as nat)]);
        } else {
            assert(old(out)@ + decimal(n as nat) =~= old(out)@ + seq![digit_char((n % 10) as nat)]);
        }
    }
}

/// The number that a string of decimal digits spells.
pub open spec fn digits_value(s: Seq<char>) -> nat
    decreases s.len(),
{
    if s.len() == 0 {
        0
    } else {
        digits_value(s.drop_last()) * 10 + digit_of(s.last())
    }
}

/// The value of a decimal digit character.
pub open spec fn digit_of(c: char) -> nat {
    (c as u32 - '0' as u32) as nat
}

proof fn lemma_digit_chars()
    ensures
        forall|d: nat| d < 10 ==> digit_of(#[trigger] digit_char(d)) == d,
        forall|d: nat| 0 < d < 10 ==> #[trigger] digit_char(d) != '0',
        forall|d: nat| '0' <= #[trigger] digit_char(d) <= '9',
{
    assert forall|d: nat| d < 10 implies digit_of(#[trigger] digit_char(d)) == d by {
        if d == 0 {} else if d == 1 {} else if d == 2 {} else if d == 3 {} else if d == 4 {}
        else if d == 5 {} else if d == 6 {} else if d == 7 {} else if d == 8 {} else {}
    }
}

/// Decimal text reads back as the number it was written for, and it is all
/// digits, without leading zeros.
pub proof fn law_decimal_reads_back(n: nat)
    ensures
        digits_value(decimal(n)) == n,
        decimal(n).len() > 0,
        forall|i: int| 0 <= i < decimal(n).len() ==> '0' <= #[trigger] decimal(n)[i] <= '9',
        decimal(n).len() > 1 ==> decimal(n)[0] != '0',
        n >= 10 ==> decimal(n).len() >= 2,
    decreases n,
{
    lemma_digit_chars();
    if n < 10 {
        let d = decimal(n);
        assert(d.drop_last() =~= Seq::<char>::empty());
        assert(digits_value(d.drop_last()) == 0);
        assert(digit_of(d.last()) == n);
    } else {
        law_decimal_reads_back(n / 10);
        let d = decimal(n);
        assert(d.drop_last() =~= decimal(n / 10));
        assert(d.last() == digit_char(n % 10));
        assert((n / 10) * 10 + n % 10 == n);
        assert(d[0] == decimal(n / 10)[0]);
        assert(digit_of(d.last()) == n % 10);
        assert(digits_value(d) == digits_value(decimal(n / 10)) * 10 + n % 10);
        if decimal(n / 10).len() == 1 {
            assert(n / 10 < 10);
            assert(n / 10 >= 1);
        }
        assert forall|i: int| 0 <= i < d.len() implies '0' <= #[trigger] d[i] <= '9' by {
            if i < d.len() - 1 {
                assert(d[i] == decimal(n / 10)[i]);
            }
        }
    }
}

/// Padding keeps the text and adds only spaces, up to the width: the result
/// is as long as the wider of the text and the width.
pub proof fn law_padding_adds_only_spaces(s: Seq<char>, width: nat, i: int)
    ensures
        pad_right(s, width).len() == if s.len() < width { width } else { s.len() },
        pad_right(s, width).take(s.len() as int) == s,
        s.len() <= i < pad_right(s, width).len() ==> pad_right(s, width)[i] == ' ',
{
    assert(pad_right(s, width).take(s.len() as int) =~= s);
}

} // verus!
