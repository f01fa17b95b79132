//! Character-sequence utilities: substring search, suffix tests,
//! case-insensitive comparison against a lowercase pattern, and the
//! suffix-after-last-separator operation used to derive filenames and
//! file extensions from URL paths.

use vstd::prelude::*;
use vstd::string::*;

verus! {

/// True when `pat` occurs as a contiguous run of characters in `s`.
pub open spec fn contains_seq(s: Seq<char>, pat: Seq<char>) -> bool {
    exists|i: int| 0 <= i && i + pat.len() <= s.len() && #[trigger] s.subrange(i, i + pat.len())
        == pat
}

/// True when `s` ends with the characters of `suffix`.
pub open spec fn ends_with_seq(s: Seq<char>, suffix: Seq<char>) -> bool {
    suffix.len() <= s.len() && s.subrange(s.len() - suffix.len(), s.len() as int) == suffix
}

/// Whether `pat` matches the characters of `s` starting at position `i`.
fn match_at(s: &str, pat: &str, i: usize) -> (r: bool)
    requires
        i + pat@.len() <= s@.len(),
        s@.len() <= usize::MAX,
    ensures
        r == (s@.subrange(i as int, i + pat@.len()) == pat@),
{
    let m: usize = pat.unicode_len();
    let mut j: usize = 0;
    while j < m
        invariant
            j <= m,
            m == pat@.len(),
            i + m <= s@.len(),
            s@.len() <= usize::MAX,
            forall|k: int| 0 <= k < j ==> s@[i + k] == pat@[k],
        decreases m - j,
    {
        if s.get_char(i + j) != pat.get_char(j) {
            assert(s@.subrange(i as int, i + pat@.len())[j as int] != pat@[j as int]);
            return false;
        }
        j = j + 1;
    }
    assert(s@.subrange(i as int, i + pat@.len()) =~= pat@);
    true
}

/// Substring search; reports whether `pat` occurs anywhere in `s`.
pub fn contains_substr(s: &str, pat: &str) -> (r: bool)
    ensures
        r == contains_seq(s@, pat@),
{
    let n: usize = s.unicode_len();
    let m: usize = pat.unicode_len();
    if m > n {
        return false;
    }
    if m == 0 {
        assert(s@.subrange(0, 0 + pat@.len() as int) =~= pat@);
        return true;
    }
    let mut i: usize = 0;
    while i <= n - m
        invariant
            1 <= m <= n,
            n == s@.len(),
            m == pat@.len(),
            i <= n - m + 1,
            forall|k: int| 0 <= k < i ==> #[trigger] s@.subrange(k, k + pat@.len()) != pat@,
        decreases n - m + 1 - i,
    {
        if match_at(s, pat, i) {
            assert(contains_seq(s@, pat@));
            return true;
        }
        i = i + 1;
    }
    assert forall|k: int| 0 <= k && k + pat@.len() <= s@.len() implies #[trigger] s@.subrange(
        k,
        k + pat@.len(),
    ) != pat@ by {
        assert(k < i);
    }
    false
}

/// Character-for-character equality of two string slices.
pub fn str_eq(a: &str, b: &str) -> (r: bool)
    ensures
        r == (a@ == b@),
{
    let na: usize = a.unicode_len();
    let nb: usize = b.unicode_len();
    if na != nb {
        return false;
    }
    let r: bool = match_at(a, b, 0);
    proof {
        assert(a@.subrange(0, 0 + b@.len() as int) =~= a@);
    }
    r
}

/// Suffix test; reports whether `s` ends with `suffix`.
pub fn ends_with_str(s: &str, suffix: &str) -> (r: bool)
    ensures
        r == ends_with_seq(s@, suffix@),
{
    let n: usize = s.unicode_len();
    let m: usize = suffix.unicode_len();
    if m > n {
        return false;
    }
    match_at(s, suffix, n - m)
}

/// Character match against a lowercase pattern character: equal outright,
/// or the pattern is an ASCII lowercase letter and the candidate is its
/// uppercase form.
pub open spec fn lower_eq_char(a: char, b: char) -> bool {
    a == b || (97 <= b as u32 && b as u32 <= 122 && a as u32 == b as u32 - 32)
}

/// Case-insensitive equality of `a` against the lowercase pattern `b`,
/// folding ASCII letters only.
pub open spec fn eq_ignore_case(a: Seq<char>, b: Seq<char>) -> bool {
    a.len() == b.len() && forall|i: int| 0 <= i < a.len() ==> lower_eq_char(a[i], b[i])
}

/// Compares `a` against the lowercase pattern `b`, ignoring ASCII case in `a`.
pub fn eq_ignore_ascii_lower(a: &str, b: &str) -> (r: bool)
    ensures
        r == eq_ignore_case(a@, b@),
{
    let na: usize = a.unicode_len();
    let nb: usize = b.unicode_len();
    if na != nb {
        return false;
    }
    let mut i: usize = 0;
    while i < na
        invariant
            i <= na,
            na == a@.len(),
            na == b@.len(),
            forall|k: int| 0 <= k < i ==> lower_eq_char(a@[k], b@[k]),
        decreases na - i,
    {
        let ca: char = a.get_char(i);
        let cb: char = b.get_char(i);
        let ca32: u32 = ca as u32;
        let cb32: u32 = cb as u32;
        if !(ca == cb || (97 <= cb32 && cb32 <= 122 && ca32 == cb32 - 32)) {
            assert(!lower_eq_char(a@[i as int], b@[i as int]));
            return false;
        }
        i = i + 1;
    }
    true
}

/// The characters of `s` after the last occurrence of `c`; all of `s`
/// when `c` does not occur.
pub open spec fn suffix_after_last(s: Seq<char>, c: char) -> Seq<char>
    decreases s.len(),
{
    if s.len() == 0 {
        s
    } else if s.last() == c {
        Seq::empty()
    } else {
        suffix_after_last(s.drop_last(), c).push(s.last())
    }
}

/// Returns the part of `s` after the last occurrence of `c` (all of `s`
/// when `c` does not occur), as for deriving a filename from a path.
pub fn after_last(s: &str, c: char) -> (r: String)
    ensures
        r@ == suffix_after_last(s@, c),
{
    let n: usize = s.unicode_len();
    proof {
        assert(s@.subrange(0, n as int) =~= s@);
        assert(suffix_after_last(s@, c) + s@.subrange(n as int, n as int) =~= suffix_after_last(
            s@,
            c,
        ));
    }
    let mut i: usize = n;
    while i > 0
        invariant
            i <= n,
            n == s@.len(),
            suffix_after_last(s@, c) == suffix_after_last(s@.subrange(0, i as int), c)
                + s@.subrange(i as int, n as int),
        decreases i,
    {
        if s.get_char(i - 1) == c {
            proof {
                assert(s@.subrange(0, i as int).last() == c);
                assert(suffix_after_last(s@, c) =~= s@.subrange(i as int, n as int));
            }
            let part: &str = s.substring_char(i, n);
            return String::from_str(part);
        }
        proof {
            let t = s@.subrange(0, i as int);
            assert(t.last() == s@[i - 1]);
            assert(t.drop_last() =~= s@.subrange(0, i - 1));
            assert(suffix_after_last(t, c) == suffix_after_last(s@.subrange(0, i - 1), c).push(
                s@[i - 1],
            ));
            assert(suffix_after_last(s@.subrange(0, i - 1), c).push(s@[i - 1]) + s@.subrange(
                i as int,
                n as int,
            ) =~= suffix_after_last(s@.subrange(0, i - 1), c) + s@.subrange(i - 1, n as int));
        }
        i = i - 1;
    }
    proof {
        assert(s@.subrange(0, 0).len() == 0);
        assert(suffix_after_last(s@, c) =~= s@.subrange(0, n as int));
        assert(s@.subrange(0, n as int) =~= s@);
    }
    let whole: &str = s.substring_char(0, n);
    String::from_str(whole)
}

/// The character for the decimal digit `d`.
pub open spec fn dec_digit(d: int) -> char {
    if d == 0 {
        '0'
    } else if d == 1 {
        '1'
    } else if d == 2 {
        '2'
    } else if d == 3 {
        '3'
    } else if d == 4 {
        '4'
    } else if d == 5 {
        '5'
    } else if d == 6 {
        '6'
    } else if d == 7 {
        '7'
    } else if d == 8 {
        '8'
    } else {
        '9'
    }
}

/// Decimal rendering of a nonnegative integer, most significant digit first.
pub open spec fn dec_str(n: int) -> Seq<char>
    recommends
        n >= 0,
    decreases n,
{
    if n < 10 {
        seq![dec_digit(n)]
    } else {
        dec_str(n / 10).push(dec_digit(n % 10))
    }
}

/// Decimal rendering of an integer, with a leading minus sign when negative.
pub open spec fn dec_int_str(n: int) -> Seq<char> {
    if n < 0 {
        seq!['-'] + dec_str(-n)
    } else {
        dec_str(n)
    }
}

/// The digit characters of `ds` in reverse order; `ds` holds a number's
/// digits least significant first.
spec fn rev_digit_chars(ds: Seq<u8>) -> Seq<char>
    decreases ds.len(),
{
    if ds.len() == 0 {
        Seq::empty()
    } else {
        seq![dec_digit(ds.last() as int)] + rev_digit_chars(ds.drop_last())
    }
}

/// Appends the character for the decimal digit `d` to `s`.
fn push_digit(s: &mut String, d: u8)
    requires
        d < 10,
    ensures
        final (s)@ == old(s)@ + seq![dec_digit(d as int)],
{
    proof {
        reveal_strlit("0");
        reveal_strlit("1");
        reveal_strlit("2");
        reveal_strlit("3");
        reveal_strlit("4");
        reveal_strlit("5");
        reveal_strlit("6");
        reveal_strlit("7");
        reveal_strlit("8");
        reveal_strlit("9");
    }
    if d == 0 {
        s.append("0");
        assert(("0")@ =~= seq![dec_digit(0)]);
    } else if d == 1 {
        s.append("1");
        assert(("1")@ =~= seq![dec_digit(1)]);
    } else if d == 2 {
        s.append("2");
        assert(("2")@ =~= seq![dec_digit(2)]);
    } else if d == 3 {
        s.append("3");
        assert(("3")@ =~= seq![dec_digit(3)]);
    } else if d == 4 {
        s.append("4");
        assert(("4")@ =~= seq![dec_digit(4)]);
    } else if d == 5 {
        s.append("5");
        assert(("5")@ =~= seq![dec_digit(5)]);
    } else if d == 6 {
        s.append("6");
        assert(("6")@ =~= seq![dec_digit(6)]);
    } else if d == 7 {
        s.append("7");
        assert(("7")@ =~= seq![dec_digit(7)]);
    } else if d == 8 {
        s.append("8");
        assert(("8")@ =~= seq![dec_digit(8)]);
    } else {
        s.append("9");
        assert(("9")@ =~= seq![dec_digit(9)]);
    }
}

/// Renders `n` in decimal.
pub fn u64_to_dec(n: u64) -> (r: String)
    ensures
        r@ == dec_str(n as int),
{
    let mut digits: Vec<u8> = Vec::new();
    let mut rem: u64 = n;
    loop
        invariant_except_break
            digits@.len() == 0 ==> rem == n,
            digits@.len() > 0 ==> rem > 0 && dec_str(n as int) == dec_str(rem as int)
                + rev_digit_chars(digits@),
        invariant
            forall|k: int| 0 <= k < digits@.len() ==> digits@[k] < 10,
        ensures
            digits@.len() > 0,
            dec_str(n as int) == rev_digit_chars(digits@),
        decreases rem,
    {
        let ghost old_rem = rem;
        let ghost old_digits = digits@;
        let d: u8 = (rem % 10) as u8;
        digits.push(d);
        rem = rem / 10;
        proof {
            assert(digits@.last() == d);
            assert(digits@.drop_last() =~= old_digits);
            assert(rev_digit_chars(digits@) == seq![dec_digit(d as int)] + rev_digit_chars(
                old_digits,
            ));
            if rem > 0 {
                assert(dec_str(old_rem as int) == dec_str(rem as int).push(
                    dec_digit(old_rem as int % 10),
                ));
                assert(dec_str(rem as int).push(dec_digit(d as int)) =~= dec_str(rem as int)
                    + seq![dec_digit(d as int)]);
                if old_digits.len() > 0 {
                    assert((dec_str(rem as int) + seq![dec_digit(d as int)]) + rev_digit_chars(
                        old_digits,
                    ) =~= dec_str(rem as int) + rev_digit_chars(digits@));
                } else {
                    assert(rev_digit_chars(old_digits) =~= Seq::<char>::empty());
                    assert((dec_str(rem as int) + seq![dec_digit(d as int)]) =~= dec_str(
                        rem as int,
                    ) + rev_digit_chars(digits@));
                }
            } else {
                assert(dec_str(old_rem as int) == seq![dec_digit(old_rem as int)]);
                if old_digits.len() > 0 {
                    assert(seq![dec_digit(d as int)] + rev_digit_chars(old_digits)
                        == rev_digit_chars(digits@));
                } else {
                    assert(rev_digit_chars(old_digits) =~= Seq::<char>::empty());
                    assert(seq![dec_digit(d as int)] + rev_digit_chars(old_digits) =~= seq![
                        dec_digit(d as int),
                    ]);
                }
            }
        }
        if rem == 0 {
            break ;
        }
    }
    let mut out: String = String::new();
    let mut k: usize = digits.len();
    proof {
        assert(digits@.subrange(0, k as int) =~= digits@);
        assert(out@ + rev_digit_chars(digits@.subrange(0, k as int)) =~= rev_digit_chars(digits@));
    }
    while k > 0
        invariant
            k <= digits@.len(),
            forall|j: int| 0 <= j < digits@.len() ==> digits@[j] < 10,
            dec_str(n as int) == rev_digit_chars(digits@),
            out@ + rev_digit_chars(digits@.subrange(0, k as int)) == rev_digit_chars(digits@),
        decreases k,
    {
        let d: u8 = digits[k - 1];
        let ghost pre = out@;
        push_digit(&mut out, d);
        proof {
            let t = digits@.subrange(0, k as int);
            assert(t.last() == digits@[k - 1]);
            assert(t.drop_last() =~= digits@.subrange(0, k - 1));
            assert(rev_digit_chars(t) == seq![dec_digit(d as int)] + rev_digit_chars(
                digits@.subrange(0, k - 1),
            ));
            assert((pre + seq![dec_digit(d as int)]) + rev_digit_chars(digits@.subrange(0, k - 1))
                =~= pre + (seq![dec_digit(d as int)] + rev_digit_chars(digits@.subrange(0, k - 1))));
        }
        k = k - 1;
    }
    proof {
        assert(digits@.subrange(0, 0) =~= Seq::<u8>::empty());
        assert(out@ + rev_digit_chars(digits@.subrange(0, 0)) =~= out@);
    }
    out
}

/// Renders `n` in decimal, with a leading minus sign when negative.
pub fn i64_to_dec(n: i64) -> (r: String)
    ensures
        r@ == dec_int_str(n as int),
{
    if n >= 0 {
        u64_to_dec(n as u64)
    } else {
        let m: u64 = ((-(n + 1)) as u64) + 1;
        assert(m as int == -(n as int));
        let mut out: String = String::from_str("-");
        let digits: String = u64_to_dec(m);
        out.append(digits.as_str());
        proof {
            reveal_strlit("-");
            assert(("-")@ =~= seq!['-']);
        }
        out
    }
}

} // verus!
