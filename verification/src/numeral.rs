//! Decimal numerals: rendering an unsigned count as the sequence of
//! its decimal digit characters, and reading such a digit run back.
//!
//! `dec_rep` is the canonical numeral (most significant digit first);
//! `digits_val` folds a digit run back into its value, and the
//! round-trip lemma ties the two together.

use vstd::prelude::*;
use vstd::arithmetic::div_mod::lemma_fundamental_div_mod;

verus! {

/// The digit character for a value below ten.
pub open spec fn digit_char(d: int) -> char
    recommends
        0 <= d < 10,
{
    if d == 0 {
        '0'
    } else if d == 1 {
        '1'
    } else if d == 2 {
        '2'
    } else if d == 3 {
        '3'
    } else if d == 4 {
        '4'
    } else if d == 5 {
        '5'
    } else if d == 6 {
        '6'
    } else if d == 7 {
        '7'
    } else if d == 8 {
        '8'
    } else {
        '9'
    }
}

/// Whether `c` is a decimal digit character.
pub open spec fn is_digit(c: char) -> bool {
    c == '0' || c == '1' || c == '2' || c == '3' || c == '4' || c == '5' || c == '6' || c == '7'
        || c == '8' || c == '9'
}

/// The numeric value of a digit character.
pub open spec fn digit_val(c: char) -> int
    recommends
        is_digit(c),
{
    if c == '0' {
        0
    } else if c == '1' {
        1
    } else if c == '2' {
        2
    } else if c == '3' {
        3
    } else if c == '4' {
        4
    } else if c == '5' {
        5
    } else if c == '6' {
        6
    } else if c == '7' {
        7
    } else if c == '8' {
        8
    } else {
        9
    }
}

/// The canonical decimal numeral of `n`: most significant digit first,
/// a single `'0'` for zero, no leading zeros otherwise.
pub open spec fn dec_rep(n: int) -> Seq<char>
    recommends
        n >= 0,
    decreases n,
{
    if n < 10 {
        seq![digit_char(n)]
    } else {
        dec_rep(n / 10).push(digit_char(n % 10))
    }
}

/// The value of a run of digit characters, most significant first.
pub open spec fn digits_val(s: Seq<char>) -> int
    decreases s.len(),
{
    if s.len() == 0 {
        0
    } else {
        digits_val(s.drop_last()) * 10 + digit_val(s.last())
    }
}

/// A numeral is never empty and holds digit characters only.
pub proof fn lemma_dec_rep_digits(n: int)
    requires
        n >= 0,
    ensures
        dec_rep(n).len() >= 1,
        forall|i: int| 0 <= i < dec_rep(n).len() ==> is_digit(dec_rep(n)[i]),
    decreases n,
{
    if n >= 10 {
        lemma_dec_rep_digits(n / 10);
        assert(dec_rep(n) == dec_rep(n / 10).push(digit_char(n % 10)));
        assert(0 <= n % 10 < 10);
        assert(is_digit(digit_char(n % 10)));
        assert forall|i: int| 0 <= i < dec_rep(n).len() implies is_digit(dec_rep(n)[i]) by {
            if i < dec_rep(n / 10).len() {
                assert(dec_rep(n)[i] == dec_rep(n / 10)[i]);
            } else {
                assert(dec_rep(n)[i] == digit_char(n % 10));
            }
        }
    }
}

/// Reading the canonical numeral of `n` back yields `n`.
pub proof fn lemma_digits_val_dec_rep(n: int)
    requires
        n >= 0,
    ensures
        digits_val(dec_rep(n)) == n,
    decreases n,
{
    if n < 10 {
        let s = seq![digit_char(n)];
        assert(s.drop_last() =~= Seq::<char>::empty());
        assert(digits_val(Seq::<char>::empty()) == 0);
        assert(digits_val(s) == digit_val(digit_char(n)));
    } else {
        lemma_digits_val_dec_rep(n / 10);
        let s = dec_rep(n / 10).push(digit_char(n % 10));
        assert(dec_rep(n) == s);
        assert(s.drop_last() =~= dec_rep(n / 10));
        assert(s.last() == digit_char(n % 10));
        assert(0 <= n % 10 < 10);
        assert(digit_val(digit_char(n % 10)) == n % 10);
        assert(digits_val(s) == digits_val(dec_rep(n / 10)) * 10 + (n % 10));
        lemma_fundamental_div_mod(n, 10);
    }
}

/// The length of the leading run of digit characters.
pub open spec fn digit_prefix_len(s: Seq<char>) -> int
    decreases s.len(),
{
    if s.len() > 0 && is_digit(s.first()) {
        1 + digit_prefix_len(s.drop_first())
    } else {
        0
    }
}

/// The value at the head of a line: the value of the leading digit
/// run, or nothing when the line does not start with a digit.
pub open spec fn leading_number(s: Seq<char>) -> Option<int> {
    if digit_prefix_len(s) == 0 {
        None
    } else {
        Some(digits_val(s.take(digit_prefix_len(s))))
    }
}

/// When the first `k` characters are digits and the `k`-th is not (or
/// the sequence ends there), the leading digit run has length exactly `k`.
pub proof fn lemma_digit_prefix_exact(s: Seq<char>, k: int)
    requires
        0 <= k <= s.len(),
        forall|j: int| 0 <= j < k ==> is_digit(s[j]),
        k < s.len() ==> !is_digit(s[k]),
    ensures
        digit_prefix_len(s) == k,
    decreases s.len(),
{
    if k == 0 {
        if s.len() > 0 {
            assert(!is_digit(s.first()));
        }
    } else {
        assert(is_digit(s.first()));
        let r = s.drop_first();
        assert(forall|j: int| 0 <= j < k - 1 ==> r[j] == s[j + 1] && is_digit(s[j + 1]));
        assert(k - 1 < r.len() ==> r[k - 1] == s[k] && !is_digit(s[k]));
        lemma_digit_prefix_exact(r, k - 1);
    }
}

/// A numeral followed by a non-digit parses back to its own value.
pub proof fn lemma_leading_number_of_numeral(n: int, rest: Seq<char>)
    requires
        n >= 0,
        rest.len() > 0,
        !is_digit(rest.first()),
    ensures
        leading_number(dec_rep(n) + rest) == Some(n),
{
    let p = dec_rep(n);
    let s = p + rest;
    lemma_dec_rep_digits(n);
    assert(forall|j: int| 0 <= j < p.len() ==> s[j] == p[j] && is_digit(p[j]));
    assert(s[p.len() as int] == rest.first());
    lemma_digit_prefix_exact(s, p.len() as int);
    assert(s.take(p.len() as int) =~= p);
    lemma_digits_val_dec_rep(n);
}

/// The digit string below ten.
fn digit_str(d: u64) -> (r: &'static str)
    requires
        d < 10,
    ensures
        r@ == seq![digit_char(d as int)],
{
    proof {
        reveal_strlit("0");
        reveal_strlit("1");
        reveal_strlit("2");
        reveal_strlit("3");
        reveal_strlit("4");
        reveal_strlit("5");
        reveal_strlit("6");
        reveal_strlit("7");
        reveal_strlit("8");
        reveal_strlit("9");
    }
    let r = match d {
        0 => "0",
        1 => "1",
        2 => "2",
        3 => "3",
        4 => "4",
        5 => "5",
        6 => "6",
        7 => "7",
        8 => "8",
        _ => "9",
    };
    proof {
        assert(r@ =~= seq![digit_char(d as int)]);
    }
    r
}

/// Render `n` as its canonical decimal numeral.
pub fn u64_to_dec(n: u64) -> (s: String)
    ensures
        s@ == dec_rep(n as int),
    decreases n,
{
    if n < 10 {
        digit_str(n).to_owned()
    } else {
        let mut s = u64_to_dec(n / 10);
        s.append(digit_str(n % 10));
        proof {
            assert(s@ =~= dec_rep(n as int / 10).push(digit_char(n as int % 10)));
        }
        s
    }
}

} // verus!
