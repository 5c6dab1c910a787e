//! Decimal text: reading the magnitude of a decimal number, and writing an integer.

use vstd::prelude::*;
use vstd::string::StringExecFns;

verus! {

pub open spec fn is_digit(c: char) -> bool {
    '0' <= c && c <= '9'
}

/// The value of a decimal digit.
pub open spec fn digit_val(c: char) -> nat {
    (c as int - '0' as int) as nat
}

/// The value of a run of decimal digits.
pub open spec fn digits_value(s: Seq<char>) -> nat
    decreases s.len(),
{
    if s.len() == 0 {
        0
    } else {
        10 * digits_value(s.drop_last()) + digit_val(s.last())
    }
}

pub open spec fn all_digits(s: Seq<char>) -> bool {
    forall|i: int| 0 <= i < s.len() ==> is_digit(#[trigger] s[i])
}

pub open spec fn all_zeros(s: Seq<char>) -> bool {
    forall|i: int| 0 <= i < s.len() ==> #[trigger] s[i] == '0'
}

/// Where the run of digits that starts at `i` ends.
pub open spec fn digits_end(t: Seq<char>, i: int) -> int
    decreases t.len() - i,
{
    if 0 <= i < t.len() && is_digit(t[i]) {
        digits_end(t, i + 1)
    } else {
        i
    }
}

/// Where the digits of `t` start: after a leading minus sign, if any.
pub open spec fn sign_len(t: Seq<char>) -> int {
    if t.len() > 0 && t[0] == '-' {
        1
    } else {
        0
    }
}

/// Whether `t` is a decimal number `[-]D[.F]`, with `D` and `F` runs of
/// digits, whose magnitude is at most `bound`.
pub open spec fn decimal_within(t: Seq<char>, bound: nat) -> bool {
    let s = sign_len(t);
    let k = digits_end(t, s);
    let whole = t.subrange(s, k);
    let frac = if k < t.len() {
        t.subrange(k + 1, t.len() as int)
    } else {
        Seq::<char>::empty()
    };
    &&& k > s
    &&& (k == t.len() || (t[k] == '.' && k + 1 < t.len() && all_digits(frac)))
    &&& (digits_value(whole) < bound || (digits_value(whole) == bound && all_zeros(frac)))
}

/// Whether `t` is a decimal number whose magnitude is at most `bound`.
pub fn decimal_within_bound(t: &str, bound: u64) -> (r: bool)
    requires
        bound <= 1000,
    ensures
        r == decimal_within(t@, bound as nat),
{
    let n = t.unicode_len();
    let s: usize = if n > 0 && t.get_char(0) == '-' {
        1
    } else {
        0
    };
    assert(s == sign_len(t@));
    let mut i: usize = s;
    let mut v: u64 = 0;
    let mut big = false;
    while i < n && is_digit_char(t.get_char(i))
        invariant
            n == t@.len(),
            s <= i <= n,
            s == sign_len(t@),
            digits_end(t@, s as int) == digits_end(t@, i as int),
            !big ==> v == digits_value(t@.subrange(s as int, i as int)) && v <= 1000,
            big ==> digits_value(t@.subrange(s as int, i as int)) > 1000,
        decreases n - i,
    {
        let c = t.get_char(i);
        let ghost prev = t@.subrange(s as int, i as int);
        assert(t@.subrange(s as int, i + 1).drop_last() =~= prev);
        assert(digits_value(t@.subrange(s as int, i + 1)) == 10 * digits_value(prev) + digit_val(c));
        if !big {
            let w = v * 10 + (c as u64 - '0' as u64);
            if w > 1000 {
                big = true;
            } else {
                v = w;
            }
        }
        i = i + 1;
    }
    let k = i;
    assert(digits_end(t@, k as int) == k as int);
    if k == s || big {
        return false;
    }
    if k == n {
        assert(all_zeros(Seq::<char>::empty()));
        return v < bound || v == bound;
    }
    if t.get_char(k) != '.' || k + 1 >= n {
        return false;
    }
    let mut j: usize = k + 1;
    let mut zeros = true;
    while j < n
        invariant
            n == t@.len(),
            s == sign_len(t@),
            s < k < n,
            digits_end(t@, s as int) == k as int,
            t@[k as int] == '.',
            v == digits_value(t@.subrange(s as int, k as int)),
            k + 1 <= j <= n,
            all_digits(t@.subrange(k + 1, j as int)),
            zeros == all_zeros(t@.subrange(k + 1, j as int)),
        decreases n - j,
    {
        let c = t.get_char(j);
        if !is_digit_char(c) {
            assert(t@.subrange(k + 1, n as int)[j - (k + 1)] == c);
            assert(!all_digits(t@.subrange(k + 1, n as int)));
            return false;
        }
        let ghost prev = t@.subrange(k + 1, j as int);
        assert(t@.subrange(k + 1, j + 1) =~= prev.push(c));
        assert(all_zeros(prev.push(c)) == (all_zeros(prev) && c == '0')) by {
            if all_zeros(prev) && c == '0' {
                assert forall|x: int| 0 <= x < prev.len() + 1 implies #[trigger] prev.push(c)[x] == '0' by {
                    if x < prev.len() {
                        assert(prev.push(c)[x] == prev[x]);
                    }
                }
            } else if !all_zeros(prev) {
                let x = choose|x: int| 0 <= x < prev.len() && #[trigger] prev[x] != '0';
                assert(prev.push(c)[x] == prev[x]);
            } else {
                assert(prev.push(c)[prev.len() as int] == c);
            }
        }
        if c != '0' {
            zeros = false;
        }
        j = j + 1;
    }
    v < bound || (v == bound && zeros)
}

/// Whether a character is a decimal digit.
pub fn is_digit_char(c: char) -> (r: bool)
    ensures
        r == is_digit(c),
{
    '0' <= c && c <= '9'
}

/// The decimal digit of a value below ten.
pub open spec fn digit_char(d: nat) -> char {
    ('0' as nat + d) as char
}

/// The decimal text of a natural number, without leading zeros.
pub open spec fn nat_text(n: nat) -> Seq<char>
    decreases n,
{
    if n < 10 {
        seq![digit_char(n)]
    } else {
        nat_text(n / 10).push(digit_char(n % 10))
    }
}

/// The decimal text of an integer, with a minus sign where it is negative.
pub open spec fn int_text(n: int) -> Seq<char> {
    if n < 0 {
        seq!['-'] + nat_text((-n) as nat)
    } else {
        nat_text(n as nat)
    }
}

/// The text of one decimal digit.
fn digit_str(d: u64) -> (r: &'static str)
    requires
        d < 10,
    ensures
        r@ == seq![digit_char(d as nat)],
{
    proof {
        reveal_strlit("0");
        reveal_strlit("1");
        reveal_strlit("2");
        reveal_strlit("3");
        reveal_strlit("4");
        reveal_strlit("5");
        reveal_strlit("6");
        reveal_strlit("7");
        reveal_strlit("8");
        reveal_strlit("9");
    }
    if d == 0 {
        "0"
    } else if d == 1 {
        "1"
    } else if d == 2 {
        "2"
    } else if d == 3 {
        "3"
    } else if d == 4 {
        "4"
    } else if d == 5 {
        "5"
    } else if d == 6 {
        "6"
    } else if d == 7 {
        "7"
    } else if d == 8 {
        "8"
    } else {
        "9"
    }
}

/// Appends the decimal text of `n`.
fn push_nat(out: &mut String, n: u64)
    ensures
        final(out)@ == old(out)@ + nat_text(n as nat),
    decreases n,
{
    if n >= 10 {
        push_nat(out, n / 10);
    }
    out.append(digit_str(n % 10));
    assert(final(out)@ =~= old(out)@ + nat_text(n as nat));
}

/// The decimal text of an integer.
pub fn int_to_text(n: i64) -> (r: String)
    ensures
        r@ == int_text(n as int),
{
    let mut out = String::new();
    if n < 0 {
        out.append("-");
        proof {
            reveal_strlit("-");
        }
        let m: u64 = (-(n as i128)) as u64;
        push_nat(&mut out, m);
    } else {
        push_nat(&mut out, n as u64);
    }
    assert(out@ =~= int_text(n as int));
    out
}

} // verus!
