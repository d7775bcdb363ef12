//! Decimal rendering and parsing of integers, verified end to end.
//!
//! The token store writes the absolute expiry timestamp as decimal text and
//! reads it back; the token codec writes field lengths the same way.  The
//! parser accepts exactly the canonical renderings (no leading zeros, no
//! stray signs) and round-trips every value, which
//! [`lemma_int_str_round_trip`] states.

use vstd::prelude::*;

verus! {

/// The character for the decimal digit `d`.
pub open spec fn digit_char(d: int) -> char {
    if d == 0 {
        '0'
    } else if d == 1 {
        '1'
    } else if d == 2 {
        '2'
    } else if d == 3 {
        '3'
    } else if d == 4 {
        '4'
    } else if d == 5 {
        '5'
    } else if d == 6 {
        '6'
    } else if d == 7 {
        '7'
    } else if d == 8 {
        '8'
    } else {
        '9'
    }
}

/// The value of a decimal digit character; 10 for anything else.
pub open spec fn char_digit(c: char) -> nat {
    if c == '0' {
        0
    } else if c == '1' {
        1
    } else if c == '2' {
        2
    } else if c == '3' {
        3
    } else if c == '4' {
        4
    } else if c == '5' {
        5
    } else if c == '6' {
        6
    } else if c == '7' {
        7
    } else if c == '8' {
        8
    } else if c == '9' {
        9
    } else {
        10
    }
}

/// Every character of `s` is a decimal digit.
pub open spec fn all_digits(s: Seq<char>) -> bool {
    forall|i: int| 0 <= i < s.len() ==> char_digit(s[i]) < 10
}

/// The number a digit string denotes (most significant digit first).
pub open spec fn digits_val(s: Seq<char>) -> nat
    decreases s.len(),
{
    if s.len() == 0 {
        0
    } else {
        digits_val(s.drop_last()) * 10 + char_digit(s.last())
    }
}

/// The canonical decimal digits of `n`: no leading zeros, `"0"` for zero.
pub open spec fn spec_nat_digits(n: nat) -> Seq<char>
    decreases n,
{
    if n < 10 {
        seq![digit_char(n as int)]
    } else {
        spec_nat_digits(n / 10).push(digit_char((n % 10) as int))
    }
}

/// The canonical decimal rendering of an integer, `'-'` for negatives.
pub open spec fn spec_int_str(n: int) -> Seq<char> {
    if n < 0 {
        seq!['-'] + spec_nat_digits((-n) as nat)
    } else {
        spec_nat_digits(n as nat)
    }
}

/// What the digit parser accepts: a non-empty all-digit string without a
/// leading zero (except `"0"` itself), valued by `digits_val`.
pub open spec fn spec_parse_nat(s: Seq<char>) -> Option<nat> {
    if s.len() == 0 || !all_digits(s) || (s.len() > 1 && s[0] == '0') {
        None
    } else {
        Some(digits_val(s))
    }
}

/// What the signed parser accepts: an optional `'-'` followed by canonical
/// digits, the value within `i64` range ("-0" is rejected).
pub open spec fn spec_parse_i64(s: Seq<char>) -> Option<i64> {
    if s.len() > 0 && s[0] == '-' {
        match spec_parse_nat(s.subrange(1, s.len() as int)) {
            Some(m) => if 0 < m <= i64::MAX as nat + 1 {
                Some((-(m as int)) as i64)
            } else {
                None
            },
            None => None,
        }
    } else {
        match spec_parse_nat(s) {
            Some(m) => if m <= i64::MAX as nat {
                Some(m as i64)
            } else {
                None
            },
            None => None,
        }
    }
}

proof fn lemma_digits_val_push(s: Seq<char>, c: char)
    ensures
        digits_val(s.push(c)) == digits_val(s) * 10 + char_digit(c),
{
    assert(s.push(c).drop_last() =~= s);
    assert(s.push(c).last() == c);
}

/// The canonical digits of `n` are digits, start with `'0'` only for zero,
/// and denote `n`.
pub proof fn lemma_nat_digits(n: nat)
    ensures
        spec_nat_digits(n).len() >= 1,
        all_digits(spec_nat_digits(n)),
        digits_val(spec_nat_digits(n)) == n,
        n > 0 ==> spec_nat_digits(n)[0] != '0',
        spec_nat_digits(n).len() == 1 <==> n < 10,
    decreases n,
{
    if n < 10 {
        let s = spec_nat_digits(n);
        assert(s == seq![digit_char(n as int)]);
        assert(s.drop_last() =~= Seq::<char>::empty());
        assert(digits_val(s) == digits_val(s.drop_last()) * 10 + char_digit(s.last()));
        assert(char_digit(digit_char(n as int)) == n);
    } else {
        lemma_nat_digits(n / 10);
        let p = spec_nat_digits(n / 10);
        let c = digit_char((n % 10) as int);
        lemma_digits_val_push(p, c);
        assert(char_digit(c) == n % 10);
        assert(digits_val(p) * 10 + n % 10 == n);
        assert forall|i: int| 0 <= i < p.push(c).len() implies char_digit(p.push(c)[i]) < 10 by {
            if i < p.len() {
                assert(p.push(c)[i] == p[i]);
            }
        }
        assert(p.push(c)[0] == p[0]);
    }
}

/// Extending a digit string to the right never shrinks its value.
pub proof fn lemma_digits_val_prefix_le(s: Seq<char>, k: int)
    requires
        0 <= k <= s.len(),
    ensures
        digits_val(s.take(k)) <= digits_val(s),
    decreases s.len() - k,
{
    if k < s.len() {
        lemma_digits_val_prefix_le(s.drop_last(), k);
        assert(s.drop_last().take(k) =~= s.take(k));
        assert(digits_val(s) == digits_val(s.drop_last()) * 10 + char_digit(s.last()));
        assert(digits_val(s.drop_last()) * 10 >= digits_val(s.drop_last()));
    } else {
        assert(s.take(k) =~= s);
    }
}

/// Round trip: parsing the canonical rendering of any `i64` gives it back.
pub proof fn lemma_int_str_round_trip(n: i64)
    ensures
        spec_parse_i64(spec_int_str(n as int)) == Some(n),
{
    if n < 0 {
        let m = (-(n as int)) as nat;
        lemma_nat_digits(m);
        let s = spec_int_str(n as int);
        assert(s == seq!['-'] + spec_nat_digits(m));
        assert(s[0] == '-');
        assert(s.subrange(1, s.len() as int) =~= spec_nat_digits(m));
        assert(spec_parse_nat(spec_nat_digits(m)) == Some(m));
        assert(0 < m <= i64::MAX as nat + 1);
    } else {
        lemma_nat_digits(n as nat);
        let s = spec_int_str(n as int);
        assert(s == spec_nat_digits(n as nat));
        assert(s[0] != '-') by {
            if n as nat > 0 {
                assert(s[0] != '0');
                assert(char_digit(s[0]) < 10);
            } else {
                assert(s == seq![digit_char(0)]);
            }
            assert(char_digit(s[0]) < 10);
            assert(char_digit('-') == 10);
        }
    }
}

fn digit_str(d: u64) -> (r: &'static str)
    requires
        d < 10,
    ensures
        r@ == seq![digit_char(d as int)],
{
    let r: &'static str = match d {
        0 => "0",
        1 => "1",
        2 => "2",
        3 => "3",
        4 => "4",
        5 => "5",
        6 => "6",
        7 => "7",
        8 => "8",
        _ => "9",
    };
    proof {
        reveal_strlit("0");
        reveal_strlit("1");
        reveal_strlit("2");
        reveal_strlit("3");
        reveal_strlit("4");
        reveal_strlit("5");
        reveal_strlit("6");
        reveal_strlit("7");
        reveal_strlit("8");
        reveal_strlit("9");
        assert(r@ =~= seq![digit_char(d as int)]);
    }
    r
}

/// The canonical decimal rendering of `m`.
pub fn u64_to_string(m: u64) -> (r: String)
    ensures
        r@ == spec_nat_digits(m as nat),
    decreases m,
{
    if m < 10 {
        digit_str(m).to_owned()
    } else {
        let mut s = u64_to_string(m / 10);
        s.append(digit_str(m % 10));
        proof {
            lemma_digits_val_push(spec_nat_digits((m / 10) as nat), digit_char((m % 10) as int));
            assert(spec_nat_digits((m / 10) as nat).push(digit_char((m % 10) as int)) =~= spec_nat_digits(
                (m / 10) as nat,
            ) + seq![digit_char((m % 10) as int)]);
        }
        s
    }
}

/// The canonical decimal rendering of `n`, `'-'` for negatives.
pub fn i64_to_string(n: i64) -> (r: String)
    ensures
        r@ == spec_int_str(n as int),
{
    if n >= 0 {
        u64_to_string(n as u64)
    } else {
        let mag: u64 = if n == i64::MIN {
            9223372036854775808u64
        } else {
            (-n) as u64
        };
        let mut s = String::new();
        s.append("-");
        s.append(u64_to_string(mag).as_str());
        proof {
            reveal_strlit("-");
            assert(s@ =~= seq!['-'] + spec_nat_digits(mag as nat));
        }
        s
    }
}

pub(crate) fn digit_of_char(c: char) -> (r: Option<u64>)
    ensures
        match r {
            Some(d) => char_digit(c) == d && d < 10,
            None => char_digit(c) == 10,
        },
{
    match c {
        '0' => Some(0),
        '1' => Some(1),
        '2' => Some(2),
        '3' => Some(3),
        '4' => Some(4),
        '5' => Some(5),
        '6' => Some(6),
        '7' => Some(7),
        '8' => Some(8),
        '9' => Some(9),
        _ => None,
    }
}

/// Parses a canonical decimal `i64`; exactly the inverse of
/// [`i64_to_string`] on canonical text, `None` on everything else.
pub fn parse_i64(s: &str) -> (r: Option<i64>)
    ensures
        r == spec_parse_i64(s@),
{
    let n = s.unicode_len();
    if n == 0 {
        return None;
    }
    let neg = s.get_char(0) == '-';
    let start: usize = if neg {
        1
    } else {
        0
    };
    let ghost digits = s@.subrange(start as int, n as int);
    proof {
        if !neg {
            assert(digits =~= s@);
        }
    }
    if n == start {
        return None;
    }
    if s.get_char(start) == '0' && n - start > 1 {
        assert(digits[0] == '0' && digits.len() > 1);
        return None;
    }
    let mut i: usize = start;
    let mut acc: u64 = 0;
    while i < n
        invariant
            start <= i <= n,
            n == s@.len(),
            start == if neg {
                1int
            } else {
                0int
            },
            digits == s@.subrange(start as int, n as int),
            neg == (s@[0] == '-'),
            !neg ==> digits == s@,
            acc as nat == digits_val(s@.subrange(start as int, i as int)),
            all_digits(s@.subrange(start as int, i as int)),
        decreases n - i,
    {
        let c = s.get_char(i);
        let ghost pre = s@.subrange(start as int, i as int);
        let ghost pre2 = s@.subrange(start as int, i as int + 1);
        proof {
            assert(pre2.drop_last() =~= pre);
            assert(pre2.last() == c);
        }
        let d = match digit_of_char(c) {
            Some(d) => d,
            None => {
                proof {
                    assert(digits[i - start] == c);
                    assert(!all_digits(digits));
                }
                return None;
            },
        };
        let next = match acc.checked_mul(10) {
            Some(t) => t.checked_add(d),
            None => None,
        };
        match next {
            Some(v) => {
                acc = v;
            },
            None => {
                proof {
                    assert(digits_val(pre2) == digits_val(pre) * 10 + char_digit(c));
                    assert(digits_val(pre2) > u64::MAX);
                    assert(digits.take(i + 1 - start) =~= pre2);
                    lemma_digits_val_prefix_le(digits, i + 1 - start);
                    assert(digits_val(digits) > i64::MAX as nat + 1);
                }
                return None;
            },
        }
        i = i + 1;
    }
    proof {
        assert(s@.subrange(start as int, n as int) =~= digits);
        assert(acc as nat == digits_val(digits));
        assert(spec_parse_nat(digits) == Some(digits_val(digits)));
    }
    if neg {
        if acc == 0 {
            None
        } else if acc == 9223372036854775808u64 {
            Some(i64::MIN)
        } else if acc > 9223372036854775808u64 {
            None
        } else {
            Some(-(acc as i64))
        }
    } else {
        if acc > i64::MAX as u64 {
            None
        } else {
            Some(acc as i64)
        }
    }
}

} // verus!
