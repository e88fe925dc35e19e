//! Decimal printing and parsing of unsigned integers, verified against a
//! sequence-level model.  The provisioning layer prints attribute values and
//! parses numeric configuration (the cron period, the server port).

use vstd::prelude::*;
use vstd::string::*;

verus! {

/// The character for one decimal digit.
pub open spec fn digit_char(d: int) -> char {
    if d == 0 {
        '0'
    } else if d == 1 {
        '1'
    } else if d == 2 {
        '2'
    } else if d == 3 {
        '3'
    } else if d == 4 {
        '4'
    } else if d == 5 {
        '5'
    } else if d == 6 {
        '6'
    } else if d == 7 {
        '7'
    } else if d == 8 {
        '8'
    } else {
        '9'
    }
}

/// The decimal form of a number, most significant digit first, no sign and no
/// leading zero (a single `0` for zero).
pub open spec fn dec_seq(n: nat) -> Seq<char>
    decreases n,
{
    if n < 10 {
        seq![digit_char(n as int)]
    } else {
        dec_seq(n / 10).push(digit_char((n % 10) as int))
    }
}

/// Whether a character is a decimal digit.
pub open spec fn is_digit(c: char) -> bool {
    '0' <= c && c <= '9'
}

/// The value of one digit character.
pub open spec fn digit_val(c: char) -> int {
    c as u32 - 48
}

/// Whether every character of the sequence is a decimal digit.
pub open spec fn all_digits(s: Seq<char>) -> bool {
    forall|i: int| 0 <= i < s.len() ==> is_digit(#[trigger] s[i])
}

/// The value of a digit sequence read in base ten.
pub open spec fn digits_val(s: Seq<char>) -> int
    decreases s.len(),
{
    if s.len() == 0 {
        0
    } else {
        digits_val(s.drop_last()) * 10 + digit_val(s.last())
    }
}

/// What parsing an unsigned decimal with a bound returns: the grammar is an
/// optional `+` sign followed by one or more digits, and the value must fit
/// the bound.
pub open spec fn parse_uint_model(s: Seq<char>, max: int) -> Option<int> {
    let ds = if s.len() > 0 && s[0] == '+' {
        s.drop_first()
    } else {
        s
    };
    if ds.len() > 0 && all_digits(ds) && digits_val(ds) <= max {
        Some(digits_val(ds))
    } else {
        None
    }
}

/// The single-character string for one digit.
fn digit_str(d: u64) -> (r: &'static str)
    requires
        d < 10,
    ensures
        r@ == seq![digit_char(d as int)],
{
    proof {
        reveal_strlit("0");
        reveal_strlit("1");
        reveal_strlit("2");
        reveal_strlit("3");
        reveal_strlit("4");
        reveal_strlit("5");
        reveal_strlit("6");
        reveal_strlit("7");
        reveal_strlit("8");
        reveal_strlit("9");
    }
    let r: &'static str = if d == 0 {
        "0"
    } else if d == 1 {
        "1"
    } else if d == 2 {
        "2"
    } else if d == 3 {
        "3"
    } else if d == 4 {
        "4"
    } else if d == 5 {
        "5"
    } else if d == 6 {
        "6"
    } else if d == 7 {
        "7"
    } else if d == 8 {
        "8"
    } else {
        "9"
    };
    proof {
        assert(r@ =~= seq![digit_char(d as int)]);
    }
    r
}

/// Prints a number in decimal.
pub fn u64_to_string(n: u64) -> (r: String)
    ensures
        r@ == dec_seq(n as nat),
    decreases n,
{
    if n < 10 {
        digit_str(n).to_owned()
    } else {
        let s = u64_to_string(n / 10);
        let r = s.concat(digit_str(n % 10));
        proof {
            assert(r@ =~= dec_seq(n as nat));
        }
        r
    }
}

/// The value of a digit sequence is never negative.
pub proof fn lemma_digits_val_nonneg(s: Seq<char>)
    requires
        all_digits(s),
    ensures
        digits_val(s) >= 0,
    decreases s.len(),
{
    if s.len() > 0 {
        lemma_digits_val_nonneg(s.drop_last());
    }
}

/// Extending a digit sequence by one digit multiplies its value by ten and
/// adds the digit.
pub proof fn lemma_digits_val_take_step(s: Seq<char>, j: int)
    requires
        0 <= j < s.len(),
    ensures
        digits_val(s.take(j + 1)) == digits_val(s.take(j)) * 10 + digit_val(s[j]),
{
    assert(s.take(j + 1).drop_last() =~= s.take(j));
    assert(s.take(j + 1).last() == s[j]);
}

/// A digit sequence is worth at least any of its prefixes.
pub proof fn lemma_digits_val_prefix(s: Seq<char>, j: int)
    requires
        all_digits(s),
        0 <= j <= s.len(),
    ensures
        digits_val(s) >= digits_val(s.take(j)),
    decreases s.len() - j,
{
    if j == s.len() {
        assert(s.take(j) =~= s);
    } else {
        lemma_digits_val_take_step(s, j);
        lemma_digits_val_nonneg(s.take(j));
        lemma_digits_val_prefix(s, j + 1);
    }
}

/// Parses an unsigned decimal number: an optional `+` sign followed by one or
/// more digits whose value fits in a `u64`.  Anything else is rejected.
pub fn parse_u64(s: &str) -> (r: Option<u64>)
    ensures
        r matches Some(v) ==> parse_uint_model(s@, u64::MAX as int) == Some(v as int),
        r is None ==> parse_uint_model(s@, u64::MAX as int) is None,
{
    let n = s.unicode_len();
    if n == 0 {
        return None;
    }
    let first = s.get_char(0);
    let start: usize = if first == '+' {
        1
    } else {
        0
    };
    let ghost ds: Seq<char> = if s@[0] == '+' {
        s@.drop_first()
    } else {
        s@
    };
    proof {
        assert(ds =~= s@.skip(start as int));
    }
    if n == start {
        return None;
    }
    let mut acc: u64 = 0;
    let mut i: usize = start;
    while i < n
        invariant
            start <= i <= n,
            n == s@.len(),
            start <= 1,
            ds == s@.skip(start as int),
            ds == (if s@.len() > 0 && s@[0] == '+' {
                s@.drop_first()
            } else {
                s@
            }),
            forall|j: int| 0 <= j < i - start ==> is_digit(#[trigger] ds[j]),
            acc as int == digits_val(ds.take(i - start)),
        decreases n - i,
    {
        let c = s.get_char(i);
        let cv = c as u32;
        if cv < 48 || cv > 57 {
            proof {
                assert(ds[i - start] == s@[i as int]);
                assert(!is_digit(ds[i - start]));
                assert(!all_digits(ds));
            }
            return None;
        }
        let d: u64 = (cv - 48) as u64;
        proof {
            lemma_digits_val_take_step(ds, i - start);
        }
        let next = match acc.checked_mul(10) {
            Some(m) => m.checked_add(d),
            None => None,
        };
        match next {
            Some(v) => {
                acc = v;
            },
            None => {
                // The prefix up to and including this digit already exceeds
                // the bound, so the whole digit string does too.
                proof {
                    assert(ds[i - start] == s@[i as int]);
                    assert(digit_val(ds[i - start]) == d as int);
                    if all_digits(ds) {
                        lemma_digits_val_nonneg(ds.take(i - start));
                        lemma_digits_val_prefix(ds, i - start + 1);
                        assert(digits_val(ds.take(i - start + 1)) > u64::MAX as int);
                        assert(digits_val(ds) > u64::MAX as int);
                    }
                }
                return None;
            },
        }
        i += 1;
    }
    proof {
        assert(ds.take(n - start) =~= ds);
    }
    Some(acc)
}

/// Parses an unsigned decimal number that fits in a `u16`, with the same
/// grammar as `parse_u64`.
pub fn parse_u16(s: &str) -> (r: Option<u16>)
    ensures
        r matches Some(v) ==> parse_uint_model(s@, u16::MAX as int) == Some(v as int),
        r is None ==> parse_uint_model(s@, u16::MAX as int) is None,
{
    match parse_u64(s) {
        Some(v) => {
            if v <= 65535 {
                Some(v as u16)
            } else {
                None
            }
        },
        None => None,
    }
}

} // verus!
