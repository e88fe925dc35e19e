//! The wire-level naming and attribute-payload contracts of the queue layer:
//! the canonical queue name, the candidate queue URL, and the redrive-policy
//! payload together with its parser.

use crate::text::{all_digits, dec_seq, digit_char, digit_val, digits_val, is_digit, u64_to_string};
use vstd::prelude::*;
use vstd::string::*;

verus! {

/// The canonical name of a catalog queue: `{prefix}_{name}_{suffix}`.
pub open spec fn canonical_name_seq(prefix: Seq<char>, name: Seq<char>, suffix: Seq<char>) -> Seq<
    char,
> {
    prefix + "_"@ + name + "_"@ + suffix
}

/// Builds the canonical queue name.
pub fn canonical_queue_name(prefix: &str, name: &str, suffix: &str) -> (r: String)
    ensures
        r@ == canonical_name_seq(prefix@, name@, suffix@),
{
    let mut r = String::new();
    r.append(prefix);
    r.append("_");
    r.append(name);
    r.append("_");
    r.append(suffix);
    r
}

/// The candidate URL of a queue: `{base_url}/{name}`.  A queue's authoritative
/// URL comes from its creation response and may differ.
pub open spec fn candidate_url_seq(base_url: Seq<char>, name: Seq<char>) -> Seq<char> {
    base_url + "/"@ + name
}

/// Joins the base URL and a queue name into the candidate URL.
pub fn candidate_queue_url(base_url: &str, name: &str) -> (r: String)
    ensures
        r@ == candidate_url_seq(base_url@, name@),
{
    let mut r = String::new();
    r.append(base_url);
    r.append("/");
    r.append(name);
    r
}

/// The opening of the redrive payload, up to the target ARN.
pub open spec fn redrive_pre() -> Seq<char> {
    "{\"deadLetterTargetArn\":\""@
}

/// The middle of the redrive payload, between the ARN and the count.
pub open spec fn redrive_mid() -> Seq<char> {
    "\",\"maxReceiveCount\":\""@
}

/// The closing of the redrive payload.
pub open spec fn redrive_suf() -> Seq<char> {
    "\"}"@
}

/// The redrive-policy payload binding a queue to its dead-letter target:
/// a JSON object with the target ARN and the receive count, the count encoded
/// as a string.
pub open spec fn redrive_policy_seq(dlq_arn: Seq<char>, max_receive_count: nat) -> Seq<char> {
    redrive_pre() + dlq_arn + redrive_mid() + dec_seq(max_receive_count) + redrive_suf()
}

/// Builds the redrive-policy payload.
pub fn redrive_policy(dlq_arn: &str, max_receive_count: u64) -> (r: String)
    ensures
        r@ == redrive_policy_seq(dlq_arn@, max_receive_count as nat),
{
    let mut r = String::new();
    r.append("{\"deadLetterTargetArn\":\"");
    r.append(dlq_arn);
    r.append("\",\"maxReceiveCount\":\"");
    let num = u64_to_string(max_receive_count);
    r.append(num.as_str());
    r.append("\"}");
    proof {
        assert(r@ =~= redrive_policy_seq(dlq_arn@, max_receive_count as nat));
    }
    r
}

/// Whether the sequence is free of double quotes.  An ARN embedded in the
/// redrive payload must be, or the payload would not parse back.
pub open spec fn no_quote(s: Seq<char>) -> bool {
    forall|i: int| 0 <= i < s.len() ==> #[trigger] s[i] != '"'
}

/// A decomposition of a payload into an ARN and a digit string: the payload
/// is exactly the redrive policy around them.  The digit string may carry
/// leading zeroes, so the decomposition speaks of its value, not its shape.
pub open spec fn redrive_decomp(s: Seq<char>, arn: Seq<char>, digits: Seq<char>) -> bool {
    &&& s == redrive_pre() + arn + redrive_mid() + digits + redrive_suf()
    &&& digits.len() > 0
    &&& all_digits(digits)
}

/// The exact shapes of the three literal pieces of the redrive payload.
proof fn lemma_redrive_literals()
    ensures
        redrive_pre().len() == 24,
        redrive_mid().len() == 21,
        redrive_suf().len() == 2,
        redrive_mid()[0] == '"',
        redrive_suf()[0] == '"',
{
    reveal_strlit("{\"deadLetterTargetArn\":\"");
    reveal_strlit("\",\"maxReceiveCount\":\"");
    reveal_strlit("\"}");
}

/// Whether `pat` occurs in `s` at position `i`.
fn has_at(s: &str, i: usize, pat: &str) -> (r: bool)
    requires
        i <= s@.len(),
    ensures
        r == (i + pat@.len() <= s@.len() && s@.subrange(
            i as int,
            i + pat@.len(),
        ) == pat@),
{
    let n = s.unicode_len();
    let pn = pat.unicode_len();
    if n - i < pn {
        proof {
            assert(i + pat@.len() > s@.len());
        }
        return false;
    }
    let mut j: usize = 0;
    while j < pn
        invariant
            0 <= j <= pn,
            pn == pat@.len(),
            n == s@.len(),
            i + pn <= n,
            forall|k: int| 0 <= k < j ==> s@[i + k] == pat@[k],
        decreases pn - j,
    {
        let a = s.get_char(i + j);
        let b = pat.get_char(j);
        if a != b {
            proof {
                assert(s@.subrange(i as int, i + pat@.len())[j as int] != pat@[j as int]);
            }
            return false;
        }
        j += 1;
    }
    proof {
        assert(s@.subrange(i as int, i + pat@.len()) =~= pat@);
    }
    true
}

/// The position of the first double quote at or after `i`, if any.
fn find_quote_from(s: &str, i: usize) -> (r: Option<usize>)
    requires
        i <= s@.len(),
    ensures
        r matches Some(q) ==> i <= q < s@.len() && s@[q as int] == '"' && (forall|k: int|
            i <= k < q ==> s@[k] != '"'),
        r is None ==> forall|k: int| i <= k < s@.len() ==> s@[k] != '"',
{
    let n = s.unicode_len();
    let mut j: usize = i;
    while j < n
        invariant
            i <= j <= n,
            n == s@.len(),
            forall|k: int| i <= k < j ==> s@[k] != '"',
        decreases n - j,
    {
        if s.get_char(j) == '"' {
            return Some(j);
        }
        j += 1;
    }
    None
}

/// Scans the run of digits that starts at `from`: returns its end (the first
/// position at or after `from` holding no digit, or the end of the string)
/// and the value of the run, or nothing if the value exceeds `u64::MAX`.
fn scan_digits(s: &str, from: usize) -> (r: (usize, Option<u64>))
    requires
        from <= s@.len(),
    ensures
        from <= r.0 <= s@.len(),
        forall|k: int| from <= k < r.0 ==> is_digit(#[trigger] s@[k]),
        r.0 < s@.len() ==> !is_digit(s@[r.0 as int]),
        r.1 matches Some(v) ==> v as int == digits_val(s@.subrange(from as int, r.0 as int)),
        r.1 is None ==> digits_val(s@.subrange(from as int, r.0 as int)) > u64::MAX as int,
{
    let n = s.unicode_len();
    let mut j: usize = from;
    let mut acc: u64 = 0;
    let mut overflow: bool = false;
    while j < n
        invariant
            from <= j <= n,
            n == s@.len(),
            forall|k: int| from <= k < j ==> is_digit(#[trigger] s@[k]),
            !overflow ==> acc as int == digits_val(s@.subrange(from as int, j as int)),
            overflow ==> digits_val(s@.subrange(from as int, j as int)) > u64::MAX as int,
        decreases n - j,
    {
        let c = s.get_char(j);
        let cv = c as u32;
        if cv < 48 || cv > 57 {
            if overflow {
                return (j, None);
            } else {
                return (j, Some(acc));
            }
        }
        let d: u64 = (cv - 48) as u64;
        proof {
            lemma_scan_digits_step(s@, from as int, j as int);
        }
        if !overflow {
            let next = match acc.checked_mul(10) {
                Some(m) => m.checked_add(d),
                None => None,
            };
            match next {
                Some(v) => {
                    acc = v;
                },
                None => {
                    overflow = true;
                },
            }
        }
        j += 1;
    }
    if overflow {
        (j, None)
    } else {
        (j, Some(acc))
    }
}

/// What a decomposition pins down: the position of every piece of the
/// payload.  The prefix ends at 24, the ARN at `24 + arn.len()`, the middle
/// piece 21 characters later, and the digits run to the closing two
/// characters.
proof fn lemma_decomp_facts(s: Seq<char>, arn: Seq<char>, digits: Seq<char>)
    requires
        redrive_decomp(s, arn, digits),
    ensures
        s.len() == 47 + arn.len() + digits.len(),
        s.subrange(0, 24) == redrive_pre(),
        s[24 + arn.len() as int] == '"',
        s.subrange(24 + arn.len() as int, 45 + arn.len() as int) == redrive_mid(),
        s.subrange(45 + arn.len() as int, 45 + arn.len() + digits.len() as int) == digits,
        s.subrange(45 + arn.len() + digits.len() as int, s.len() as int) == redrive_suf(),
        s[45 + arn.len() + digits.len() as int] == '"',
        forall|k: int| 0 <= k < arn.len() ==> s[24 + k] == arn[k],
        forall|k: int| 0 <= k < digits.len() ==> s[45 + arn.len() as int + k] == digits[k],
{
    lemma_redrive_literals();
    assert(s.subrange(0, 24) =~= redrive_pre());
    assert(s.subrange(24 + arn.len() as int, 45 + arn.len() as int) =~= redrive_mid());
    assert(s.subrange(45 + arn.len() as int, 45 + arn.len() + digits.len() as int) =~= digits);
    assert(s.subrange(45 + arn.len() + digits.len() as int, s.len() as int) =~= redrive_suf());
}

/// The first double quote at or after position 24 of a well-formed payload
/// closes the ARN, so it pins the ARN down.
proof fn lemma_quote_pins_arn(s: Seq<char>, arn: Seq<char>, digits: Seq<char>, q: int)
    requires
        redrive_decomp(s, arn, digits),
        no_quote(arn),
        24 <= q < s.len(),
        s[q] == '"',
        forall|k: int| 24 <= k < q ==> s[k] != '"',
    ensures
        q == 24 + arn.len() as int,
        arn == s.subrange(24, q),
{
    lemma_decomp_facts(s, arn, digits);
    if q < 24 + arn.len() as int {
        assert(s[q] == arn[q - 24]);
    }
    assert(arn =~= s.subrange(24, q));
}

/// The digit run that starts right after the middle piece of a well-formed
/// payload ends exactly where the digits of the decomposition end.
proof fn lemma_digits_pinned(s: Seq<char>, arn: Seq<char>, digits: Seq<char>, e: int)
    requires
        redrive_decomp(s, arn, digits),
        45 + arn.len() as int <= e <= s.len() as int,
        forall|k: int| 45 + arn.len() as int <= k < e ==> is_digit(#[trigger] s[k]),
        e < s.len() ==> !is_digit(s[e]),
    ensures
        e == 45 + arn.len() + digits.len() as int,
        digits == s.subrange(45 + arn.len() as int, e),
{
    lemma_decomp_facts(s, arn, digits);
    if e < 45 + arn.len() + digits.len() as int {
        assert(s[e] == digits[e - 45 - arn.len() as int]);
        assert(is_digit(digits[e - 45 - arn.len() as int]));
    }
    if e > 45 + arn.len() + digits.len() as int {
        assert(s[45 + arn.len() + digits.len() as int] == '"');
        assert(is_digit(s[45 + arn.len() + digits.len() as int]));
    }
    assert(digits =~= s.subrange(45 + arn.len() as int, e));
}

/// Parses a redrive-policy payload back into its target ARN and receive
/// count.  The parser accepts exactly the payloads that decompose around a
/// quote-free ARN and a count that fits a `u64`: on success the payload
/// decomposes around what is returned, and every payload that decomposes is
/// accepted and returns its own pieces.
pub fn parse_redrive_policy(s: &str) -> (r: Option<(String, u64)>)
    ensures
        r matches Some(p) ==> no_quote(p.0@) && (exists|digits: Seq<char>|
            redrive_decomp(s@, p.0@, digits) && digits_val(digits) == p.1 as int),
        forall|arn: Seq<char>, digits: Seq<char>|
            redrive_decomp(s@, arn, digits) && no_quote(arn) && digits_val(digits)
                <= u64::MAX as int ==> (r matches Some(p) && p.0@ == arn && p.1 as int
                == digits_val(digits)),
{
    proof {
        lemma_redrive_literals();
    }
    let n = s.unicode_len();
    if !has_at(s, 0, "{\"deadLetterTargetArn\":\"") {
        proof {
            assert forall|arn: Seq<char>, digits: Seq<char>|
                redrive_decomp(s@, arn, digits) && no_quote(arn) implies false by {
                lemma_decomp_facts(s@, arn, digits);
            }
        }
        return None;
    }
    let q = match find_quote_from(s, 24) {
        Some(q) => q,
        None => {
            proof {
                assert forall|arn: Seq<char>, digits: Seq<char>|
                    redrive_decomp(s@, arn, digits) && no_quote(arn) implies false by {
                    lemma_decomp_facts(s@, arn, digits);
                }
            }
            return None;
        },
    };
    if !has_at(s, q, "\",\"maxReceiveCount\":\"") {
        proof {
            assert forall|arn: Seq<char>, digits: Seq<char>|
                redrive_decomp(s@, arn, digits) && no_quote(arn) implies false by {
                lemma_quote_pins_arn(s@, arn, digits, q as int);
                lemma_decomp_facts(s@, arn, digits);
            }
        }
        return None;
    }
    let arn_str = s.substring_char(24, q).to_owned();
    let (e, val) = scan_digits(s, q + 21);
    let v = match val {
        Some(v) => v,
        None => {
            proof {
                assert forall|arn: Seq<char>, digits: Seq<char>|
                    redrive_decomp(s@, arn, digits) && no_quote(arn) && digits_val(digits)
                        <= u64::MAX as int implies false by {
                    lemma_quote_pins_arn(s@, arn, digits, q as int);
                    lemma_digits_pinned(s@, arn, digits, e as int);
                }
            }
            return None;
        },
    };
    if e == q + 21 || !has_at(s, e, "\"}") || e + 2 != n {
        proof {
            assert forall|arn: Seq<char>, digits: Seq<char>|
                redrive_decomp(s@, arn, digits) && no_quote(arn) && digits_val(digits)
                    <= u64::MAX as int implies false by {
                lemma_quote_pins_arn(s@, arn, digits, q as int);
                lemma_digits_pinned(s@, arn, digits, e as int);
                lemma_decomp_facts(s@, arn, digits);
            }
        }
        return None;
    }
    proof {
        let arn = s@.subrange(24, q as int);
        let digits = s@.subrange(q + 21, e as int);
        assert(s@ =~= redrive_pre() + arn + redrive_mid() + digits + redrive_suf());
        assert(redrive_decomp(s@, arn, digits));
        assert forall|arn2: Seq<char>, digits2: Seq<char>|
            redrive_decomp(s@, arn2, digits2) && no_quote(arn2) && digits_val(digits2)
                <= u64::MAX as int implies arn2 == arn && digits_val(digits2) == v as int by {
            lemma_quote_pins_arn(s@, arn2, digits2, q as int);
            lemma_digits_pinned(s@, arn2, digits2, e as int);
        }
    }
    Some((arn_str, v))
}

/// The decimal form of a number is a digit string worth that number.
pub proof fn lemma_dec_seq_val(n: nat)
    ensures
        dec_seq(n).len() > 0,
        all_digits(dec_seq(n)),
        digits_val(dec_seq(n)) == n,
    decreases n,
{
    if n < 10 {
        assert(dec_seq(n) =~= seq![digit_char(n as int)]);
        assert(seq![digit_char(n as int)].drop_last() =~= Seq::<char>::empty());
        assert(seq![digit_char(n as int)].last() == digit_char(n as int));
        assert(digits_val(Seq::<char>::empty()) == 0);
        assert(digits_val(dec_seq(n)) == digit_val(digit_char(n as int)));
    } else {
        lemma_dec_seq_val(n / 10);
        let prev = dec_seq(n / 10);
        let c = digit_char((n % 10) as int);
        assert(prev.push(c).drop_last() =~= prev);
        assert(prev.push(c).last() == c);
        assert(digit_val(c) == n % 10);
        assert forall|i: int| 0 <= i < dec_seq(n).len() implies is_digit(
            #[trigger] dec_seq(n)[i],
        ) by {
            if i < prev.len() {
                assert(dec_seq(n)[i] == prev[i]);
            }
        }
    }
}

/// Round trip of the redrive payload: the payload built from a quote-free
/// ARN and a receive count decomposes back into exactly that ARN and a digit
/// string worth exactly that count.
pub proof fn lemma_redrive_round_trip(arn: Seq<char>, max_receive_count: u64)
    requires
        no_quote(arn),
    ensures
        redrive_decomp(
            redrive_policy_seq(arn, max_receive_count as nat),
            arn,
            dec_seq(max_receive_count as nat),
        ),
        digits_val(dec_seq(max_receive_count as nat)) == max_receive_count as int,
{
    lemma_dec_seq_val(max_receive_count as nat);
}

/// One scan step: the digit run up to `j + 1` is worth ten times the run up
/// to `j` plus the digit at `j`.
proof fn lemma_scan_digits_step(s: Seq<char>, from: int, j: int)
    requires
        0 <= from <= j < s.len(),
    ensures
        digits_val(s.subrange(from, j + 1)) == digits_val(s.subrange(from, j)) * 10 + digit_val(
            s[j],
        ),
{
    assert(s.subrange(from, j + 1).drop_last() =~= s.subrange(from, j));
    assert(s.subrange(from, j + 1).last() == s[j]);
}

} // verus!

