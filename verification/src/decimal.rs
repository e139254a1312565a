//! Token amounts as the RPC reports them: unsigned decimal text.
use vstd::prelude::*;

use crate::text::chars_of;

verus! {

/// An ASCII decimal digit.
pub open spec fn is_digit(c: char) -> bool {
    '0' <= c && c <= '9'
}

/// The value of a string of decimal digits (0 for the empty string).
pub open spec fn digits_value(s: Seq<char>) -> nat
    decreases s.len(),
{
    if s.len() == 0 {
        0
    } else {
        digits_value(s.drop_last()) * 10 + ((s.last() as int) - ('0' as int)) as nat
    }
}

/// What `u64::from_str` reads from `s`: an optional `+` and at least one decimal digit,
/// nothing else, and a value that fits in `u64`.
pub open spec fn decimal_u64(s: Seq<char>) -> Option<u64> {
    let d = unsigned_part(s);
    if d.len() > 0 && all_digits(d) && digits_value(d) <= u64::MAX {
        Some(digits_value(d) as u64)
    } else {
        None
    }
}

/// `s` without a leading `+`.
pub open spec fn unsigned_part(s: Seq<char>) -> Seq<char> {
    if s.len() > 0 && s[0] == '+' { s.subrange(1, s.len() as int) } else { s }
}

/// Every character of `d` is a decimal digit.
pub open spec fn all_digits(d: Seq<char>) -> bool {
    forall|i: int| 0 <= i < d.len() ==> is_digit(#[trigger] d[i])
}

/// A longer run of digits is worth at least as much as its prefix.
proof fn lemma_digits_prefix(d: Seq<char>, k: int)
    requires
        0 <= k <= d.len(),
        forall|i: int| 0 <= i < d.len() ==> is_digit(#[trigger] d[i]),
    ensures
        digits_value(d.subrange(0, k)) <= digits_value(d),
    decreases d.len() - k,
{
    if k < d.len() {
        lemma_digits_prefix(d, k + 1);
        let p = d.subrange(0, k + 1);
        assert(p.drop_last() =~= d.subrange(0, k));
        assert(p.last() == d[k]);
    } else {
        assert(d.subrange(0, k) =~= d);
    }
}

/// Reads an unsigned decimal amount; `None` where `u64::from_str` reports an error.
pub fn parse_decimal_u64(s: &str) -> (res: Option<u64>)
    ensures
        res == decimal_u64(s@),
{
    let cs = chars_of(s);
    let n = cs.len();
    let start: usize = if n > 0 && cs[0] == '+' { 1 } else { 0 };
    let ghost d = unsigned_part(s@);
    assert(d =~= cs@.subrange(start as int, n as int));
    if start == n {
        return None;
    }
    let mut v: u64 = 0;
    let mut i: usize = start;
    assert(d.subrange(0, 0) =~= Seq::<char>::empty());
    while i < n
        invariant
            start <= i <= n,
            n == cs@.len(),
            d == cs@.subrange(start as int, n as int),
            d == unsigned_part(s@),
            forall|j: int| 0 <= j < i - start ==> is_digit(#[trigger] d[j]),
            v == digits_value(d.subrange(0, i - start)),
        decreases n - i,
    {
        let c = cs[i];
        if !('0' <= c && c <= '9') {
            assert(!is_digit(d[i - start]));
            assert(!all_digits(d));
            return None;
        }
        let dg = (c as u32 - '0' as u32) as u64;
        assert(dg == (c as int) - ('0' as int));
        let ghost p = d.subrange(0, i + 1 - start);
        assert(p.drop_last() =~= d.subrange(0, i - start));
        assert(p.last() == c);
        match v.checked_mul(10) {
            Some(t) => {
                match t.checked_add(dg) {
                    Some(w) => {
                        v = w;
                    },
                    None => {
                        proof {
                            lemma_rest_overflows(d, i + 1 - start, n - start);
                        }
                        return None;
                    },
                }
            },
            None => {
                proof {
                    lemma_rest_overflows(d, i + 1 - start, n - start);
                }
                return None;
            },
        }
        i = i + 1;
    }
    assert(d.subrange(0, n - start) =~= d);
    Some(v)
}

/// Once a prefix of digits is worth more than `u64::MAX`, so is the whole run (or the run
/// holds a non-digit): either way no value is read.
proof fn lemma_rest_overflows(d: Seq<char>, k: int, n: int)
    requires
        0 < k <= n,
        n == d.len(),
        forall|j: int| 0 <= j < k ==> is_digit(#[trigger] d[j]),
        digits_value(d.subrange(0, k)) > u64::MAX,
    ensures
        !(all_digits(d) && digits_value(d) <= u64::MAX),
{
    if all_digits(d) {
        lemma_digits_prefix(d, k);
    }
}

/// The token amount in a balance reply: its decimal value, or 0 when it does not parse.
pub fn parse_token_amount(s: &str) -> (res: u64)
    ensures
        res == (match decimal_u64(s@) {
            Some(v) => v,
            None => 0,
        }),
{
    match parse_decimal_u64(s) {
        Some(v) => v,
        None => 0,
    }
}

} // verus!
