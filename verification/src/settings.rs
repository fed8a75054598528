//! Port settings chosen by the user and the decimal parser for the baud rate.

use vstd::prelude::*;
use vstd::string::*;

verus! {

/// `c` is an ASCII decimal digit.
pub open spec fn is_digit(c: char) -> bool {
    '0' <= c && c <= '9'
}

/// The value of an ASCII digit.
pub open spec fn digit_value(c: char) -> nat {
    (c as nat - '0' as nat) as nat
}

/// Every character of `s` is an ASCII decimal digit.
pub open spec fn all_digits(s: Seq<char>) -> bool {
    forall|i: int| 0 <= i < s.len() ==> is_digit(#[trigger] s[i])
}

/// The number written by the decimal digits `s`, most significant first.
pub open spec fn decimal_value(s: Seq<char>) -> nat
    decreases s.len(),
{
    if s.len() == 0 {
        0
    } else {
        decimal_value(s.drop_last()) * 10 + digit_value(s.last())
    }
}

/// The digits of `s` once an optional leading `+` is removed.
pub open spec fn unsigned_digits(s: Seq<char>) -> Seq<char> {
    if s.len() > 0 && s[0] == '+' {
        s.drop_first()
    } else {
        s
    }
}

/// What `u32`'s `FromStr` accepts: an optional `+`, then at least one ASCII
/// digit, with a value that fits in 32 bits.
pub open spec fn parse_u32_spec(s: Seq<char>) -> Option<u32> {
    let digits = unsigned_digits(s);
    if digits.len() > 0 && all_digits(digits) && decimal_value(digits) <= u32::MAX {
        Some(decimal_value(digits) as u32)
    } else {
        None
    }
}

/// The value of a digit prefix, held at most at 2^32 so that it fits in a `u64`.
pub open spec fn capped(v: nat) -> nat {
    if v > 0x1_0000_0000 {
        0x1_0000_0000
    } else {
        v
    }
}

proof fn lemma_capped_step(v: nat, d: nat)
    requires
        d < 10,
    ensures
        capped(capped(v) * 10 + d) == capped(v * 10 + d),
{
}

/// Parses a baud rate the way `str::parse::<u32>` does.
pub fn parse_baud(s: &str) -> (res: Option<u32>)
    ensures
        res == parse_u32_spec(s@),
{
    let n = s.unicode_len();
    let mut start: usize = 0;
    if n > 0 && s.get_char(0) == '+' {
        start = 1;
    }
    let ghost digits = unsigned_digits(s@);
    assert(digits =~= s@.subrange(start as int, n as int));
    if start == n {
        return None;
    }
    let mut acc: u64 = 0;
    let mut i: usize = start;
    while i < n
        invariant
            start <= i <= n,
            n == s@.len(),
            start < n,
            digits =~= s@.subrange(start as int, n as int),
            digits == unsigned_digits(s@),
            all_digits(s@.subrange(start as int, i as int)),
            acc == capped(decimal_value(s@.subrange(start as int, i as int))),
        decreases n - i,
    {
        let c = s.get_char(i);
        if !('0' <= c && c <= '9') {
            assert(!all_digits(digits)) by {
                assert(digits[i - start] == c);
            }
            return None;
        }
        let d: u64 = ((c as u32) - ('0' as u32)) as u64;
        let ghost prefix = s@.subrange(start as int, i as int);
        let ghost next = s@.subrange(start as int, i + 1);
        assert(next.drop_last() =~= prefix);
        assert(next.last() == c);
        proof {
            lemma_capped_step(decimal_value(prefix), d as nat);
        }
        let t: u64 = acc * 10 + d;
        if t > 0x1_0000_0000 {
            acc = 0x1_0000_0000;
        } else {
            acc = t;
        }
        i = i + 1;
    }
    assert(s@.subrange(start as int, n as int) =~= digits);
    if acc > 0xFFFF_FFFF {
        None
    } else {
        Some(acc as u32)
    }
}

} // verus!
