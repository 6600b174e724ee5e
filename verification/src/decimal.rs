//! Decimal text of integers, written and read.

use vstd::prelude::*;

verus! {

/// Whether a byte is one of the ASCII digits `0` to `9`.
pub open spec fn is_digit(b: u8) -> bool {
    48 <= b <= 57
}

/// The decimal digits of `n` in ASCII, most significant first, without a
/// leading zero; zero itself is the single digit `0`.
pub open spec fn digits(n: nat) -> Seq<u8>
    decreases n,
{
    if n < 10 {
        seq![(48 + n) as u8]
    } else {
        digits(n / 10).push((48 + n % 10) as u8)
    }
}

/// The decimal text of a signed integer: a minus sign before the digits of a
/// negative one, no sign otherwise.
pub open spec fn signed_digits(i: int) -> Seq<u8> {
    if i < 0 {
        seq![45u8] + digits((-i) as nat)
    } else {
        digits(i as nat)
    }
}

/// The number that a run of digits stands for; the empty run stands for zero.
pub open spec fn value(s: Seq<u8>) -> nat
    decreases s.len(),
{
    if s.len() == 0 {
        0
    } else {
        value(s.drop_last()) * 10 + (s.last() - 48) as nat
    }
}

/// How many digits stand at the front of `s`.
pub open spec fn leading_digits(s: Seq<u8>) -> nat
    decreases s.len(),
{
    if s.len() > 0 && is_digit(s[0]) {
        1 + leading_digits(s.skip(1))
    } else {
        0
    }
}

/// What an unsigned number at the front of `s` reads as: its value and the
/// number of bytes it takes. Nothing is read where `s` does not start with a
/// digit or the digits stand for more than `u32::MAX`.
pub open spec fn unsigned_at_front(s: Seq<u8>) -> Option<(u32, nat)> {
    let k = leading_digits(s);
    if k == 0 || value(s.take(k as int)) > u32::MAX {
        None
    } else {
        Some((value(s.take(k as int)) as u32, k))
    }
}

/// What a signed number at the front of `s` reads as: an optional minus sign,
/// then digits, the whole within `i32`.
pub open spec fn signed_at_front(s: Seq<u8>) -> Option<(i32, nat)> {
    if s.len() > 0 && s[0] == 45 {
        match unsigned_at_front(s.skip(1)) {
            Some((v, k)) => if v <= 0x8000_0000 {
                Some(((-(v as int)) as i32, k + 1))
            } else {
                None
            },
            None => None,
        }
    } else {
        match unsigned_at_front(s) {
            Some((v, k)) => if v <= 0x7fff_ffff {
                Some((v as i32, k))
            } else {
                None
            },
            None => None,
        }
    }
}

/// Every byte of a decimal text is a digit, and there is at least one.
pub proof fn lemma_digits_shape(n: nat)
    ensures
        digits(n).len() >= 1,
        forall|i: int| 0 <= i < digits(n).len() ==> is_digit(#[trigger] digits(n)[i]),
    decreases n,
{
    if n >= 10 {
        lemma_digits_shape(n / 10);
    }
}

/// Reading the digits of `n` gives `n` back.
pub proof fn lemma_value_of_digits(n: nat)
    ensures
        value(digits(n)) == n,
    decreases n,
{
    if n < 10 {
        assert(value(digits(n).drop_last()) == 0);
    } else {
        lemma_value_of_digits(n / 10);
        assert(digits(n).drop_last() =~= digits(n / 10));
    }
}

/// A run of `k` digits that ends the text, or that a byte other than a digit
/// follows, is the whole run at the front.
pub proof fn lemma_leading_digits(s: Seq<u8>, k: nat)
    requires
        k <= s.len(),
        forall|i: int| 0 <= i < k ==> is_digit(#[trigger] s[i]),
        k == s.len() || !is_digit(s[k as int]),
    ensures
        leading_digits(s) == k,
    decreases k,
{
    if k > 0 {
        lemma_leading_digits(s.skip(1), (k - 1) as nat);
    }
}

/// The digits of `n`, followed by anything that does not start with a digit,
/// read as `n`.
pub proof fn lemma_unsigned_reads_back(n: u32, rest: Seq<u8>)
    requires
        rest.len() == 0 || !is_digit(rest[0]),
    ensures
        unsigned_at_front(digits(n as nat) + rest) == Some((n, digits(n as nat).len())),
{
    let d = digits(n as nat);
    let s = d + rest;
    lemma_digits_shape(n as nat);
    lemma_value_of_digits(n as nat);
    lemma_leading_digits(s, d.len());
    assert(s.take(d.len() as int) =~= d);
}

/// The decimal text of `i`, followed by anything that does not start with a
/// digit, reads as `i`.
pub proof fn lemma_signed_reads_back(i: i32, rest: Seq<u8>)
    requires
        rest.len() == 0 || !is_digit(rest[0]),
    ensures
        signed_at_front(signed_digits(i as int) + rest) == Some(
            (i, signed_digits(i as int).len()),
        ),
{
    if i < 0 {
        let magnitude: u32 = (-(i as int)) as u32;
        let s = signed_digits(i as int) + rest;
        assert(s.skip(1) =~= digits(magnitude as nat) + rest);
        lemma_unsigned_reads_back(magnitude, rest);
    } else {
        lemma_digits_shape(i as nat);
        lemma_unsigned_reads_back(i as u32, rest);
    }
}

/// Appends the decimal digits of `n`.
pub fn push_unsigned(out: &mut Vec<u8>, n: u32)
    ensures
        final(out)@ == old(out)@ + digits(n as nat),
    decreases n,
{
    if n >= 10 {
        push_unsigned(out, n / 10);
    }
    let digit: u8 = (n % 10) as u8;
    out.push(48 + digit);
}

/// Appends the decimal text of `i`.
pub fn push_signed(out: &mut Vec<u8>, i: i32)
    ensures
        final(out)@ == old(out)@ + signed_digits(i as int),
{
    if i < 0 {
        out.push(45);
        let wide: i64 = i as i64;
        let magnitude: u32 = (-wide) as u32;
        push_unsigned(out, magnitude);
    } else {
        push_unsigned(out, i as u32);
    }
}

/// Reads the unsigned number that starts at `start`, and says where it ends.
pub fn read_unsigned(text: &[u8], start: usize) -> (r: Option<(u32, usize)>)
    ensures
        start > text@.len() ==> r.is_none(),
        start <= text@.len() ==> match unsigned_at_front(text@.skip(start as int)) {
            Some((v, k)) => r matches Some((found, end)) && found == v && end == start + k && end
                <= text@.len(),
            None => r.is_none(),
        },
{
    if start > text.len() {
        return None;
    }
    let ghost s = text@.skip(start as int);
    let mut i: usize = start;
    let mut acc: u64 = 0;
    while i < text.len() && 48 <= text[i] && text[i] <= 57
        invariant
            start <= i <= text@.len(),
            s == text@.skip(start as int),
            forall|j: int| 0 <= j < i - start ==> is_digit(#[trigger] s[j]),
            acc <= u32::MAX ==> acc == value(s.take(i - start)),
            acc > u32::MAX ==> value(s.take(i - start)) > u32::MAX,
            acc <= 42949672959,
        decreases text@.len() - i,
    {
        assert(s.take(i - start + 1).drop_last() =~= s.take(i - start));
        if acc <= 0xffff_ffff {
            acc = acc * 10 + (text[i] - 48) as u64;
        }
        i = i + 1;
    }
    proof {
        lemma_leading_digits(s, (i - start) as nat);
    }
    if i == start || acc > 0xffff_ffff {
        None
    } else {
        Some((acc as u32, i))
    }
}

/// Reads the signed number that starts at `start`, and says where it ends.
pub fn read_signed(text: &[u8], start: usize) -> (r: Option<(i32, usize)>)
    ensures
        start > text@.len() ==> r.is_none(),
        start <= text@.len() ==> match signed_at_front(text@.skip(start as int)) {
            Some((v, k)) => r matches Some((found, end)) && found == v && end == start + k && end
                <= text@.len(),
            None => r.is_none(),
        },
{
    if start > text.len() {
        return None;
    }
    let ghost s = text@.skip(start as int);
    if start < text.len() && text[start] == 45 {
        assert(s.skip(1) =~= text@.skip(start + 1));
        match read_unsigned(text, start + 1) {
            Some((v, end)) => {
                if v <= 0x8000_0000 {
                    let wide: i64 = v as i64;
                    Some(((-wide) as i32, end))
                } else {
                    None
                }
            },
            None => None,
        }
    } else {
        match read_unsigned(text, start) {
            Some((v, end)) => {
                if v <= 0x7fff_ffff {
                    Some((v as i32, end))
                } else {
                    None
                }
            },
            None => None,
        }
    }
}

} // verus!
