use vstd::prelude::*;

use crate::scheduler::DEFAULT_UPDATE_INTERVAL_SECS;

verus! {

/// A decimal digit.
pub open spec fn is_dec_digit(c: char) -> bool {
    48 <= c as u32 <= 57
}

/// The numeric value of a decimal digit.
pub open spec fn digit_value(c: char) -> int {
    c as u32 - 48
}

/// The number a string of decimal digits writes, most significant first.
pub open spec fn digits_value(s: Seq<char>) -> int
    decreases s.len(),
{
    if s.len() == 0 {
        0
    } else {
        digits_value(s.drop_last()) * 10 + digit_value(s.last())
    }
}

/// Every character is a decimal digit.
pub open spec fn all_digits(s: Seq<char>) -> bool {
    forall|i: int| 0 <= i < s.len() ==> is_dec_digit(#[trigger] s[i])
}

/// The digits of a decimal entry: what follows at most one leading plus
/// sign.
pub open spec fn digits_part(s: Seq<char>) -> Seq<char> {
    if s.len() > 0 && s[0] == '+' {
        s.drop_first()
    } else {
        s
    }
}

/// An entry that reads as an unsigned 64-bit number: an optional leading
/// plus sign, then at least one digit, writing a value in range.
pub open spec fn valid_u64_entry(s: Seq<char>) -> bool {
    &&& digits_part(s).len() > 0
    &&& all_digits(digits_part(s))
    &&& digits_value(digits_part(s)) <= u64::MAX
}

/// A string of digits writes a number that is not negative.
proof fn lemma_digits_value_nonneg(s: Seq<char>)
    requires
        all_digits(s),
    ensures
        digits_value(s) >= 0,
    decreases s.len(),
{
    if s.len() > 0 {
        assert(all_digits(s.drop_last())) by {
            assert(forall|i: int|
                0 <= i < s.drop_last().len() ==> s.drop_last()[i] == s[i]);
        }
        lemma_digits_value_nonneg(s.drop_last());
    }
}

/// A prefix of a string of digits never writes a larger number than the
/// whole string.
proof fn lemma_digits_prefix_le(s: Seq<char>, i: int)
    requires
        all_digits(s),
        0 <= i <= s.len(),
    ensures
        digits_value(s.take(i)) <= digits_value(s),
    decreases s.len() - i,
{
    if i == s.len() {
        assert(s.take(i) =~= s);
    } else {
        assert(s.take(i + 1).drop_last() =~= s.take(i));
        assert(s.take(i + 1).last() == s[i]);
        assert(all_digits(s.take(i))) by {
            assert(forall|j: int| 0 <= j < s.take(i).len() ==> s.take(i)[j] == s[j]);
        }
        lemma_digits_value_nonneg(s.take(i));
        assert(digits_value(s.take(i + 1)) == digits_value(s.take(i)) * 10 + digit_value(s[i]));
        assert(digits_value(s.take(i)) <= digits_value(s.take(i + 1)));
        lemma_digits_prefix_le(s, i + 1);
    }
}

/// Read an unsigned 64-bit number from a user entry, exactly when the entry
/// is an optional plus sign followed by decimal digits whose value fits.
pub fn parse_u64(s: &str) -> (r: Option<u64>)
    ensures
        r == (if valid_u64_entry(s@) {
            Some(digits_value(digits_part(s@)) as u64)
        } else {
            None::<u64>
        }),
{
    let n: usize = s.unicode_len();
    let start: usize = if n > 0 && s.get_char(0) == '+' {
        1
    } else {
        0
    };
    let ghost d = digits_part(s@);
    proof {
        assert(d =~= s@.subrange(start as int, n as int));
    }
    if start >= n {
        return None;
    }
    let mut acc: u64 = 0;
    let mut i: usize = start;
    while i < n
        invariant
            start <= i <= n,
            n == s@.len(),
            d == digits_part(s@),
            d =~= s@.subrange(start as int, n as int),
            all_digits(d.take(i - start)),
            acc == digits_value(d.take(i - start)),
        decreases n - i,
    {
        let c = s.get_char(i);
        let u: u32 = c as u32;
        proof {
            assert(d[i - start] == s@[i as int]);
        }
        if u < 48 || u > 57 {
            proof {
                assert(!is_dec_digit(d[i - start]));
                assert(!all_digits(d));
            }
            return None;
        }
        let dgt: u64 = (u - 48) as u64;
        proof {
            assert(d.take(i - start + 1).drop_last() =~= d.take(i - start));
            assert(d.take(i - start + 1).last() == d[i - start]);
            assert(all_digits(d.take(i - start + 1))) by {
                assert(forall|j: int|
                    0 <= j < d.take(i - start + 1).len() ==> d.take(i - start + 1)[j] == d[j]);
            }
            assert(digits_value(d.take(i - start + 1)) == acc * 10 + dgt);
        }
        if acc > u64::MAX / 10 {
            proof {
                if valid_u64_entry(s@) {
                    assert(acc * 10 + dgt > u64::MAX);
                    lemma_digits_prefix_le(d, i - start + 1);
                    assert(digits_value(d) > u64::MAX);
                }
            }
            return None;
        }
        acc = acc * 10;
        if acc > u64::MAX - dgt {
            proof {
                if valid_u64_entry(s@) {
                    lemma_digits_prefix_le(d, i - start + 1);
                    assert(digits_value(d) > u64::MAX);
                }
            }
            return None;
        }
        acc = acc + dgt;
        i = i + 1;
    }
    proof {
        assert(d.take(i - start) =~= d);
    }
    Some(acc)
}

/// The refresh cadence a user entry asks for: a valid number is taken as it
/// stands, and anything else -- an empty entry included -- falls back to the
/// default cadence.
pub fn resolve_interval(s: &str) -> (r: u64)
    ensures
        valid_u64_entry(s@) ==> r == digits_value(digits_part(s@)),
        !valid_u64_entry(s@) ==> r == DEFAULT_UPDATE_INTERVAL_SECS,
{
    proof {
        if valid_u64_entry(s@) {
            lemma_digits_value_nonneg(digits_part(s@));
        }
    }
    match parse_u64(s) {
        Some(v) => v,
        None => DEFAULT_UPDATE_INTERVAL_SECS,
    }
}

} // verus!
