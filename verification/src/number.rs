//! Numbers as the feed writes them: identifiers in decimal text, and price
//! terms that are wider than the fields that keep them.

use vstd::prelude::*;
use vstd::string::{is_ascii, is_ascii_spec_bytes};

verus! {

/// Whether `c` is one of the ten decimal digits.
pub open spec fn is_digit(c: char) -> bool {
    '0' <= c <= '9'
}

/// Whether `s` holds decimal digits only.
pub open spec fn all_digits(s: Seq<char>) -> bool {
    forall|i: int| 0 <= i < s.len() ==> is_digit(#[trigger] s[i])
}

/// The number that the decimal digits `s` write, the empty text being zero.
pub open spec fn digits_value(s: Seq<char>) -> nat
    decreases s.len(),
{
    if s.len() == 0 {
        0
    } else {
        (digits_value(s.drop_last()) * 10 + (s.last() as int - '0' as int)) as nat
    }
}

/// `s` without the one plus sign that may lead it.
pub open spec fn unsigned_part(s: Seq<char>) -> Seq<char> {
    if s.len() > 0 && s[0] == '+' {
        s.subrange(1, s.len() as int)
    } else {
        s
    }
}

/// The unsigned 64-bit number that `s` writes in decimal: an optional plus
/// sign, then at least one digit and nothing else, the value within range.
/// Any other text writes none.
pub open spec fn decimal_u64(s: Seq<char>) -> Option<u64> {
    let d = unsigned_part(s);
    if d.len() > 0 && all_digits(d) && digits_value(d) <= u64::MAX {
        Some(digits_value(d) as u64)
    } else {
        None
    }
}

/// Digits written after a number never make it smaller.
pub proof fn lemma_prefix_value_bounded(s: Seq<char>, k: int)
    requires
        all_digits(s),
        0 <= k <= s.len(),
    ensures
        digits_value(s.subrange(0, k)) <= digits_value(s),
    decreases s.len() - k,
{
    if k == s.len() {
        assert(s.subrange(0, k) == s);
    } else {
        lemma_prefix_value_bounded(s, k + 1);
        let longer = s.subrange(0, k + 1);
        assert(longer.drop_last() == s.subrange(0, k));
        assert(is_digit(s[k]));
        assert(longer.last() == s[k]);
    }
}

/// Text with a character that is no digit, other than one leading plus
/// sign, writes no number.
pub proof fn lemma_non_digit_writes_no_number(s: Seq<char>, i: int)
    requires
        0 <= i < s.len(),
        !is_digit(s[i]),
        !(i == 0 && s[0] == '+'),
    ensures
        decimal_u64(s) is None,
{
    let d = unsigned_part(s);
    if s[0] == '+' {
        assert(d[i - 1] == s[i]);
    } else {
        assert(d[i] == s[i]);
    }
}

/// Parses decimal text as an unsigned 64-bit number.
pub fn parse_u64(s: &str) -> (r: Option<u64>)
    ensures
        r == decimal_u64(s@),
{
    if !s.is_ascii() {
        proof {
            let i = choose|i: int| 0 <= i < s@.len() && !('\0' <= #[trigger] s@[i] <= '\u{7f}');
            lemma_non_digit_writes_no_number(s@, i);
        }
        return None;
    }
    let bytes = s.as_bytes();
    proof {
        is_ascii_spec_bytes(s);
    }
    let n: usize = bytes.len();
    if n == 0 {
        return None;
    }
    // 43 is the plus sign; 48 to 57 are the digits.
    let start: usize = if bytes[0] == 43 { 1 } else { 0 };
    if start == n {
        return None;
    }
    let ghost d = unsigned_part(s@);
    let mut acc: u64 = 0;
    let mut i: usize = start;
    while i < n
        invariant
            n == s@.len(),
            n == bytes@.len(),
            is_ascii(s),
            forall|j: int| 0 <= j < n ==> #[trigger] bytes@[j] == s@[j] as u8,
            start <= i <= n,
            start <= 1,
            d == s@.subrange(start as int, n as int),
            d == unsigned_part(s@),
            all_digits(d.subrange(0, i - start)),
            acc == digits_value(d.subrange(0, i - start)),
        decreases n - i,
    {
        let code: u8 = bytes[i];
        let ghost c = s@[i as int];
        let ghost before = d.subrange(0, i - start);
        let ghost after = d.subrange(0, i - start + 1);
        proof {
            assert('\0' <= c <= '\u{7f}');
            assert(code == c as u8);
            assert(code as int == c as int);
            assert(d[i - start] == c);
            assert(after.drop_last() == before);
            assert(after.last() == c);
        }
        if code < 48 || code > 57 {
            proof {
                assert(!is_digit(d[i - start]));
            }
            return None;
        }
        let digit: u64 = (code - 48) as u64;
        if acc > (u64::MAX - digit) / 10 {
            proof {
                assert(acc * 10 + digit > u64::MAX);
                assert(digits_value(after) > u64::MAX);
                if all_digits(d) {
                    lemma_prefix_value_bounded(d, i - start + 1);
                }
            }
            return None;
        }
        acc = acc * 10 + digit;
        i = i + 1;
        proof {
            assert forall|j: int| 0 <= j < after.len() implies is_digit(#[trigger] after[j]) by {
                if j < before.len() {
                    assert(after[j] == before[j]);
                }
            }
        }
    }
    proof {
        assert(d.subrange(0, i - start) == d);
    }
    Some(acc)
}

/// A 64-bit price term as a 32-bit field keeps it: the low 32 bits, read as
/// a signed number. Terms outside the 32-bit range lose their high bits by
/// intent; nothing is rejected for its size.
pub open spec fn narrowed(x: i64) -> i32 {
    x as i32
}

/// Narrows a price term to the 32-bit field that keeps it.
pub fn narrow(x: i64) -> (r: i32)
    ensures
        r == narrowed(x),
{
    #[verifier::truncate]
    (x as i32)
}

/// A term that fits in 32 bits is kept as it is.
pub proof fn lemma_narrowed_in_range(x: i64)
    requires
        i32::MIN <= x <= i32::MAX,
    ensures
        narrowed(x) == x,
{
    assert(-0x8000_0000i64 <= x <= 0x7fff_ffffi64 ==> (x as i32) as i64 == x) by (bit_vector);
}

} // verus!
