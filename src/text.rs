//! Character-level helpers on text: equality, a tag at an offset, and base-10 integers.
use vstd::prelude::*;

verus! {

/// Relies on std's `format!` with `{}{}`: a `&str` is written out as it stands.
#[verifier::external_body]
pub(crate) fn joined(head: &str, tail: &str) -> (r: String)
    ensures
        r@ == head@ + tail@,
{
    format!("{}{}", head, tail)
}

/// Whether `s` holds `tag` starting at character `offset`.
pub open spec fn spec_has_tag_at(s: Seq<char>, tag: Seq<char>, offset: int) -> bool {
    &&& 0 <= offset
    &&& offset + tag.len() <= s.len()
    &&& s.subrange(offset, offset + tag.len()) == tag
}

pub fn str_eq(a: &str, b: &str) -> (r: bool)
    ensures
        r == (a@ == b@),
{
    let n = a.unicode_len();
    if n != b.unicode_len() {
        return false;
    }
    let mut i: usize = 0;
    while i < n
        invariant
            n == a@.len(),
            n == b@.len(),
            i <= n,
            a@.subrange(0, i as int) == b@.subrange(0, i as int),
        decreases n - i,
    {
        if a.get_char(i) != b.get_char(i) {
            return false;
        }
        proof {
            assert(a@.subrange(0, i + 1) =~= a@.subrange(0, i as int).push(a@[i as int]));
            assert(b@.subrange(0, i + 1) =~= b@.subrange(0, i as int).push(b@[i as int]));
        }
        i = i + 1;
    }
    proof {
        assert(a@.subrange(0, n as int) =~= a@);
        assert(b@.subrange(0, n as int) =~= b@);
    }
    true
}

pub fn has_tag_at(s: &str, tag: &str, offset: usize) -> (r: bool)
    ensures
        r == spec_has_tag_at(s@, tag@, offset as int),
{
    let n = s.unicode_len();
    let m = tag.unicode_len();
    if offset > n || m > n - offset {
        return false;
    }
    let mut i: usize = 0;
    while i < m
        invariant
            n == s@.len(),
            m == tag@.len(),
            offset + m <= n,
            i <= m,
            s@.subrange(offset as int, offset + i) == tag@.subrange(0, i as int),
        decreases m - i,
    {
        if s.get_char(offset + i) != tag.get_char(i) {
            proof {
                assert(s@.subrange(offset as int, offset + m)[i as int] == s@[offset + i]);
            }
            return false;
        }
        proof {
            assert(s@.subrange(offset as int, offset + i + 1) =~= s@.subrange(
                offset as int,
                offset + i,
            ).push(s@[offset + i]));
            assert(tag@.subrange(0, i + 1) =~= tag@.subrange(0, i as int).push(tag@[i as int]));
        }
        i = i + 1;
    }
    proof {
        assert(tag@.subrange(0, m as int) =~= tag@);
    }
    true
}

pub open spec fn is_digit(c: char) -> bool {
    '0' <= c && c <= '9'
}

pub open spec fn all_digits(s: Seq<char>) -> bool {
    forall|i: int| 0 <= i < s.len() ==> is_digit(#[trigger] s[i])
}

/// The value of a string of decimal digits, most significant first.
pub open spec fn spec_digits_value(s: Seq<char>) -> int
    decreases s.len(),
{
    if s.len() == 0 {
        0
    } else {
        spec_digits_value(s.drop_last()) * 10 + (s.last() as int - '0' as int)
    }
}

/// A base-10 `i64`: an optional `+` or `-`, then one or more digits, and a value in range.
pub open spec fn spec_parse_i64(s: Seq<char>) -> Option<i64> {
    let negative = s.len() > 0 && s[0] == '-';
    let signed = s.len() > 0 && (s[0] == '-' || s[0] == '+');
    let digits = if signed {
        s.drop_first()
    } else {
        s
    };
    spec_parse_signed(negative, digits)
}

/// The `i64` that `digits` stands for, negated when `negative`.
pub open spec fn spec_parse_signed(negative: bool, digits: Seq<char>) -> Option<i64> {
    let magnitude = spec_digits_value(digits);
    let value = if negative {
        -magnitude
    } else {
        magnitude
    };
    if digits.len() > 0 && all_digits(digits) && i64::MIN <= value <= i64::MAX {
        Some(value as i64)
    } else {
        None
    }
}

proof fn lemma_digits_nonneg(s: Seq<char>)
    requires
        all_digits(s),
    ensures
        spec_digits_value(s) >= 0,
    decreases s.len(),
{
    if s.len() > 0 {
        lemma_digits_nonneg(s.drop_last());
        assert(is_digit(s[s.len() - 1]));
    }
}

proof fn lemma_digits_prefix_le(s: Seq<char>, k: int)
    requires
        all_digits(s),
        0 <= k <= s.len(),
    ensures
        spec_digits_value(s.subrange(0, k)) <= spec_digits_value(s),
    decreases s.len(),
{
    if k < s.len() {
        lemma_digits_prefix_le(s.drop_last(), k);
        assert(s.drop_last().subrange(0, k) =~= s.subrange(0, k));
        lemma_digits_nonneg(s.drop_last());
        assert(is_digit(s[s.len() - 1]));
    } else {
        assert(s.subrange(0, k) =~= s);
    }
}

pub fn parse_i64(s: &str) -> (r: Option<i64>)
    ensures
        r == spec_parse_i64(s@),
{
    let len = s.unicode_len();
    if len == 0 {
        return None;
    }
    let first = s.get_char(0);
    let negative = first == '-';
    let start: usize = if first == '-' || first == '+' {
        1
    } else {
        0
    };
    let ghost digits = s@.subrange(start as int, len as int);
    proof {
        if start == 1 {
            assert(digits =~= s@.drop_first());
        } else {
            assert(digits =~= s@);
        }
        assert(spec_parse_i64(s@) == spec_parse_signed(negative, digits));
    }
    if start >= len {
        return None;
    }
    let limit: u128 = if negative {
        9223372036854775808
    } else {
        9223372036854775807
    };
    let mut acc: u128 = 0;
    let mut i: usize = start;
    while i < len
        invariant
            len == s@.len(),
            start <= i <= len,
            digits == s@.subrange(start as int, len as int),
            spec_parse_i64(s@) == spec_parse_signed(negative, digits),
            limit == (if negative {
                9223372036854775808u128
            } else {
                9223372036854775807u128
            }),
            all_digits(s@.subrange(start as int, i as int)),
            acc as int == spec_digits_value(s@.subrange(start as int, i as int)),
            acc <= limit,
            limit <= 9223372036854775808,
        decreases len - i,
    {
        let c = s.get_char(i);
        let ghost before = s@.subrange(start as int, i as int);
        let ghost after = s@.subrange(start as int, i + 1);
        proof {
            assert(after.drop_last() =~= before);
            assert(after.last() == c);
            assert(digits[i - start] == c);
        }
        if !('0' <= c && c <= '9') {
            proof {
                assert(!is_digit(digits[i - start]));
                assert(!all_digits(digits));
            }
            return None;
        }
        let d: u128 = (c as u32 - '0' as u32) as u128;
        proof {
            assert(acc * 10 <= limit * 10) by (nonlinear_arith)
                requires
                    acc <= limit,
            ;
            assert forall|j: int| 0 <= j < after.len() implies is_digit(#[trigger] after[j]) by {
                if j < before.len() {
                    assert(after[j] == before[j]);
                }
            }
        }
        let next: u128 = acc * 10 + d;
        if next > limit {
            proof {
                if all_digits(digits) {
                    lemma_digits_prefix_le(digits, i + 1 - start);
                    assert(digits.subrange(0, i + 1 - start) =~= after);
                    assert(spec_digits_value(after) == next);
                    assert(spec_digits_value(digits) > limit);
                }
            }
            return None;
        }
        acc = next;
        i = i + 1;
    }
    proof {
        assert(s@.subrange(start as int, i as int) =~= digits);
    }
    if negative {
        if acc == 9223372036854775808 {
            Some(-9223372036854775807i64 - 1)
        } else {
            Some(-(acc as i64))
        }
    } else {
        Some(acc as i64)
    }
}

} // verus!
