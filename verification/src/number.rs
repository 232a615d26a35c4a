//! Reading decimal numbers the way `str::parse` reads them.

use vstd::prelude::*;

verus! {

/// An ASCII decimal digit.
pub open spec fn is_digit(c: char) -> bool {
    '0' <= c && c <= '9'
}

pub open spec fn digit_value(c: char) -> int {
    (c as int) - ('0' as int)
}

pub open spec fn all_digits(s: Seq<char>) -> bool {
    forall|i: int| 0 <= i < s.len() ==> is_digit(#[trigger] s[i])
}

/// The number that a string of decimal digits denotes.
pub open spec fn digits_value(s: Seq<char>) -> int
    decreases s.len(),
{
    if s.len() == 0 {
        0
    } else {
        digits_value(s.drop_last()) * 10 + digit_value(s.last())
    }
}

/// What reading `s` as a decimal `i32` gives: an optional `'+'` or `'-'`
/// sign, then at least one ASCII digit and nothing else, and a value that
/// fits in an `i32`.
pub open spec fn parse_i32_spec(s: Seq<char>) -> Option<i32> {
    let signed = s.len() > 0 && (s[0] == '-' || s[0] == '+');
    let negative = s.len() > 0 && s[0] == '-';
    let ds = if signed { s.drop_first() } else { s };
    let v = if negative { -digits_value(ds) } else { digits_value(ds) };
    if ds.len() > 0 && all_digits(ds) && i32::MIN <= v <= i32::MAX {
        Some(v as i32)
    } else {
        None
    }
}

proof fn lemma_digits_value_nonneg(s: Seq<char>)
    requires
        all_digits(s),
    ensures
        digits_value(s) >= 0,
    decreases s.len(),
{
    if s.len() > 0 {
        assert(all_digits(s.drop_last())) by {
            assert forall|i: int| 0 <= i < s.drop_last().len() implies is_digit(
                #[trigger] s.drop_last()[i],
            ) by {
                assert(s.drop_last()[i] == s[i]);
            }
        }
        lemma_digits_value_nonneg(s.drop_last());
        assert(is_digit(s[s.len() - 1]));
    }
}

/// A longer string of digits never denotes a smaller number.
proof fn lemma_digits_value_prefix(s: Seq<char>, k: int)
    requires
        all_digits(s),
        0 <= k <= s.len(),
    ensures
        digits_value(s.take(k)) <= digits_value(s),
    decreases s.len(),
{
    if k < s.len() {
        let t = s.drop_last();
        assert(all_digits(t)) by {
            assert forall|i: int| 0 <= i < t.len() implies is_digit(#[trigger] t[i]) by {
                assert(t[i] == s[i]);
            }
        }
        assert(t.take(k) =~= s.take(k));
        lemma_digits_value_prefix(t, k);
        lemma_digits_value_nonneg(t);
        assert(is_digit(s[s.len() - 1]));
    } else {
        assert(s.take(k) =~= s);
    }
}

/// Reads the characters of `s` as a decimal `i32`, as `str::parse::<i32>` does.
pub fn parse_i32(s: &Vec<char>) -> (r: Option<i32>)
    ensures
        r == parse_i32_spec(s@),
{
    let n = s.len();
    if n == 0 {
        return None;
    }
    let negative = s[0] == '-';
    let start: usize = if s[0] == '-' || s[0] == '+' { 1 } else { 0 };
    let ghost ds = if start == 1 { s@.drop_first() } else { s@ };
    assert(ds =~= s@.subrange(start as int, n as int));
    if start == n {
        return None;
    }
    let mut acc: i64 = 0;
    let mut i: usize = start;
    assert(ds.take(0) =~= Seq::<char>::empty());
    while i < n
        invariant
            start <= i <= n,
            n == s@.len(),
            n > 0,
            start == (if s@[0] == '-' || s@[0] == '+' { 1usize } else { 0usize }),
            negative == (s@[0] == '-'),
            ds =~= s@.subrange(start as int, n as int),
            ds == (if start == 1 { s@.drop_first() } else { s@ }),
            all_digits(ds.take(i - start)),
            acc == digits_value(ds.take(i - start)),
            0 <= acc <= 2147483648,
        decreases n - i,
    {
        let c = s[i];
        let ghost k: int = i - start;
        assert(ds[k] == c);
        if !('0' <= c && c <= '9') {
            assert(!all_digits(ds)) by {
                assert(!is_digit(ds[k]));
            }
            assert(parse_i32_spec(s@) is None);
            return None;
        }
        let d = (c as u32 - '0' as u32) as i64;
        assert(ds.take(k + 1).drop_last() =~= ds.take(k));
        assert(ds.take(k + 1).last() == c);
        acc = acc * 10 + d;
        assert(all_digits(ds.take(k + 1))) by {
            assert forall|j: int| 0 <= j < ds.take(k + 1).len() implies is_digit(
                #[trigger] ds.take(k + 1)[j],
            ) by {
                if j < k {
                    assert(ds.take(k + 1)[j] == ds.take(k)[j]);
                }
            }
        }
        i += 1;
        if acc > 2147483648 {
            proof {
                if all_digits(ds) {
                    lemma_digits_value_prefix(ds, k + 1);
                    assert(ds.take(k + 1) == ds.take(i - start));
                    assert(digits_value(ds) > 2147483648);
                }
            }
            assert(parse_i32_spec(s@) is None);
            return None;
        }
    }
    assert(ds.take(n - start) =~= ds);
    if negative {
        Some((-acc) as i32)
    } else if acc <= 2147483647 {
        Some(acc as i32)
    } else {
        None
    }
}

/// What reading `s` as a decimal `usize` gives: an optional `'+'` sign, then
/// at least one ASCII digit and nothing else, and a value that fits in a
/// `usize`.
pub open spec fn parse_usize_spec(s: Seq<char>) -> Option<usize> {
    let signed = s.len() > 0 && s[0] == '+';
    let ds = if signed { s.drop_first() } else { s };
    if ds.len() > 0 && all_digits(ds) && digits_value(ds) <= usize::MAX {
        Some(digits_value(ds) as usize)
    } else {
        None
    }
}

/// Reads the characters of `s` as a decimal `usize`, as `str::parse::<usize>`
/// does.
pub fn parse_usize(s: &Vec<char>) -> (r: Option<usize>)
    ensures
        r == parse_usize_spec(s@),
{
    let n = s.len();
    if n == 0 {
        return None;
    }
    let start: usize = if s[0] == '+' { 1 } else { 0 };
    let ghost ds = if start == 1 { s@.drop_first() } else { s@ };
    assert(ds =~= s@.subrange(start as int, n as int));
    if start == n {
        return None;
    }
    let mut acc: usize = 0;
    let mut i: usize = start;
    assert(ds.take(0) =~= Seq::<char>::empty());
    while i < n
        invariant
            start <= i <= n,
            n == s@.len(),
            n > 0,
            start == (if s@[0] == '+' { 1usize } else { 0usize }),
            ds =~= s@.subrange(start as int, n as int),
            ds == (if start == 1 { s@.drop_first() } else { s@ }),
            all_digits(ds.take(i - start)),
            acc == digits_value(ds.take(i - start)),
        decreases n - i,
    {
        let c = s[i];
        let ghost k: int = i - start;
        assert(ds[k] == c);
        if !('0' <= c && c <= '9') {
            assert(!all_digits(ds)) by {
                assert(!is_digit(ds[k]));
            }
            assert(parse_usize_spec(s@) is None);
            return None;
        }
        let d = (c as u32 - '0' as u32) as usize;
        assert(ds.take(k + 1).drop_last() =~= ds.take(k));
        assert(ds.take(k + 1).last() == c);
        assert(all_digits(ds.take(k + 1))) by {
            assert forall|j: int| 0 <= j < ds.take(k + 1).len() implies is_digit(
                #[trigger] ds.take(k + 1)[j],
            ) by {
                if j < k {
                    assert(ds.take(k + 1)[j] == ds.take(k)[j]);
                }
            }
        }
        let next = match acc.checked_mul(10) {
            Some(t) => t.checked_add(d),
            None => None,
        };
        match next {
            Some(v) => {
                acc = v;
            },
            None => {
                proof {
                    assert(digits_value(ds.take(k + 1)) > usize::MAX);
                    if all_digits(ds) {
                        lemma_digits_value_prefix(ds, k + 1);
                    }
                }
                assert(parse_usize_spec(s@) is None);
                return None;
            },
        }
        i += 1;
    }
    assert(ds.take(n - start) =~= ds);
    Some(acc)
}

} // verus!
