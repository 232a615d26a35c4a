//! Version strings such as `"0.2.0"` and their comparison.
//!
//! A version is read the way the updater reads it: the text is split at every
//! `'.'`, each piece is read as an `i32` (a piece that does not read as one
//! counts as `0`), and the piece at index `i` of `n` pieces is weighted by
//! `10^(n - 1 - i)`.

use vstd::prelude::*;
use crate::number::{parse_i32, parse_i32_spec};
use crate::text::{chars_of, split_chars, split_on, lemma_split_on_nonempty};

verus! {

/// The version of this spell checker.
pub const CURRENT_VERSION: &'static str = "0.2.0";

/// `10^e`.
pub open spec fn pow10(e: nat) -> int
    decreases e,
{
    if e == 0 {
        1
    } else {
        10 * pow10((e - 1) as nat)
    }
}

/// `10^e` for the exponents that fit an `i32`.
fn pow10_i32(e: usize) -> (r: i32)
    requires
        e <= 9,
    ensures
        r == pow10(e as nat),
{
    let mut r: i32 = 1;
    let mut k: usize = 0;
    while k < e
        invariant
            k <= e <= 9,
            r == pow10(k as nat),
        decreases e - k,
    {
        proof {
            lemma_pow10_small(k as nat);
        }
        r = r * 10;
        k += 1;
    }
    r
}

proof fn lemma_pow10_monotone(k: nat, j: nat)
    requires
        k <= j,
    ensures
        1 <= pow10(k) <= pow10(j),
    decreases j,
{
    if k < j {
        lemma_pow10_monotone(k, (j - 1) as nat);
    } else if k > 0 {
        lemma_pow10_monotone((k - 1) as nat, (k - 1) as nat);
    }
}

proof fn lemma_pow10_small(k: nat)
    requires
        k <= 8,
    ensures
        1 <= pow10(k) <= 100000000,
{
    lemma_pow10_monotone(k, 8);
    reveal_with_fuel(pow10, 9);
}

/// The number that one piece of a version counts for before weighting.
pub open spec fn part_value(p: Seq<char>) -> int {
    match parse_i32_spec(p) {
        Some(v) => v as int,
        None => 0,
    }
}

/// The pieces of a version string.
pub open spec fn version_parts(s: Seq<char>) -> Seq<Seq<char>> {
    split_on(s, '.')
}

/// The weighted contribution of piece `i`.
pub open spec fn version_term(parts: Seq<Seq<char>>, i: int) -> int {
    part_value(parts[i]) * pow10((parts.len() - 1 - i) as nat)
}

/// The sum of the first `k` weighted pieces, added from the left.
pub open spec fn version_sum(parts: Seq<Seq<char>>, k: int) -> int
    decreases k,
{
    if k <= 0 {
        0
    } else {
        version_sum(parts, k - 1) + version_term(parts, k - 1)
    }
}

/// The number a version string stands for.
pub open spec fn version_number(s: Seq<char>) -> int {
    version_sum(version_parts(s), version_parts(s).len() as int)
}

pub open spec fn fits_i32(x: int) -> bool {
    i32::MIN <= x <= i32::MAX
}

/// The version can be computed in `i32` arithmetic without overflow: at most
/// ten pieces (so every weight fits), and every weighted piece and every
/// running sum fits.
pub open spec fn version_fits(s: Seq<char>) -> bool {
    let parts = version_parts(s);
    &&& parts.len() <= 10
    &&& forall|i: int| 0 <= i < parts.len() ==> fits_i32(#[trigger] version_term(parts, i))
    &&& forall|k: int| 1 <= k <= parts.len() ==> fits_i32(#[trigger] version_sum(parts, k))
}

proof fn lemma_version_sum_one_part(pa: Seq<Seq<char>>, pb: Seq<Seq<char>>, i: int, k: int)
    requires
        pa.len() == pb.len(),
        0 <= i < pa.len(),
        0 <= k <= pa.len(),
        forall|j: int| 0 <= j < pa.len() && j != i ==> pa[j] == pb[j],
    ensures
        version_sum(pb, k) - version_sum(pa, k) == (if k > i {
            version_term(pb, i) - version_term(pa, i)
        } else {
            0
        }),
    decreases k,
{
    if k > 0 {
        lemma_version_sum_one_part(pa, pb, i, k - 1);
        if k - 1 != i {
            assert(pa[k - 1] == pb[k - 1]);
        }
    }
}

/// Versions with as many pieces, that differ in one piece only, differ by
/// that piece's difference times its weight; so raising one piece of a
/// version makes it newer.
pub proof fn lemma_raising_one_part(a: Seq<char>, b: Seq<char>, i: int)
    requires
        version_parts(a).len() == version_parts(b).len(),
        0 <= i < version_parts(a).len(),
        forall|j: int|
            0 <= j < version_parts(a).len() && j != i ==> version_parts(a)[j] == version_parts(
                b,
            )[j],
    ensures
        version_number(b) - version_number(a) == (part_value(version_parts(b)[i]) - part_value(
            version_parts(a)[i],
        )) * pow10((version_parts(a).len() - 1 - i) as nat),
        part_value(version_parts(b)[i]) > part_value(version_parts(a)[i]) ==> version_number(b)
            > version_number(a),
{
    let pa = version_parts(a);
    let pb = version_parts(b);
    let n = pa.len();
    lemma_version_sum_one_part(pa, pb, i, n as int);
    let w = pow10((n - 1 - i) as nat);
    lemma_pow10_monotone(0, (n - 1 - i) as nat);
    let x = part_value(pb[i]);
    let y = part_value(pa[i]);
    assert(x * w - y * w == (x - y) * w) by (nonlinear_arith);
    assert(x > y ==> (x - y) * w > 0) by (nonlinear_arith)
        requires
            w >= 1,
    ;
}

/// With a `'.'` and a piece without `'.'` put after it, a text splits into
/// its own pieces and then that piece.
proof fn lemma_split_append_piece(s: Seq<char>, t: Seq<char>)
    requires
        forall|i: int| 0 <= i < t.len() ==> t[i] != '.',
    ensures
        split_on(s.push('.') + t, '.') == split_on(s, '.').push(t),
    decreases t.len(),
{
    let u = s.push('.') + t;
    if t.len() == 0 {
        assert(t =~= Seq::<char>::empty());
        assert(u =~= s.push('.'));
        assert(u.drop_last() =~= s);
        assert(split_on(s, '.').push(t) =~= split_on(s, '.').push(Seq::<char>::empty()));
    } else {
        let t2 = t.drop_last();
        assert forall|i: int| 0 <= i < t2.len() implies t2[i] != '.' by {
            assert(t2[i] == t[i]);
        }
        lemma_split_append_piece(s, t2);
        assert(u.drop_last() =~= s.push('.') + t2);
        assert(u.last() == t.last());
        let rest = split_on(s, '.').push(t2);
        assert(rest.update(rest.len() - 1, rest.last().push(t.last())) =~= split_on(s, '.').push(
            t,
        )) by {
            assert(t2.push(t.last()) =~= t);
        }
    }
}

/// A text without `'.'` is one piece.
proof fn lemma_split_single_piece(t: Seq<char>)
    requires
        forall|i: int| 0 <= i < t.len() ==> t[i] != '.',
    ensures
        split_on(t, '.') == seq![t],
    decreases t.len(),
{
    if t.len() > 0 {
        let t2 = t.drop_last();
        assert forall|i: int| 0 <= i < t2.len() implies t2[i] != '.' by {
            assert(t2[i] == t[i]);
        }
        lemma_split_single_piece(t2);
        assert(t[t.len() - 1] != '.');
        assert(t2.push(t.last()) =~= t);
        assert(seq![t2].update(0, t2.push(t.last())) =~= seq![t]);
    } else {
        assert(t =~= Seq::<char>::empty());
    }
}

proof fn lemma_version_sum_shift(ps: Seq<Seq<char>>, t: Seq<char>, k: int)
    requires
        0 <= k <= ps.len(),
    ensures
        version_sum(ps.push(t), k) == 10 * version_sum(ps, k),
    decreases k,
{
    if k > 0 {
        lemma_version_sum_shift(ps, t, k - 1);
        let n = ps.len();
        let x = part_value(ps[k - 1]);
        let w = pow10((n - 1 - (k - 1)) as nat);
        assert(ps.push(t)[k - 1] == ps[k - 1]);
        assert(pow10((n + 1 - 1 - (k - 1)) as nat) == 10 * w);
        assert(x * (10 * w) == 10 * (x * w)) by (nonlinear_arith);
    }
}

/// Putting a piece after a version shifts the version one decimal place and
/// adds the piece: `"a.b.c"` stands for `10 * "a.b" + c`. A single piece
/// stands for its own value.
pub proof fn lemma_version_append_piece(s: Seq<char>, t: Seq<char>)
    requires
        forall|i: int| 0 <= i < t.len() ==> t[i] != '.',
    ensures
        version_number(t) == part_value(t),
        version_number(s.push('.') + t) == 10 * version_number(s) + part_value(t),
{
    lemma_split_single_piece(t);
    assert(version_sum(seq![t], 1) == version_sum(seq![t], 0) + version_term(seq![t], 0));
    lemma_split_append_piece(s, t);
    let ps = split_on(s, '.');
    let n = ps.len();
    lemma_version_sum_shift(ps, t, n as int);
    assert(ps.push(t)[n as int] == t);
    assert(version_sum(ps.push(t), n + 1int) == version_sum(ps.push(t), n as int) + version_term(
        ps.push(t),
        n as int,
    ));
}

/// The values of the pieces of a version, from the left.
pub open spec fn piece_values(s: Seq<char>) -> Seq<int> {
    Seq::new(version_parts(s).len(), |i: int| part_value(version_parts(s)[i]))
}

/// `a` comes before `b` in lexicographic order (sequences of one length).
pub open spec fn lex_less(a: Seq<int>, b: Seq<int>) -> bool
    decreases a.len(),
{
    if a.len() == 0 || b.len() == 0 {
        false
    } else if a[0] < b[0] {
        true
    } else if a[0] == b[0] {
        lex_less(a.drop_first(), b.drop_first())
    } else {
        false
    }
}

/// The number whose decimal places, from the left, are `v`.
spec fn front_value(v: Seq<int>) -> int
    decreases v.len(),
{
    if v.len() == 0 {
        0
    } else {
        v[0] * pow10((v.len() - 1) as nat) + front_value(v.drop_first())
    }
}

proof fn lemma_version_sum_front(s: Seq<char>, k: int)
    requires
        0 <= k <= version_parts(s).len(),
    ensures
        version_sum(version_parts(s), k) + front_value(piece_values(s).skip(k)) == front_value(
            piece_values(s),
        ),
    decreases k,
{
    let v = piece_values(s);
    if k == 0 {
        assert(v.skip(0) =~= v);
    } else {
        lemma_version_sum_front(s, k - 1);
        let u = v.skip(k - 1);
        assert(u.drop_first() =~= v.skip(k));
        assert(u[0] == v[k - 1]);
    }
}

/// A version's number, read from its pieces' values.
proof fn lemma_version_front(s: Seq<char>)
    ensures
        version_number(s) == front_value(piece_values(s)),
{
    let n = version_parts(s).len();
    lemma_version_sum_front(s, n as int);
    assert(piece_values(s).skip(n as int) =~= Seq::<int>::empty());
}

pub open spec fn all_single_digits(v: Seq<int>) -> bool {
    forall|i: int| 0 <= i < v.len() ==> 0 <= #[trigger] v[i] <= 9
}

proof fn lemma_front_value_bounds(v: Seq<int>)
    requires
        all_single_digits(v),
    ensures
        0 <= front_value(v) <= pow10(v.len()) - 1,
    decreases v.len(),
{
    if v.len() > 0 {
        let r = v.drop_first();
        assert(all_single_digits(r)) by {
            assert forall|i: int| 0 <= i < r.len() implies 0 <= #[trigger] r[i] <= 9 by {
                assert(r[i] == v[i + 1]);
            }
        }
        lemma_front_value_bounds(r);
        let p = pow10((v.len() - 1) as nat);
        lemma_pow10_monotone(0, (v.len() - 1) as nat);
        let d = v[0];
        assert(0 <= d <= 9);
        assert(0 <= d * p <= 9 * p) by (nonlinear_arith)
            requires
                0 <= d <= 9,
                p >= 1,
        ;
    }
}

proof fn lemma_front_value_order(a: Seq<int>, b: Seq<int>)
    requires
        a.len() == b.len(),
        all_single_digits(a),
        all_single_digits(b),
    ensures
        front_value(a) < front_value(b) <==> lex_less(a, b),
        front_value(a) == front_value(b) <==> a == b,
    decreases a.len(),
{
    if a.len() == 0 {
        assert(a =~= b);
    } else {
        let ra = a.drop_first();
        let rb = b.drop_first();
        assert(all_single_digits(ra)) by {
            assert forall|i: int| 0 <= i < ra.len() implies 0 <= #[trigger] ra[i] <= 9 by {
                assert(ra[i] == a[i + 1]);
            }
        }
        assert(all_single_digits(rb)) by {
            assert forall|i: int| 0 <= i < rb.len() implies 0 <= #[trigger] rb[i] <= 9 by {
                assert(rb[i] == b[i + 1]);
            }
        }
        lemma_front_value_order(ra, rb);
        lemma_front_value_bounds(ra);
        lemma_front_value_bounds(rb);
        let p = pow10((a.len() - 1) as nat);
        lemma_pow10_monotone(0, (a.len() - 1) as nat);
        let x = a[0];
        let y = b[0];
        assert(0 <= x <= 9 && 0 <= y <= 9);
        if x < y {
            assert(y * p - x * p >= p) by (nonlinear_arith)
                requires
                    y >= x + 1,
                    p >= 1,
            ;
            assert(a[0] != b[0]);
        } else if x > y {
            assert(x * p - y * p >= p) by (nonlinear_arith)
                requires
                    x >= y + 1,
                    p >= 1,
            ;
            assert(a[0] != b[0]);
        } else {
            if ra == rb {
                assert(a =~= b) by {
                    assert forall|i: int| 0 <= i < a.len() implies a[i] == b[i] by {
                        if i > 0 {
                            assert(a[i] == ra[i - 1] && b[i] == rb[i - 1]);
                        }
                    }
                }
            }
            if a == b {
                assert(ra =~= rb);
            }
        }
    }
}

/// Versions with as many pieces, each piece a single digit, compare as their
/// pieces do from the left: the one whose first differing piece is smaller is
/// older, and two such versions stand for the same number only when all
/// their pieces agree.
pub proof fn lemma_digit_versions_order(a: Seq<char>, b: Seq<char>)
    requires
        piece_values(a).len() == piece_values(b).len(),
        all_single_digits(piece_values(a)),
        all_single_digits(piece_values(b)),
    ensures
        version_number(a) < version_number(b) <==> lex_less(piece_values(a), piece_values(b)),
        version_number(a) == version_number(b) <==> piece_values(a) == piece_values(b),
{
    lemma_version_front(a);
    lemma_version_front(b);
    lemma_front_value_order(piece_values(a), piece_values(b));
}

/// A current version that stands for at least as much as another one is up to
/// date wherever the other one is, against the same latest version.
pub proof fn lemma_check_version_monotone(a: Seq<char>, b: Seq<char>, latest: Seq<char>)
    requires
        version_number(a) <= version_number(b),
        version_number(a) >= version_number(latest),
    ensures
        version_number(b) >= version_number(latest),
{
}

/// The number `s` stands for, or `None` where computing it in `i32`
/// arithmetic would overflow.
pub fn try_convert_version(s: &str) -> (r: Option<i32>)
    ensures
        r is Some <==> version_fits(s@),
        r matches Some(v) ==> v == version_number(s@),
{
    let chars = chars_of(s);
    let parts = split_chars(&chars, '.');
    let ghost ps = version_parts(s@);
    assert(parts.deep_view() == ps);
    proof {
        lemma_split_on_nonempty(s@, '.');
    }
    let n = parts.len();
    if n > 10 {
        return None;
    }
    let mut result: i32 = 0;
    let mut index: usize = 0;
    while index < n
        invariant
            index <= n <= 10,
            n == ps.len(),
            ps == version_parts(s@),
            parts.deep_view() == ps,
            result == version_sum(ps, index as int),
            forall|i: int| 0 <= i < index ==> fits_i32(#[trigger] version_term(ps, i)),
            forall|k: int| 1 <= k <= index ==> fits_i32(#[trigger] version_sum(ps, k)),
        decreases n - index,
    {
        let value = match parse_i32(&parts[index]) {
            Some(v) => v,
            None => 0,
        };
        assert(parts[index as int]@ == ps[index as int]) by {
            assert(parts.deep_view()[index as int] == parts[index as int].deep_view());
            assert(parts[index as int].deep_view() =~= parts[index as int]@);
        }
        assert(value == part_value(ps[index as int]));
        let weight = pow10_i32(n - 1 - index);
        let term = match value.checked_mul(weight) {
            Some(t) => t,
            None => {
                assert(!fits_i32(version_term(ps, index as int)));
                assert(!version_fits(s@));
                return None;
            },
        };
        assert(term == version_term(ps, index as int));
        let next = match result.checked_add(term) {
            Some(x) => x,
            None => {
                assert(!fits_i32(version_sum(ps, index + 1)));
                assert(!version_fits(s@));
                return None;
            },
        };
        assert(next == version_sum(ps, index + 1));
        result = next;
        index += 1;
    }
    Some(result)
}

/// The number a version string stands for: `"0.2.0"` is `20`, `"1.2.3"` is
/// `123`.
pub fn convert_version(s: &str) -> (r: i32)
    requires
        version_fits(s@),
    ensures
        r == version_number(s@),
{
    match try_convert_version(s) {
        Some(v) => v,
        None => 0,
    }
}

} // verus!
