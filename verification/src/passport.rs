//! Finding the passport key in the speller's search page.
//!
//! The page carries the key as `passportKey=<value>`. The name is matched
//! without regard to case, by Unicode simple case folding (so `K` also
//! matches the Kelvin sign and `s` the long s), and the value is the longest
//! run of characters after `=` that holds no `"`, no `'` and no Unicode white
//! space. The first place in the page where a name with a non-empty value
//! stands is the one that counts; a page without one gives the empty key.
//! The search itself is made with the `regex` crate.

use vstd::prelude::*;

verus! {

/// Length of the marker `passportKey=`.
pub open spec fn marker_len() -> int {
    12
}

/// The marker in lower case: `passportkey=`.
pub open spec fn marker_lower() -> Seq<char> {
    seq!['p', 'a', 's', 's', 'p', 'o', 'r', 't', 'k', 'e', 'y', '=']
}

/// The marker in upper case: `PASSPORTKEY=`.
pub open spec fn marker_upper() -> Seq<char> {
    seq!['P', 'A', 'S', 'S', 'P', 'O', 'R', 'T', 'K', 'E', 'Y', '=']
}

/// `c` matches position `j` of the marker without regard to case.
pub open spec fn marker_char_matches(c: char, j: int) -> bool {
    ||| c == marker_lower()[j]
    ||| c == marker_upper()[j]
    ||| (marker_lower()[j] == 'k' && c == '\u{212A}')
    ||| (marker_lower()[j] == 's' && c == '\u{17F}')
}

/// Unicode white space (the `White_Space` property).
pub open spec fn is_white_space(c: char) -> bool {
    ||| ('\u{9}' <= c && c <= '\u{D}')
    ||| c == ' '
    ||| c == '\u{85}'
    ||| c == '\u{A0}'
    ||| c == '\u{1680}'
    ||| ('\u{2000}' <= c && c <= '\u{200A}')
    ||| c == '\u{2028}'
    ||| c == '\u{2029}'
    ||| c == '\u{202F}'
    ||| c == '\u{205F}'
    ||| c == '\u{3000}'
}

/// A character that may stand in a key value.
pub open spec fn key_char(c: char) -> bool {
    c != '"' && c != '\'' && !is_white_space(c)
}

/// A marker starts at `i` and is followed by at least one key character.
pub open spec fn key_at(b: Seq<char>, i: int) -> bool {
    &&& 0 <= i
    &&& i + marker_len() < b.len()
    &&& forall|j: int| 0 <= j < marker_len() ==> marker_char_matches(#[trigger] b[i + j], j)
    &&& key_char(b[i + marker_len()])
}

/// The first position at or after `i` where a key stands.
pub open spec fn first_key_from(b: Seq<char>, i: int) -> Option<int>
    decreases b.len() - i,
{
    if i < 0 || i + marker_len() >= b.len() {
        None
    } else if key_at(b, i) {
        Some(i)
    } else {
        first_key_from(b, i + 1)
    }
}

/// The end of the run of key characters that starts at `k`.
pub open spec fn run_end(b: Seq<char>, k: int) -> int
    decreases b.len() - k,
{
    if k < 0 || k >= b.len() || !key_char(b[k]) {
        k
    } else {
        run_end(b, k + 1)
    }
}

/// The passport key that the page `b` holds, or the empty text.
pub open spec fn passport_key_of(b: Seq<char>) -> Seq<char> {
    match first_key_from(b, 0) {
        Some(i) => b.subrange(i + marker_len(), run_end(b, i + marker_len())),
        None => Seq::<char>::empty(),
    }
}

/// The pattern that the page's key is read with: the marker, then a run of
/// key characters captured as the key.
pub const PASSPORT_KEY_PATTERN: &'static str = r#"(?i)passportKey=([^"'\s]+)"#;

/// Runs `regex::Regex::captures` with [`PASSPORT_KEY_PATTERN`] on `body` and
/// gives the text of capture group 1, or `None` where the pattern does not
/// match. The contract states what the `regex` documentation gives for this
/// pattern: the leftmost match wins, `(?i)` matches by Unicode simple case
/// folding, `\s` is Unicode white space, and `+` takes as many characters as
/// it can.
#[verifier::external_body]
fn passport_key_capture(body: &str) -> (r: Option<String>)
    ensures
        match r {
            Some(k) => first_key_from(body@, 0) is Some && k@ == passport_key_of(body@),
            None => first_key_from(body@, 0) is None,
        },
{
    let re = regex::Regex::new(PASSPORT_KEY_PATTERN).unwrap();
    match re.captures(body) {
        Some(captures) => match captures.get(1) {
            Some(value) => Some(value.as_str().to_string()),
            None => None,
        },
        None => None,
    }
}

/// The passport key that `body` holds, or the empty text where it holds
/// none.
pub fn extract_passport_key(body: &str) -> (key: String)
    ensures
        key@ == passport_key_of(body@),
{
    match passport_key_capture(body) {
        Some(key) => key,
        None => String::new(),
    }
}

/// The marker as the page writes it: `passportKey=`.
pub open spec fn marker() -> Seq<char> {
    seq!['p', 'a', 's', 's', 'p', 'o', 'r', 't', 'K', 'e', 'y', '=']
}

proof fn lemma_run_end_bounds(b: Seq<char>, k: int)
    requires
        0 <= k <= b.len(),
    ensures
        k <= run_end(b, k) <= b.len(),
        forall|x: int| k <= x < run_end(b, k) ==> key_char(#[trigger] b[x]),
        run_end(b, k) < b.len() ==> !key_char(b[run_end(b, k)]),
    decreases b.len() - k,
{
    if k < b.len() && key_char(b[k]) {
        lemma_run_end_bounds(b, k + 1);
    }
}

proof fn lemma_first_key_found(b: Seq<char>, i: int)
    requires
        0 <= i,
    ensures
        first_key_from(b, i) matches Some(p) ==> i <= p && key_at(b, p),
    decreases b.len() - i,
{
    if !(i + marker_len() >= b.len()) && !key_at(b, i) {
        lemma_first_key_found(b, i + 1);
    }
}

/// Every character of an extracted key is a key character: a key never holds
/// a quote or white space.
pub proof fn lemma_key_has_only_key_chars(b: Seq<char>)
    ensures
        forall|x: int|
            0 <= x < passport_key_of(b).len() ==> key_char(#[trigger] passport_key_of(b)[x]),
{
    lemma_first_key_found(b, 0);
    if let Some(i) = first_key_from(b, 0) {
        lemma_run_end_bounds(b, i + marker_len());
        assert forall|x: int| 0 <= x < passport_key_of(b).len() implies key_char(
            #[trigger] passport_key_of(b)[x],
        ) by {
            assert(passport_key_of(b)[x] == b[i + marker_len() + x]);
        }
    }
}

/// A page that begins with `passportKey=`, then a non-empty value, then
/// either nothing or a character that ends a value, gives back exactly that
/// value.
pub proof fn lemma_key_read_back(value: Seq<char>, rest: Seq<char>)
    requires
        value.len() > 0,
        forall|x: int| 0 <= x < value.len() ==> key_char(#[trigger] value[x]),
        rest.len() > 0 ==> !key_char(rest[0]),
    ensures
        passport_key_of(marker() + value + rest) == value,
{
    let b = marker() + value + rest;
    assert(key_at(b, 0)) by {
        assert forall|j: int| 0 <= j < marker_len() implies marker_char_matches(
            #[trigger] b[0 + j],
            j,
        ) by {
            assert(b[0 + j] == marker()[j]);
        }
        assert(b[marker_len()] == value[0]);
    }
    assert(first_key_from(b, 0) == Some(0int));
    lemma_run_end_bounds(b, marker_len());
    let e = run_end(b, marker_len());
    assert forall|x: int| marker_len() <= x < marker_len() + value.len() implies key_char(
        #[trigger] b[x],
    ) by {
        assert(b[x] == value[x - marker_len()]);
    }
    if e < marker_len() + value.len() {
        assert(key_char(b[e]));
    }
    if e > marker_len() + value.len() {
        let x = marker_len() + value.len();
        assert(key_char(b[x]));
        assert(b[x] == rest[0]);
    }
    assert(e == marker_len() + value.len());
    assert(b.subrange(marker_len(), e) =~= value);
}

/// The marker, matched without regard to case, starts at `i` of `p`.
pub open spec fn marker_in(p: Seq<char>, i: int) -> bool {
    0 <= i && i + marker_len() <= p.len() && forall|j: int|
        0 <= j < marker_len() ==> marker_char_matches(#[trigger] p[i + j], j)
}

proof fn lemma_first_key_skips(b: Seq<char>, i: int, target: int)
    requires
        0 <= i <= target,
        key_at(b, target),
        forall|x: int| i <= x < target ==> !key_at(b, x),
    ensures
        first_key_from(b, i) == Some(target),
    decreases target - i,
{
    if i < target {
        assert(!key_at(b, i));
        lemma_first_key_skips(b, i + 1, target);
    }
}

/// However long the text before it, a page whose text holds no marker before
/// `passportKey=`, then a non-empty value, then either nothing or a character
/// that ends a value, gives back exactly that value.
pub proof fn lemma_key_after_any_text(before: Seq<char>, value: Seq<char>, rest: Seq<char>)
    requires
        forall|i: int| !marker_in(before, i),
        value.len() > 0,
        forall|x: int| 0 <= x < value.len() ==> key_char(#[trigger] value[x]),
        rest.len() > 0 ==> !key_char(rest[0]),
    ensures
        passport_key_of(before + marker() + value + rest) == value,
{
    let b = before + marker() + value + rest;
    let n: int = before.len() as int;
    assert forall|x: int| 0 <= x < n implies !key_at(b, x) by {
        if key_at(b, x) {
            if x + marker_len() <= n {
                assert forall|j: int| 0 <= j < marker_len() implies marker_char_matches(
                    #[trigger] before[x + j],
                    j,
                ) by {
                    assert(marker_char_matches(b[x + j], j));
                    assert(b[x + j] == before[x + j]);
                }
                assert(marker_in(before, x));
            } else {
                let y = x + marker_len() - 1;
                assert(marker_char_matches(b[x + (marker_len() - 1)], marker_len() - 1));
                assert(b[y] == marker()[y - n]);
                assert(y - n < marker_len() - 1);
            }
        }
    }
    assert(key_at(b, n)) by {
        assert forall|j: int| 0 <= j < marker_len() implies marker_char_matches(
            #[trigger] b[n + j],
            j,
        ) by {
            assert(b[n + j] == marker()[j]);
        }
        assert(b[n + marker_len()] == value[0]);
    }
    lemma_first_key_skips(b, 0, n);
    let k = n + marker_len();
    lemma_run_end_bounds(b, k);
    let e = run_end(b, k);
    assert forall|x: int| k <= x < k + value.len() implies key_char(#[trigger] b[x]) by {
        assert(b[x] == value[x - k]);
    }
    if e < k + value.len() {
        assert(key_char(b[e]));
    }
    if e > k + value.len() {
        let x = k + value.len();
        assert(key_char(b[x]));
        assert(b[x] == rest[0]);
    }
    assert(e == k + value.len());
    assert(b.subrange(k, e) =~= value);
}

} // verus!
