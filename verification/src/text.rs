//! Character-level helpers shared by the other modules.

use vstd::prelude::*;

verus! {

/// Copies the characters of `s` into a vector.
pub fn chars_of(s: &str) -> (v: Vec<char>)
    ensures
        v@ == s@,
{
    let mut v: Vec<char> = Vec::new();
    for c in it: s.chars()
        invariant
            v@ == it.seq().take(it.index() as int),
            it.seq() == s@,
    {
        v.push(c);
    }
    v
}

/// The pieces of `s` between occurrences of `sep`, as `str::split` with a
/// one-character pattern yields them: `k` separators give `k + 1` pieces,
/// empty pieces included.
pub open spec fn split_on(s: Seq<char>, sep: char) -> Seq<Seq<char>>
    decreases s.len(),
{
    if s.len() == 0 {
        seq![Seq::<char>::empty()]
    } else {
        let rest = split_on(s.drop_last(), sep);
        if s.last() == sep {
            rest.push(Seq::<char>::empty())
        } else {
            rest.update(rest.len() - 1, rest.last().push(s.last()))
        }
    }
}

/// Splitting always yields at least one piece.
pub proof fn lemma_split_on_nonempty(s: Seq<char>, sep: char)
    ensures
        split_on(s, sep).len() >= 1,
    decreases s.len(),
{
    if s.len() > 0 {
        lemma_split_on_nonempty(s.drop_last(), sep);
    }
}

/// No piece produced by splitting contains the separator.
pub proof fn lemma_split_on_pieces_free(s: Seq<char>, sep: char)
    ensures
        forall|i: int, j: int|
            0 <= i < split_on(s, sep).len() && 0 <= j < split_on(s, sep)[i].len()
                ==> split_on(s, sep)[i][j] != sep,
    decreases s.len(),
{
    if s.len() > 0 {
        lemma_split_on_nonempty(s.drop_last(), sep);
        lemma_split_on_pieces_free(s.drop_last(), sep);
        let rest = split_on(s.drop_last(), sep);
        if s.last() != sep {
            assert forall|i: int, j: int|
                0 <= i < split_on(s, sep).len() && 0 <= j < split_on(s, sep)[i].len()
                    implies split_on(s, sep)[i][j] != sep by {
                if i == rest.len() - 1 && j == rest.last().len() {
                } else if i == rest.len() - 1 {
                    assert(split_on(s, sep)[i][j] == rest[i][j]);
                }
            }
        }
    }
}

/// Joins pieces with `sep` between consecutive ones.
pub open spec fn join_with(parts: Seq<Seq<char>>, sep: char) -> Seq<char>
    decreases parts.len(),
{
    if parts.len() == 0 {
        Seq::<char>::empty()
    } else if parts.len() == 1 {
        parts[0]
    } else {
        join_with(parts.drop_last(), sep).push(sep) + parts.last()
    }
}

/// Joining the pieces of a split with the same separator gives back the text.
pub proof fn lemma_split_join(s: Seq<char>, sep: char)
    ensures
        join_with(split_on(s, sep), sep) == s,
    decreases s.len(),
{
    if s.len() > 0 {
        let t = s.drop_last();
        lemma_split_on_nonempty(t, sep);
        lemma_split_join(t, sep);
        let rest = split_on(t, sep);
        if s.last() == sep {
            assert(split_on(s, sep).drop_last() =~= rest);
            assert(join_with(rest, sep).push(sep) + Seq::<char>::empty() =~= s);
        } else {
            let parts = split_on(s, sep);
            if rest.len() == 1 {
                assert(parts[0] =~= t.push(s.last()));
                assert(t =~= rest[0]);
                assert(s =~= t.push(s.last()));
            } else {
                assert(parts.drop_last() =~= rest.drop_last());
                assert(join_with(rest, sep) == join_with(rest.drop_last(), sep).push(sep)
                    + rest.last());
                assert(join_with(parts, sep) =~= join_with(rest, sep).push(s.last()));
                assert(s =~= t.push(s.last()));
            }
        }
    }
}

/// Splits `s` at every occurrence of `sep`.
pub fn split_chars(s: &Vec<char>, sep: char) -> (parts: Vec<Vec<char>>)
    ensures
        parts.deep_view() == split_on(s@, sep),
{
    let mut done: Vec<Vec<char>> = Vec::new();
    let mut cur: Vec<char> = Vec::new();
    let n = s.len();
    let mut i: usize = 0;
    assert(s@.take(0) =~= Seq::<char>::empty());
    assert(cur.deep_view() =~= Seq::<char>::empty());
    assert(done.deep_view() =~= Seq::<Seq<char>>::empty());
    while i < n
        invariant
            0 <= i <= n,
            n == s@.len(),
            done.deep_view().push(cur.deep_view()) =~= split_on(s@.take(i as int), sep),
        decreases n - i,
    {
        let c = s[i];
        let ghost before = split_on(s@.take(i as int), sep);
        proof {
            let t = s@.take(i as int + 1);
            assert(t.drop_last() =~= s@.take(i as int));
            assert(t.last() == c);
            lemma_split_on_nonempty(s@.take(i as int), sep);
        }
        if c == sep {
            let ghost old_done = done.deep_view();
            let finished = cur;
            done.push(finished);
            cur = Vec::new();
            assert(done.deep_view() =~= old_done.push(finished.deep_view()));
            assert(cur.deep_view() =~= Seq::<char>::empty());
        } else {
            let ghost old_cur = cur.deep_view();
            cur.push(c);
            assert(cur.deep_view() =~= old_cur.push(c));
            assert(done.deep_view().push(cur.deep_view()) =~= before.update(
                before.len() - 1,
                before.last().push(c),
            ));
        }
        i += 1;
    }
    assert(s@.take(n as int) =~= s@);
    let ghost old_done = done.deep_view();
    done.push(cur);
    assert(done.deep_view() =~= old_done.push(cur.deep_view()));
    done
}

} // verus!
