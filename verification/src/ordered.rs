//! Lexicographic order on strings (by Unicode scalar value, the order of
//! `String`'s `Ord`) and sorted string sets.

use vstd::prelude::*;
use vstd::string::*;
use crate::text::str_equal;

verus! {

/// `a` sorts strictly before `b`.
pub open spec fn lex_lt(a: Seq<char>, b: Seq<char>) -> bool
    decreases a.len(),
{
    if a.len() == 0 {
        b.len() > 0
    } else if b.len() == 0 {
        false
    } else if a[0] < b[0] {
        true
    } else if a[0] > b[0] {
        false
    } else {
        lex_lt(a.drop_first(), b.drop_first())
    }
}

/// Strictly increasing, hence free of duplicates.
pub open spec fn strictly_sorted(s: Seq<Seq<char>>) -> bool {
    forall|i: int, j: int| 0 <= i < j < s.len() ==> lex_lt(#[trigger] s[i], #[trigger] s[j])
}

/// No string sorts before itself.
pub proof fn lemma_lex_irreflexive(a: Seq<char>)
    ensures
        !lex_lt(a, a),
    decreases a.len(),
{
    if a.len() > 0 {
        lemma_lex_irreflexive(a.drop_first());
    }
}

/// Any two strings are equal or one sorts before the other.
pub proof fn lemma_lex_total(a: Seq<char>, b: Seq<char>)
    ensures
        a == b || lex_lt(a, b) || lex_lt(b, a),
    decreases a.len(),
{
    if a.len() > 0 && b.len() > 0 && a[0] == b[0] {
        lemma_lex_total(a.drop_first(), b.drop_first());
        if a.drop_first() == b.drop_first() {
            assert(a =~= seq![a[0]] + a.drop_first());
            assert(b =~= seq![b[0]] + b.drop_first());
        }
    } else if a.len() > 0 && b.len() > 0 {
        assert(a[0] != b[0]);
    } else if a.len() == 0 && b.len() == 0 {
        assert(a =~= b);
    }
}

/// Sorting before is transitive.
pub proof fn lemma_lex_transitive(a: Seq<char>, b: Seq<char>, c: Seq<char>)
    requires
        lex_lt(a, b),
        lex_lt(b, c),
    ensures
        lex_lt(a, c),
    decreases a.len(),
{
    if a.len() > 0 && b.len() > 0 && c.len() > 0 && a[0] == b[0] && b[0] == c[0] {
        lemma_lex_transitive(a.drop_first(), b.drop_first(), c.drop_first());
    }
}

/// Two strings never sort before each other.
pub proof fn lemma_lex_asymmetric(a: Seq<char>, b: Seq<char>)
    requires
        lex_lt(a, b),
    ensures
        !lex_lt(b, a),
{
    if lex_lt(b, a) {
        lemma_lex_transitive(a, b, a);
        lemma_lex_irreflexive(a);
    }
}

/// Whether `a` sorts strictly before `b`.
pub fn str_lt(a: &str, b: &str) -> (r: bool)
    ensures
        r == lex_lt(a@, b@),
{
    let n = a.unicode_len();
    let m = b.unicode_len();
    let mut i: usize = 0;
    assert(a@.skip(0) =~= a@);
    assert(b@.skip(0) =~= b@);
    while i < n && i < m
        invariant
            n == a@.len(),
            m == b@.len(),
            i <= n,
            i <= m,
            lex_lt(a@, b@) == lex_lt(a@.skip(i as int), b@.skip(i as int)),
        decreases n - i,
    {
        let x = a.get_char(i);
        let y = b.get_char(i);
        if x < y {
            return true;
        }
        if x > y {
            return false;
        }
        assert(a@.skip(i as int).drop_first() =~= a@.skip(i + 1));
        assert(b@.skip(i as int).drop_first() =~= b@.skip(i + 1));
        i = i + 1;
    }
    i == n && i < m
}

/// Insert `s` into a strictly sorted list unless already present, keeping
/// it strictly sorted.
pub fn insert_sorted_unique(v: &mut Vec<String>, s: String)
    requires
        strictly_sorted(old(v)@.map_values(|x: String| x@)),
    ensures
        strictly_sorted(final(v)@.map_values(|x: String| x@)),
        final(v)@.map_values(|x: String| x@).to_set() == old(v)@.map_values(|x: String| x@).to_set().insert(s@),
{
    let ghost old_v = v@.map_values(|x: String| x@);
    let mut p: usize = 0;
    let mut stop = false;
    while !stop && p < v.len()
        invariant
            v@.map_values(|x: String| x@) == old_v,
            strictly_sorted(old_v),
            p <= v@.len(),
            forall|k: int| 0 <= k < p ==> lex_lt(#[trigger] old_v[k], s@),
            stop ==> p < v@.len() && !lex_lt(old_v[p as int], s@),
        decreases v@.len() - p + if stop { 0int } else { 1int },
    {
        if !str_lt(v[p].as_str(), s.as_str()) {
            stop = true;
        } else {
            p = p + 1;
        }
    }
    if p < v.len() && str_equal(v[p].as_str(), s.as_str()) {
        assert(old_v.to_set() =~= old_v.to_set().insert(s@)) by {
            assert(old_v[p as int] == s@);
        }
        return;
    }
    proof {
        if p < v@.len() {
            assert(!lex_lt(old_v[p as int], s@));
            lemma_lex_total(old_v[p as int], s@);
        }
    }
    v.insert(p, s);
    let ghost new_v = v@.map_values(|x: String| x@);
    assert(new_v =~= old_v.insert(p as int, s@));
    assert forall|i: int, j: int| 0 <= i < j < new_v.len() implies lex_lt(#[trigger] new_v[i], #[trigger] new_v[j]) by {
        if j < p {
        } else if j == p {
            assert(new_v[j] == s@);
            assert(new_v[i] == old_v[i]);
        } else if i < p {
            assert(new_v[i] == old_v[i]);
            assert(new_v[j] == old_v[j - 1]);
            assert(lex_lt(old_v[i], s@));
            assert(lex_lt(s@, old_v[p as int]));
            if j - 1 > p {
                lemma_lex_transitive(s@, old_v[p as int], old_v[j - 1]);
            }
            lemma_lex_transitive(old_v[i], s@, old_v[j - 1]);
        } else if i == p {
            assert(new_v[i] == s@);
            assert(new_v[j] == old_v[j - 1]);
            if j - 1 > p {
                lemma_lex_transitive(s@, old_v[p as int], old_v[j - 1]);
            }
        } else {
            assert(new_v[i] == old_v[i - 1]);
            assert(new_v[j] == old_v[j - 1]);
        }
    }
    assert(new_v.to_set() =~= old_v.to_set().insert(s@)) by {
        assert forall|x: Seq<char>| new_v.to_set().contains(x) <==> old_v.to_set().insert(s@).contains(x) by {
            if new_v.to_set().contains(x) {
                let k = choose|k: int| 0 <= k < new_v.len() && new_v[k] == x;
                if k < p {
                    assert(old_v[k] == x);
                } else if k > p {
                    assert(old_v[k - 1] == x);
                }
            }
            if old_v.to_set().contains(x) {
                let k = choose|k: int| 0 <= k < old_v.len() && old_v[k] == x;
                if k < p {
                    assert(new_v[k] == x);
                } else {
                    assert(new_v[k + 1] == x);
                }
            }
            if x == s@ {
                assert(new_v[p as int] == x);
            }
        }
    }
}

} // verus!
