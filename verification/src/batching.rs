//! Bookkeeping of cross-file batched inference: the items that missed the
//! cache are concatenated over all files (each file remembering its slice),
//! grouped by language for dispatch, and the groups' responses are put back
//! at the items' global positions. Each file's items are first split by what
//! the cache holds for them, and the failures along the way have fixed
//! messages.

use vstd::prelude::*;
use vstd::string::*;
use crate::text::{str_equal, decimal, append_decimal, pre_validation_message, joined_messages};
use crate::error::ServerError;


verus! {

/// The items of all files, one file after the other.
pub open spec fn concat_all<T>(s: Seq<Seq<T>>) -> Seq<T>
    decreases s.len(),
{
    if s.len() == 0 {
        Seq::empty()
    } else {
        concat_all(s.drop_last()) + s.last()
    }
}

/// Where one file's items sit in the concatenation.
#[derive(Clone, Copy, Debug, PartialEq, Eq, Structural)]
pub struct FileSlice {
    pub global_start: usize,
    pub item_count: usize,
}

/// Concatenates the per-file miss lists; a file with misses gets its slice.
pub fn concat_file_items<T>(per_file: Vec<Vec<T>>) -> (r: (Vec<T>, Vec<Option<FileSlice>>))
    ensures
        r.0@ == concat_all(per_file@.map_values(|v: Vec<T>| v@)),
        r.1@.len() == per_file@.len(),
        forall|i: int| 0 <= i < per_file@.len() ==> match #[trigger] r.1@[i] {
            None => per_file@[i]@.len() == 0,
            Some(sl) => {
                &&& per_file@[i]@.len() > 0
                &&& sl.item_count == per_file@[i]@.len()
                &&& sl.global_start == concat_all(per_file@.map_values(|v: Vec<T>| v@).take(i)).len()
                &&& r.0@.subrange(sl.global_start as int, sl.global_start + sl.item_count) == per_file@[i]@
            },
        },
{
    let ghost views = per_file@.map_values(|v: Vec<T>| v@);
    let mut all: Vec<T> = Vec::new();
    let mut slices: Vec<Option<FileSlice>> = Vec::new();
    let mut rest = per_file;
    let ghost total = views.len();
    assert(views.take(0) =~= Seq::<Seq<T>>::empty());
    while rest.len() > 0
        invariant
            total == views.len(),
            slices@.len() + rest@.len() == total,
            rest@.map_values(|v: Vec<T>| v@) == views.skip(slices@.len() as int),
            all@ == concat_all(views.take(slices@.len() as int)),
            forall|i: int| 0 <= i < slices@.len() ==> match #[trigger] slices@[i] {
                None => views[i].len() == 0,
                Some(sl) => {
                    &&& views[i].len() > 0
                    &&& sl.item_count == views[i].len()
                    &&& sl.global_start == concat_all(views.take(i)).len()
                    &&& sl.global_start + sl.item_count <= all@.len()
                    &&& all@.subrange(sl.global_start as int, sl.global_start + sl.item_count) == views[i]
                },
            },
        decreases rest@.len(),
    {
        let ghost k = slices@.len() as int;
        let ghost before = all@;
        let ghost rb = rest@;
        assert(rb.map_values(|v: Vec<T>| v@)[0] == views[k]);
        let mut items = rest.remove(0);
        assert(items@ == views[k]);
        assert(views.take(k + 1).drop_last() =~= views.take(k));
        assert(views.take(k + 1).last() == views[k]);
        if items.len() == 0 {
            slices.push(None);
            assert(concat_all(views.take(k + 1)) =~= before);
        } else {
            let start = all.len();
            let count = items.len();
            all.append(&mut items);
            slices.push(Some(FileSlice { global_start: start, item_count: count }));
            assert(all@.subrange(start as int, start + count) =~= views[k]);
        }
        assert(all@ =~= concat_all(views.take(k + 1)));
        assert forall|i: int| 0 <= i < k + 1 implies match #[trigger] slices@[i] {
            None => views[i].len() == 0,
            Some(sl) => {
                &&& views[i].len() > 0
                &&& sl.item_count == views[i].len()
                &&& sl.global_start == concat_all(views.take(i)).len()
                &&& sl.global_start + sl.item_count <= all@.len()
                &&& all@.subrange(sl.global_start as int, sl.global_start + sl.item_count) == views[i]
            },
        } by {
            if i < k {
                if let Some(sl) = slices@[i] {
                    assert(all@.subrange(sl.global_start as int, sl.global_start + sl.item_count)
                        =~= before.subrange(sl.global_start as int, sl.global_start + sl.item_count));
                }
            }
        }
        assert(rest@ =~= rb.skip(1));
        assert(rb.map_values(|v: Vec<T>| v@).skip(1) =~= views.skip(k + 1));
        assert(rest@.map_values(|v: Vec<T>| v@) =~= rb.map_values(|v: Vec<T>| v@).skip(1));
    }
    assert(views.take(total as int) =~= views);
    (all, slices)
}

/// One language's share of the items: their global positions, ascending.
#[derive(Clone, Debug, PartialEq, Eq)]
pub struct LanguageGroup {
    pub lang: String,
    pub indices: Vec<usize>,
}

/// `groups` partition the positions `0..langs.len()` by language: each group
/// is one language, in ascending order, and every position is in the group
/// of its language.
pub open spec fn groups_partition(groups: Seq<LanguageGroup>, langs: Seq<Seq<char>>) -> bool {
    &&& forall|g: int, h: int| 0 <= g < h < groups.len() ==> (#[trigger] groups[g]).lang@ != (#[trigger] groups[h]).lang@
    &&& forall|g: int, a: int, b: int| 0 <= g < groups.len() && 0 <= a < b < groups[g].indices@.len()
        ==> (#[trigger] groups[g].indices@[a]) < (#[trigger] groups[g].indices@[b])
    &&& forall|g: int, a: int| 0 <= g < groups.len() && 0 <= a < groups[g].indices@.len()
        ==> (#[trigger] groups[g].indices@[a]) < langs.len() && langs[groups[g].indices@[a] as int] == groups[g].lang@
    &&& forall|i: int| 0 <= i < langs.len() ==> #[trigger] in_some_group(groups, i)
}

/// Position `i` is listed by some group.
pub open spec fn in_some_group(groups: Seq<LanguageGroup>, i: int) -> bool {
    exists|g: int, a: int| 0 <= g < groups.len() && 0 <= a < groups[g].indices@.len() && #[trigger] groups[g].indices@[a] == i
}

fn find_group(groups: &Vec<LanguageGroup>, lang: &str) -> (r: Option<usize>)
    ensures
        match r {
            Some(g) => g < groups@.len() && groups@[g as int].lang@ == lang@,
            None => forall|h: int| 0 <= h < groups@.len() ==> (#[trigger] groups@[h]).lang@ != lang@,
        },
{
    let mut g: usize = 0;
    while g < groups.len()
        invariant
            g <= groups@.len(),
            forall|h: int| 0 <= h < g ==> (#[trigger] groups@[h]).lang@ != lang@,
        decreases groups@.len() - g,
    {
        if str_equal(groups[g].lang.as_str(), lang) {
            return Some(g);
        }
        g = g + 1;
    }
    None
}

/// Every group is non-empty and the groups come in the order their
/// languages first appear.
pub open spec fn in_first_appearance_order(groups: Seq<LanguageGroup>) -> bool {
    &&& forall|g: int| 0 <= g < groups.len() ==> (#[trigger] groups[g]).indices@.len() > 0
    &&& forall|g: int, h: int| 0 <= g < h < groups.len() ==> (#[trigger] groups[g]).indices@[0] < (#[trigger] groups[h]).indices@[0]
}

/// Groups item positions by their language, in order of first appearance.
pub fn group_indices_by_language(langs: &Vec<String>) -> (r: Vec<LanguageGroup>)
    ensures
        groups_partition(r@, langs@.map_values(|x: String| x@)),
        in_first_appearance_order(r@),
{
    let ghost lv = langs@.map_values(|x: String| x@);
    let mut groups: Vec<LanguageGroup> = Vec::new();
    let mut i: usize = 0;
    while i < langs.len()
        invariant
            i <= langs@.len(),
            lv == langs@.map_values(|x: String| x@),
            forall|g: int, h: int| 0 <= g < h < groups@.len() ==> (#[trigger] groups@[g]).lang@ != (#[trigger] groups@[h]).lang@,
            forall|g: int, a: int, b: int| 0 <= g < groups@.len() && 0 <= a < b < groups@[g].indices@.len()
                ==> (#[trigger] groups@[g].indices@[a]) < (#[trigger] groups@[g].indices@[b]),
            forall|g: int, a: int| 0 <= g < groups@.len() && 0 <= a < groups@[g].indices@.len()
                ==> (#[trigger] groups@[g].indices@[a]) < i && lv[groups@[g].indices@[a] as int] == groups@[g].lang@,
            forall|j: int| 0 <= j < i ==> #[trigger] in_some_group(groups@, j),
            in_first_appearance_order(groups@),
        decreases langs@.len() - i,
    {
        let lang = langs[i].as_str();
        let found_at = find_group(&groups, lang);
        let ghost before = groups@;
        assert(lv[i as int] == lang@);
        if let Some(g) = found_at {
            let mut group = groups.remove(g);
            let ghost old_indices = group.indices@;
            group.indices.push(i);
            groups.insert(g, group);
            proof {
                assert forall|h: int| 0 <= h < groups@.len() && h != g implies groups@[h] == before[h] by {}
                assert(groups@[g as int].indices@ == old_indices.push(i));
                assert(groups@[g as int].lang == before[g as int].lang);
                assert forall|j: int| 0 <= j < i + 1 implies #[trigger] in_some_group(groups@, j) by {
                    if j == i {
                        assert(groups@[g as int].indices@[old_indices.len() as int] == j);
                    } else {
                        assert(in_some_group(before, j));
                        let (gg, a) = choose|gg: int, a: int|
                            0 <= gg < before.len() && 0 <= a < before[gg].indices@.len() && #[trigger] before[gg].indices@[a] == j;
                        if gg == g {
                            assert(groups@[gg].indices@[a] == j);
                        } else {
                            assert(groups@[gg] == before[gg]);
                        }
                    }
                }
            }
        } else {
            let mut indices: Vec<usize> = Vec::new();
            indices.push(i);
            groups.push(LanguageGroup { lang: langs[i].clone(), indices });
            proof {
                assert forall|j: int| 0 <= j < i + 1 implies #[trigger] in_some_group(groups@, j) by {
                    if j == i {
                        assert(groups@[before.len() as int].indices@[0] == j);
                    } else {
                        assert(in_some_group(before, j));
                        let (gg, a) = choose|gg: int, a: int|
                            0 <= gg < before.len() && 0 <= a < before[gg].indices@.len() && #[trigger] before[gg].indices@[a] == j;
                        assert(groups@[gg] == before[gg]);
                    }
                }
            }
        }
        i = i + 1;
    }
    groups
}

/// How many language groups may run at once: the worker budget divided by
/// the workers each group may use, at least one.
pub fn max_concurrent_groups(max_total_workers: usize, max_workers_per_key: usize) -> (r: usize)
    ensures
        r == ({
            let per_key = if max_workers_per_key < 1 { 1 } else { max_workers_per_key as int };
            let total = if max_total_workers < 1 { 1 } else { max_total_workers as int };
            if total / per_key < 1 { 1 } else { total / per_key }
        }),
        r >= 1,
{
    let per_key = if max_workers_per_key < 1 { 1 } else { max_workers_per_key };
    let total = if max_total_workers < 1 { 1 } else { max_total_workers };
    let q = total / per_key;
    if q < 1 { 1 } else { q }
}

proof fn lemma_div_le_100(e: int, t: int)
    requires
        0 <= e <= t,
        t > 0,
    ensures
        e * 100 / t <= 100,
{
    assert(e * 100 <= t * 100) by (nonlinear_arith) requires e <= t, t > 0;
    assert((t * 100) / t == 100) by (nonlinear_arith) requires t > 0;
    vstd::arithmetic::div_mod::lemma_div_is_ordered(e * 100, t * 100, t);
}

/// The share of looked-up items actually served from the cache, in whole
/// percent: hits whose injection failed do not count.
pub fn cache_hit_rate_pct(total_items: usize, hits: usize, injection_failures: usize) -> (r: usize)
    requires
        injection_failures <= hits,
        hits <= total_items,
        total_items <= usize::MAX / 100,
    ensures
        r == if total_items > 0 { ((hits - injection_failures) * 100 / total_items as int) as usize } else { 0 },
        r <= 100,
{
    if total_items > 0 {
        let effective = hits - injection_failures;
        assert(effective * 100 <= total_items * 100) by (nonlinear_arith)
            requires effective <= total_items;
        let r = effective * 100 / total_items;
        proof {
            lemma_div_le_100(effective as int, total_items as int);
        }
        r
    } else {
        0
    }
}

/// `acc` with the first `n` responses of a group written at their items'
/// positions.
pub open spec fn put_group<T>(acc: Seq<Option<T>>, idx: Seq<usize>, resp: Seq<T>, n: int) -> Seq<Option<T>>
    decreases n,
{
    if n <= 0 {
        acc
    } else {
        put_group(acc, idx, resp, n - 1).update(idx[n - 1] as int, Some(resp[n - 1]))
    }
}

pub open spec fn min_int(a: int, b: int) -> int {
    if a < b { a } else { b }
}

/// The first `g` groups' responses written over `total` empty positions; a
/// failed group writes nothing, and a group's responses beyond its items
/// (or items beyond its responses) are ignored.
pub open spec fn scattered<T>(total: nat, gs: Seq<Seq<usize>>, os: Seq<Option<Seq<T>>>, g: int) -> Seq<Option<T>>
    decreases g,
{
    if g <= 0 {
        Seq::new(total, |i: int| None)
    } else {
        let prev = scattered(total, gs, os, g - 1);
        match os[g - 1] {
            Some(r) => put_group(prev, gs[g - 1], r, min_int(gs[g - 1].len() as int, r.len() as int)),
            None => prev,
        }
    }
}

proof fn lemma_put_group_len<T>(acc: Seq<Option<T>>, idx: Seq<usize>, resp: Seq<T>, n: int)
    requires
        n <= idx.len(),
        forall|a: int| 0 <= a < idx.len() ==> (#[trigger] idx[a]) < acc.len(),
    ensures
        put_group(acc, idx, resp, n).len() == acc.len(),
    decreases n,
{
    if n > 0 {
        lemma_put_group_len(acc, idx, resp, n - 1);
    }
}

proof fn lemma_scattered_len<T>(total: nat, gs: Seq<Seq<usize>>, os: Seq<Option<Seq<T>>>, g: int)
    requires
        g <= gs.len(),
        g <= os.len(),
        forall|gg: int, a: int| 0 <= gg < gs.len() && 0 <= a < gs[gg].len() ==> (#[trigger] gs[gg][a]) < total,
    ensures
        scattered(total, gs, os, g).len() == total,
    decreases g,
{
    if g > 0 {
        lemma_scattered_len(total, gs, os, g - 1);
        if let Some(r) = os[g - 1] {
            assert forall|a: int| 0 <= a < gs[g - 1].len() implies (#[trigger] gs[g - 1][a]) < scattered(total, gs, os, g - 1).len() by {}
            lemma_put_group_len(scattered(total, gs, os, g - 1), gs[g - 1], r, min_int(gs[g - 1].len() as int, r.len() as int));
        }
    }
}

pub open spec fn opt_vec_view<T>(o: Option<Vec<T>>) -> Option<Seq<T>> {
    match o {
        Some(v) => Some(v@),
        None => None,
    }
}

/// Puts each group's responses back at the global positions of its items;
/// positions whose group failed stay empty.
pub fn scatter_group_results<T>(total: usize, groups: &Vec<Vec<usize>>, outcomes: Vec<Option<Vec<T>>>) -> (r: Vec<Option<T>>)
    requires
        outcomes@.len() == groups@.len(),
        forall|g: int, a: int| 0 <= g < groups@.len() && 0 <= a < groups@[g]@.len() ==> (#[trigger] groups@[g]@[a]) < total,
    ensures
        r@ == scattered(total as nat, groups@.map_values(|v: Vec<usize>| v@), outcomes@.map_values(|o: Option<Vec<T>>| opt_vec_view(o)), groups@.len() as int),
{
    let ghost gs = groups@.map_values(|v: Vec<usize>| v@);
    let ghost os = outcomes@.map_values(|o: Option<Vec<T>>| opt_vec_view(o));
    let mut out: Vec<Option<T>> = Vec::new();
    let mut k: usize = 0;
    while k < total
        invariant
            k <= total,
            out@ == Seq::new(k as nat, |i: int| None::<T>),
        decreases total - k,
    {
        out.push(None);
        k = k + 1;
        assert(out@ =~= Seq::new(k as nat, |i: int| None::<T>));
    }
    let mut rest = outcomes;
    let mut g: usize = 0;
    let ng = groups.len();
    while rest.len() > 0
        invariant
            ng == gs.len(),
            g + rest@.len() == gs.len(),
            gs.len() == os.len(),
            gs == groups@.map_values(|v: Vec<usize>| v@),
            rest@.map_values(|o: Option<Vec<T>>| opt_vec_view(o)) == os.skip(g as int),
            forall|gg: int, a: int| 0 <= gg < gs.len() && 0 <= a < gs[gg].len() ==> (#[trigger] gs[gg][a]) < total,
            out@ == scattered(total as nat, gs, os, g as int),
        decreases rest@.len(),
    {
        let ghost rb = rest@;
        assert(g < gs.len());
        assert(rb.map_values(|o: Option<Vec<T>>| opt_vec_view(o))[0] == os[g as int]);
        let outcome = rest.remove(0);
        assert(rest@ =~= rb.skip(1));
        assert(os[g as int] == opt_vec_view(outcome));
        proof {
            lemma_scattered_len(total as nat, gs, os, g as int);
        }
        match outcome {
            Some(responses) => {
                let idx = &groups[g];
                assert(idx@ == gs[g as int]);
                let mut resp = responses;
                let ghost all_resp = resp@;
                let ghost prev = out@;
                let mut a: usize = 0;
                while a < idx.len() && resp.len() > 0
                    invariant
                        g < gs.len(),
                        a <= idx@.len(),
                        idx@ == gs[g as int],
                        a <= all_resp.len(),
                        resp@ == all_resp.skip(a as int),
                        prev.len() == total,
                        forall|b: int| 0 <= b < idx@.len() ==> (#[trigger] idx@[b]) < total,
                        out@ == put_group(prev, idx@, all_resp, a as int),
                    decreases idx@.len() - a,
                {
                    let x = resp.remove(0);
                    assert(x == all_resp[a as int]) by {
                        assert(all_resp.skip(a as int)[0] == all_resp[a as int]);
                    }
                    let p = idx[a];
                    proof {
                        lemma_put_group_len(prev, idx@, all_resp, a as int);
                    }
                    out.set(p, Some(x));
                    assert(resp@ =~= all_resp.skip(a + 1));
                    a = a + 1;
                }
                assert(a as int == min_int(gs[g as int].len() as int, all_resp.len() as int));
            },
            None => {},
        }
        assert(rb.map_values(|o: Option<Vec<T>>| opt_vec_view(o)).skip(1) =~= os.skip(g + 1));
        assert(rest@.map_values(|o: Option<Vec<T>>| opt_vec_view(o)) =~= rb.map_values(|o: Option<Vec<T>>| opt_vec_view(o)).skip(1));
        g = g + 1;
    }
    out
}

proof fn lemma_put_group_at<T>(acc: Seq<Option<T>>, idx: Seq<usize>, resp: Seq<T>, n: int, q: int)
    requires
        0 <= n <= idx.len(),
        n <= resp.len(),
        forall|b: int| 0 <= b < idx.len() ==> (#[trigger] idx[b]) < acc.len(),
        forall|b: int, c: int| 0 <= b < idx.len() && 0 <= c < idx.len() && b != c ==> #[trigger] idx[b] != #[trigger] idx[c],
        0 <= q < acc.len(),
    ensures
        (forall|b: int| 0 <= b < n ==> #[trigger] idx[b] != q) ==> put_group(acc, idx, resp, n)[q] == acc[q],
        forall|b: int| 0 <= b < n && #[trigger] idx[b] == q ==> put_group(acc, idx, resp, n)[q] == Some(resp[b]),
    decreases n,
{
    if n > 0 {
        lemma_put_group_at(acc, idx, resp, n - 1, q);
        lemma_put_group_len(acc, idx, resp, n - 1);
    }
}

proof fn lemma_scattered_untouched<T>(total: nat, gs: Seq<Seq<usize>>, os: Seq<Option<Seq<T>>>, g: int, q: int)
    requires
        0 <= g <= gs.len(),
        g <= os.len(),
        forall|gg: int, b: int| 0 <= gg < gs.len() && 0 <= b < gs[gg].len() ==> (#[trigger] gs[gg][b]) < total,
        forall|gg: int, b: int, c: int| 0 <= gg < gs.len() && 0 <= b < gs[gg].len() && 0 <= c < gs[gg].len() && b != c
            ==> #[trigger] gs[gg][b] != #[trigger] gs[gg][c],
        0 <= q < total,
        forall|gg: int, b: int| 0 <= gg < g && 0 <= b < gs[gg].len() ==> #[trigger] gs[gg][b] != q,
    ensures
        scattered(total, gs, os, g)[q] is None,
    decreases g,
{
    if g > 0 {
        lemma_scattered_untouched(total, gs, os, g - 1, q);
        lemma_scattered_len(total, gs, os, g - 1);
        if let Some(r) = os[g - 1] {
            let m = min_int(gs[g - 1].len() as int, r.len() as int);
            lemma_put_group_at(scattered(total, gs, os, g - 1), gs[g - 1], r, m, q);
        }
    }
}

/// Put-back is faithful: when positions are never shared, the item at a
/// group's `a`-th position receives that group's `a`-th response (if the
/// group succeeded and answered that far), and nothing otherwise.
pub proof fn lemma_scatter_places_responses<T>(total: nat, gs: Seq<Seq<usize>>, os: Seq<Option<Seq<T>>>, g: int, h: int, a: int)
    requires
        0 <= g <= gs.len(),
        g <= os.len(),
        forall|gg: int, b: int| 0 <= gg < gs.len() && 0 <= b < gs[gg].len() ==> (#[trigger] gs[gg][b]) < total,
        forall|gg: int, b: int, hh: int, c: int|
            0 <= gg < gs.len() && 0 <= b < gs[gg].len() && 0 <= hh < gs.len() && 0 <= c < gs[hh].len()
            && (gg != hh || b != c) ==> #[trigger] gs[gg][b] != #[trigger] gs[hh][c],
        0 <= h < g,
        0 <= a < gs[h].len(),
    ensures
        scattered(total, gs, os, g)[gs[h][a] as int] == (match os[h] {
            Some(r) => if a < r.len() { Some(r[a]) } else { None },
            None => None,
        }),
    decreases g,
{
    let q = gs[h][a] as int;
    lemma_scattered_len(total, gs, os, g - 1);
    assert forall|gg: int, b: int, c: int| 0 <= gg < gs.len() && 0 <= b < gs[gg].len() && 0 <= c < gs[gg].len() && b != c
        implies #[trigger] gs[gg][b] != #[trigger] gs[gg][c] by {}
    if h == g - 1 {
        assert forall|gg: int, b: int| 0 <= gg < g - 1 && 0 <= b < gs[gg].len() implies #[trigger] gs[gg][b] != q by {
            assert(gs[gg][b] != gs[h][a]);
        }
        lemma_scattered_untouched(total, gs, os, g - 1, q);
        if let Some(r) = os[h] {
            let m = min_int(gs[h].len() as int, r.len() as int);
            assert forall|b: int, c: int| 0 <= b < gs[h].len() && 0 <= c < gs[h].len() && b != c
                implies #[trigger] gs[h][b] != #[trigger] gs[h][c] by {}
            lemma_put_group_at(scattered(total, gs, os, g - 1), gs[h], r, m, q);
            if a >= m {
                assert forall|b: int| 0 <= b < m implies #[trigger] gs[h][b] != q by {
                    assert(gs[h][b] != gs[h][a]);
                }
            }
        }
    } else {
        lemma_scatter_places_responses(total, gs, os, g - 1, h, a);
        if let Some(r) = os[g - 1] {
            let m = min_int(gs[g - 1].len() as int, r.len() as int);
            assert forall|b: int, c: int| 0 <= b < gs[g - 1].len() && 0 <= c < gs[g - 1].len() && b != c
                implies #[trigger] gs[g - 1][b] != #[trigger] gs[g - 1][c] by {}
            lemma_put_group_at(scattered(total, gs, os, g - 1), gs[g - 1], r, m, q);
            assert forall|b: int| 0 <= b < m implies #[trigger] gs[g - 1][b] != q by {
                assert(gs[g - 1][b] != gs[h][a]);
            }
        }
    }
}

/// A one-character word written in a CJK script (above U+2E80).
pub open spec fn single_cjk(w: Seq<char>) -> bool {
    w.len() == 1 && (w[0] as u32) > 0x2E80
}

/// How many words of `ws` are single CJK characters.
pub open spec fn count_single_cjk(ws: Seq<String>) -> nat
    decreases ws.len(),
{
    if ws.len() == 0 {
        0
    } else {
        count_single_cjk(ws.drop_last()) + if single_cjk(ws.last()@) { 1nat } else { 0nat }
    }
}

proof fn lemma_count_single_cjk_bound(ws: Seq<String>)
    ensures
        count_single_cjk(ws) <= ws.len(),
    decreases ws.len(),
{
    if ws.len() > 0 {
        lemma_count_single_cjk_bound(ws.drop_last());
    }
}

/// Cantonese input looks tokenized per character when more than 80% of its
/// words are single CJK characters; the batch then warns that word-level
/// analysis needs retokenization.
pub fn looks_per_character(words: &Vec<String>) -> (r: bool)
    ensures
        r == (words@.len() > 0 && (count_single_cjk(words@) * 100) as int / (words@.len() as int) > 80),
{
    let mut count: usize = 0;
    let mut i: usize = 0;
    while i < words.len()
        invariant
            i <= words@.len(),
            count == count_single_cjk(words@.take(i as int)),
            count <= i,
        decreases words@.len() - i,
    {
        assert(words@.take(i + 1).drop_last() =~= words@.take(i as int));
        let w = words[i].as_str();
        if w.unicode_len() == 1 && (w.get_char(0) as u32) > 0x2E80 {
            count = count + 1;
        }
        i = i + 1;
    }
    assert(words@.take(words@.len() as int) =~= words@);
    let total = words.len();
    if total == 0 {
        return false;
    }
    proof {
        lemma_count_single_cjk_bound(words@);
    }
    let scaled: u128 = count as u128 * 100;
    scaled / (total as u128) > 80
}

/// The items of `s` whose cache lookup found nothing, in order.
pub open spec fn missed<T, V>(s: Seq<T>, cached: Seq<Option<V>>, n: int) -> Seq<T>
    decreases n,
{
    if n <= 0 {
        Seq::empty()
    } else {
        let prev = missed(s, cached, n - 1);
        if cached[n - 1] is None { prev.push(s[n - 1]) } else { prev }
    }
}

/// The cache hits, keyed by their line index, in item order.
pub open spec fn hits_by_line<V>(line_indices: Seq<usize>, cached: Seq<Option<V>>, n: int) -> Seq<(usize, V)>
    decreases n,
{
    if n <= 0 {
        Seq::empty()
    } else {
        let prev = hits_by_line(line_indices, cached, n - 1);
        match cached[n - 1] {
            Some(v) => prev.push((line_indices[n - 1], v)),
            None => prev,
        }
    }
}

/// The batch items of one file split by what the cache returned for them.
pub struct CachePartition<K, T, V> {
    /// Cached results, with the line index of the item they belong to.
    pub hits: Vec<(usize, V)>,
    /// The cache keys of the missed items.
    pub miss_keys: Vec<K>,
    /// The missed items, still to be inferred.
    pub misses: Vec<T>,
}

/// Split a file's batch items into cache hits and misses: `cached[i]` is
/// the entry the cache returned under `keys[i]`, if any.
pub fn partition_by_cache<K, T, V>(line_indices: Vec<usize>, keys: Vec<K>, items: Vec<T>, cached: Vec<Option<V>>) -> (r: CachePartition<K, T, V>)
    requires
        line_indices@.len() == items@.len(),
        keys@.len() == items@.len(),
        cached@.len() == items@.len(),
    ensures
        r.hits@ == hits_by_line(line_indices@, cached@, items@.len() as int),
        r.miss_keys@ == missed(keys@, cached@, items@.len() as int),
        r.misses@ == missed(items@, cached@, items@.len() as int),
        r.hits@.len() + r.misses@.len() == items@.len(),
{
    let ghost l0 = line_indices@;
    let ghost k0 = keys@;
    let ghost i0 = items@;
    let ghost c0 = cached@;
    let n = items.len();
    let mut keys = keys;
    let mut items = items;
    let mut cached = cached;
    let mut hits: Vec<(usize, V)> = Vec::new();
    let mut miss_keys: Vec<K> = Vec::new();
    let mut misses: Vec<T> = Vec::new();
    let mut i: usize = 0;
    assert(k0.skip(0) =~= k0);
    assert(i0.skip(0) =~= i0);
    assert(c0.skip(0) =~= c0);
    while i < n
        invariant
            n == i0.len(),
            l0.len() == n,
            k0.len() == n,
            c0.len() == n,
            l0 == line_indices@,
            i <= n,
            keys@ == k0.skip(i as int),
            items@ == i0.skip(i as int),
            cached@ == c0.skip(i as int),
            hits@ == hits_by_line(l0, c0, i as int),
            miss_keys@ == missed(k0, c0, i as int),
            misses@ == missed(i0, c0, i as int),
            hits@.len() + misses@.len() == i,
        decreases n - i,
    {
        let k = keys.remove(0);
        let t = items.remove(0);
        let c = cached.remove(0);
        assert(k0.skip(i as int).skip(1) =~= k0.skip(i + 1));
        assert(i0.skip(i as int).skip(1) =~= i0.skip(i + 1));
        assert(c0.skip(i as int).skip(1) =~= c0.skip(i + 1));
        assert(k == k0[i as int] && t == i0[i as int] && c == c0[i as int]);
        match c {
            Some(v) => {
                hits.push((line_indices[i], v));
            },
            None => {
                miss_keys.push(k);
                misses.push(t);
            },
        }
        i = i + 1;
    }
    CachePartition { hits, miss_keys, misses }
}

/// The error of a file whose main tiers do not validate before morphosyntax.
pub fn morphotag_pre_validation_error(msgs: &Vec<String>) -> (r: String)
    ensures
        r@ == "morphotag pre-validation failed: "@ + joined_messages(msgs@),
{
    let m = pre_validation_message("morphotag", msgs);
    proof {
        reveal_strlit("morphotag");
        reveal_strlit(" pre-validation failed: ");
        reveal_strlit("morphotag pre-validation failed: ");
    }
    assert(m@ =~= "morphotag pre-validation failed: "@ + joined_messages(msgs@));
    m
}

/// The error of a language group that did not answer in time.
pub fn language_group_timeout_error(lang: &str, timeout_s: u64) -> (r: ServerError)
    ensures
        r matches ServerError::Validation(m) && m@ == "language group "@ + lang@ + " timed out after "@ + decimal(timeout_s as nat) + "s"@,
{
    let mut m = String::from_str("language group ");
    m.append(lang);
    m.append(" timed out after ");
    append_decimal(&mut m, timeout_s);
    m.append("s");
    ServerError::Validation(m)
}

/// The error of a file whose inferred results could not be injected.
pub fn injection_failure_error(cause: &str) -> (r: String)
    ensures
        r@ == "Result injection failed: "@ + cause@,
{
    let mut m = String::from_str("Result injection failed: ");
    m.append(cause);
    m
}

} // verus!
