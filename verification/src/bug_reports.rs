//! Bug reports on disk: which directory entries are reports, the newest
//! ones first (keeping directory order among equally recent ones), where a
//! report lives, and the errors of reading one.

use vstd::prelude::*;
use vstd::string::*;
use crate::error::ServerError;
use crate::paths::{path_extension, path_join, std_extension, std_join};
use crate::text::str_equal;

verus! {

/// A report is a `.json` file.
pub open spec fn spec_is_report_file(path: Seq<char>) -> bool {
    path_extension(path) == Some("json"@)
}

pub fn is_report_file(path: &str) -> (r: bool)
    ensures
        r == spec_is_report_file(path@),
{
    proof {
        reveal_strlit("json");
    }
    match std_extension(path) {
        Some(ext) => str_equal(ext.as_str(), "json"),
        None => false,
    }
}

/// `order` lists the positions `0..keys.len()` once each, newest (largest
/// key) first, and equal keys in the order they were given.
pub open spec fn newest_first(keys: Seq<i64>, order: Seq<usize>) -> bool {
    &&& order.len() == keys.len()
    &&& forall|i: int| 0 <= i < order.len() ==> (#[trigger] order[i]) < keys.len()
    &&& forall|x: usize| x < keys.len() ==> #[trigger] order.contains(x)
    &&& forall|i: int, j: int| 0 <= i < j < order.len() ==> order[i] != order[j]
    &&& forall|i: int, j: int| 0 <= i < j < order.len() ==> keys[order[i] as int] >= keys[order[j] as int]
    &&& forall|i: int, j: int| 0 <= i < j < order.len() && keys[order[i] as int] == keys[order[j] as int]
        ==> order[i] < order[j]
}

/// Equal prefixes of two newest-first orders extend by one position.
proof fn lemma_newest_first_prefix(keys: Seq<i64>, o1: Seq<usize>, o2: Seq<usize>, n: int)
    requires
        newest_first(keys, o1),
        newest_first(keys, o2),
        0 <= n <= o1.len(),
    ensures
        forall|t: int| 0 <= t < n ==> o1[t] == o2[t],
    decreases n,
{
    if n > 0 {
        lemma_newest_first_prefix(keys, o1, o2, n - 1);
        let i = n - 1;
        let a = o1[i];
        let b = o2[i];
        if a != b {
            assert(o1.contains(b));
            let p = choose|p: int| 0 <= p < o1.len() && o1[p] == b;
            assert(o2.contains(a));
            let q = choose|q: int| 0 <= q < o2.len() && o2[q] == a;
            if p < i {
                assert(o1[p] == o2[p]);
                assert(o2[p] != o2[i]);
            }
            if q < i {
                assert(o2[q] == o1[q]);
                assert(o1[q] != o1[i]);
            }
            assert(p > i && q > i);
            assert(keys[a as int] >= keys[b as int]);
            assert(keys[b as int] >= keys[a as int]);
            assert(a < b);
            assert(b < a);
        }
    }
}

/// The newest-first order is unique: the listing depends on the entries
/// alone.
pub proof fn lemma_newest_first_unique(keys: Seq<i64>, o1: Seq<usize>, o2: Seq<usize>)
    requires
        newest_first(keys, o1),
        newest_first(keys, o2),
    ensures
        o1 == o2,
{
    lemma_newest_first_prefix(keys, o1, o2, o1.len() as int);
    assert(o1 =~= o2);
}

/// The positions of `keys`, newest first and stable among equal keys.
pub fn newest_first_order(keys: &Vec<i64>) -> (r: Vec<usize>)
    ensures
        newest_first(keys@, r@),
{
    let n = keys.len();
    let mut order: Vec<usize> = Vec::new();
    let mut k: usize = 0;
    while k < n
        invariant
            n == keys@.len(),
            k <= n,
            order@.len() == k,
            forall|i: int| 0 <= i < order@.len() ==> (#[trigger] order@[i]) < k,
            forall|x: usize| x < k ==> #[trigger] order@.contains(x),
            forall|i: int, j: int| 0 <= i < j < order@.len() ==> order@[i] != order@[j],
            forall|i: int, j: int| 0 <= i < j < order@.len() ==> keys@[order@[i] as int] >= keys@[order@[j] as int],
            forall|i: int, j: int| 0 <= i < j < order@.len() && keys@[order@[i] as int] == keys@[order@[j] as int]
                ==> order@[i] < order@[j],
        decreases n - k,
    {
        let key = keys[k];
        let mut p: usize = 0;
        while p < order.len() && keys[order[p]] >= key
            invariant
                p <= order@.len(),
                forall|i: int| 0 <= i < order@.len() ==> (#[trigger] order@[i]) < keys@.len(),
                forall|i: int| 0 <= i < p ==> keys@[order@[i] as int] >= key,
            decreases order@.len() - p,
        {
            p = p + 1;
        }
        let ghost old_order = order@;
        assert(forall|i: int| p <= i < old_order.len() ==> keys@[old_order[i] as int] < key) by {
            assert forall|i: int| p <= i < old_order.len() implies keys@[old_order[i] as int] < key by {
                assert(keys@[old_order[p as int] as int] < key);
                if i > p {
                    assert(keys@[old_order[p as int] as int] >= keys@[old_order[i] as int]);
                }
            }
        }
        order.insert(p, k);
        assert(order@ == old_order.insert(p as int, k));
        assert forall|i: int| 0 <= i < order@.len() implies (#[trigger] order@[i]) < k + 1 by {
            if i < p { assert(order@[i] == old_order[i]); }
            else if i > p { assert(order@[i] == old_order[i - 1]); }
        }
        assert forall|x: usize| x < k + 1 implies #[trigger] order@.contains(x) by {
            if x == k {
                assert(order@[p as int] == k);
            } else {
                assert(old_order.contains(x));
                let w = choose|w: int| 0 <= w < old_order.len() && old_order[w] == x;
                if w < p {
                    assert(order@[w] == x);
                } else {
                    assert(order@[w + 1] == x);
                }
            }
        }
        assert forall|i: int, j: int| 0 <= i < j < order@.len() implies order@[i] != order@[j] by {
            if i < p && j < p { assert(order@[i] == old_order[i] && order@[j] == old_order[j]); }
            else if i < p && j == p { assert(order@[i] == old_order[i]); }
            else if i < p && j > p { assert(order@[i] == old_order[i] && order@[j] == old_order[j - 1]); }
            else if i == p { assert(order@[j] == old_order[j - 1]); }
            else { assert(order@[i] == old_order[i - 1] && order@[j] == old_order[j - 1]); }
        }
        assert forall|i: int, j: int| 0 <= i < j < order@.len() implies keys@[order@[i] as int] >= keys@[order@[j] as int] by {
            if i < p && j < p { assert(order@[i] == old_order[i] && order@[j] == old_order[j]); }
            else if i < p && j == p { assert(order@[i] == old_order[i]); }
            else if i < p && j > p { assert(order@[i] == old_order[i] && order@[j] == old_order[j - 1]); }
            else if i == p { assert(order@[j] == old_order[j - 1]); }
            else { assert(order@[i] == old_order[i - 1] && order@[j] == old_order[j - 1]); }
        }
        assert forall|i: int, j: int| 0 <= i < j < order@.len() && keys@[order@[i] as int] == keys@[order@[j] as int]
            implies order@[i] < order@[j] by {
            if i < p && j < p { assert(order@[i] == old_order[i] && order@[j] == old_order[j]); }
            else if i < p && j == p { assert(order@[i] == old_order[i]); }
            else if i < p && j > p { assert(order@[i] == old_order[i] && order@[j] == old_order[j - 1]); }
            else if i == p { assert(order@[j] == old_order[j - 1]); }
            else { assert(order@[i] == old_order[i - 1] && order@[j] == old_order[j - 1]); }
        }
        k = k + 1;
    }
    order
}

/// The report entries among the first `n` directory entries, in order.
pub open spec fn reports_of(entries: Seq<(i64, String)>, n: int) -> Seq<(i64, String)>
    decreases n,
{
    if n <= 0 {
        Seq::empty()
    } else {
        let prev = reports_of(entries, n - 1);
        if spec_is_report_file(entries[n - 1].1@) { prev.push(entries[n - 1]) } else { prev }
    }
}

/// The modification times of a list of entries.
pub open spec fn times_of(entries: Seq<(i64, String)>) -> Seq<i64> {
    Seq::new(entries.len(), |i: int| entries[i].0)
}

/// `listed` is what the listing shows for `entries` under `limit` when
/// `order` is the newest-first order of the report entries.
pub open spec fn listed_newest_first(entries: Seq<(i64, String)>, limit: usize, order: Seq<usize>, listed: Seq<String>) -> bool {
    let reports = reports_of(entries, entries.len() as int);
    &&& newest_first(times_of(reports), order)
    &&& listed.len() == if limit < order.len() { limit as int } else { order.len() as int }
    &&& forall|i: int| 0 <= i < listed.len() ==> listed[i]@ == reports[order[i] as int].1@
}

/// The reports to list from directory entries `(modified_ms, path)`: the
/// `.json` files, newest first (directory order among equal times), at most
/// `limit` of them.
pub fn newest_reports(entries: &Vec<(i64, String)>, limit: usize) -> (r: Vec<String>)
    ensures
        exists|order: Seq<usize>| #[trigger] listed_newest_first(entries@, limit, order, r@),
{
    let mut reports: Vec<(i64, String)> = Vec::new();
    let mut i: usize = 0;
    while i < entries.len()
        invariant
            i <= entries@.len(),
            reports@ == reports_of(entries@, i as int),
        decreases entries@.len() - i,
    {
        if is_report_file(entries[i].1.as_str()) {
            reports.push((entries[i].0, entries[i].1.clone()));
        }
        i = i + 1;
    }
    let mut keys: Vec<i64> = Vec::new();
    let mut j: usize = 0;
    while j < reports.len()
        invariant
            j <= reports@.len(),
            keys@ == times_of(reports@).take(j as int),
        decreases reports@.len() - j,
    {
        keys.push(reports[j].0);
        assert(keys@ =~= times_of(reports@).take(j + 1));
        j = j + 1;
    }
    assert(keys@ =~= times_of(reports@));
    let order = newest_first_order(&keys);
    let count = if limit < order.len() { limit } else { order.len() };
    let mut out: Vec<String> = Vec::new();
    let mut m: usize = 0;
    while m < count
        invariant
            count <= order@.len(),
            order@.len() == reports@.len(),
            newest_first(keys@, order@),
            m <= count,
            out@.len() == m,
            forall|t: int| 0 <= t < m ==> out@[t]@ == reports@[order@[t] as int].1@,
        decreases count - m,
    {
        let idx = order[m];
        out.push(reports[idx].1.clone());
        m = m + 1;
    }
    assert(listed_newest_first(entries@, limit, order@, out@));
    out
}

/// Where the report with this id lives: `{id}.json` in the reports directory.
pub fn bug_report_path(dir: &str, id: &str) -> (r: String)
    ensures
        r@ == path_join(dir@, id@ + ".json"@),
{
    let mut name = String::from_str(id);
    name.append(".json");
    std_join(dir, name.as_str())
}

/// The error of a report that cannot be read.
pub fn bug_report_not_found(id: &str) -> (r: ServerError)
    ensures
        r matches ServerError::FileNotFound(m) && m@ == "Bug report "@ + id@ + " not found"@,
{
    let mut m = String::from_str("Bug report ");
    m.append(id);
    m.append(" not found");
    ServerError::FileNotFound(m)
}

/// The error of a report that is not valid JSON.
pub fn invalid_bug_report(parse_error: &str) -> (r: ServerError)
    ensures
        r matches ServerError::Validation(m) && m@ == "Invalid bug report JSON: "@ + parse_error@,
{
    let mut m = String::from_str("Invalid bug report JSON: ");
    m.append(parse_error);
    ServerError::Validation(m)
}

} // verus!
