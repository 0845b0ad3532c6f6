//! Association lists keyed by strings. The model keeps every mapping as an
//! ordered list of `(key, value)` entries, so insertion order is part of the
//! specification; `table_put` overwrites the first entry with the same key
//! (last write wins) and appends otherwise.

use vstd::prelude::*;
use crate::strutil::str_eq;

verus! {

/// Index of the first entry at position `i` or later whose key is `k`,
/// or -1 when there is none.
pub open spec fn table_idx_from<V>(m: Seq<(Seq<char>, V)>, k: Seq<char>, i: int) -> int
    decreases m.len() - i,
{
    if i < 0 || i >= m.len() {
        -1
    } else if m[i].0 == k {
        i
    } else {
        table_idx_from(m, k, i + 1)
    }
}

/// Index of the first entry whose key is `k`, or -1 when there is none.
pub open spec fn table_idx<V>(m: Seq<(Seq<char>, V)>, k: Seq<char>) -> int {
    table_idx_from(m, k, 0)
}

/// The value recorded under `k`, if any.
pub open spec fn table_lookup<V>(m: Seq<(Seq<char>, V)>, k: Seq<char>) -> Option<V> {
    let i = table_idx(m, k);
    if i < 0 {
        None
    } else {
        Some(m[i].1)
    }
}

/// The list after writing `v` under `k`: the first entry with key `k` is
/// replaced, or a new entry is appended when the key is absent.
pub open spec fn table_set<V>(m: Seq<(Seq<char>, V)>, k: Seq<char>, v: V) -> Seq<(Seq<char>, V)> {
    let i = table_idx(m, k);
    if i < 0 {
        m.push((k, v))
    } else {
        m.update(i, (k, v))
    }
}

/// What `table_idx_from` finds: a position in range holding `k`, with no
/// earlier occurrence of `k` at or after `i`; or -1 when `k` never occurs
/// from `i` on.
pub proof fn lemma_table_idx_from<V>(m: Seq<(Seq<char>, V)>, k: Seq<char>, i: int)
    requires
        0 <= i <= m.len(),
    ensures
        ({
            let r = table_idx_from(m, k, i);
            &&& r == -1 || (i <= r < m.len())
            &&& r >= 0 ==> m[r].0 == k
            &&& r >= 0 ==> forall|j: int| i <= j < r ==> m[j].0 != k
            &&& r == -1 ==> forall|j: int| i <= j < m.len() ==> m[j].0 != k
        }),
    decreases m.len() - i,
{
    if i < m.len() && m[i].0 != k {
        lemma_table_idx_from(m, k, i + 1);
    }
}

/// `table_idx` in terms of the entries themselves.
pub proof fn lemma_table_idx<V>(m: Seq<(Seq<char>, V)>, k: Seq<char>)
    ensures
        ({
            let r = table_idx(m, k);
            &&& r == -1 || (0 <= r < m.len())
            &&& r >= 0 ==> m[r].0 == k
            &&& r >= 0 ==> forall|j: int| 0 <= j < r ==> m[j].0 != k
            &&& r == -1 ==> forall|j: int| 0 <= j < m.len() ==> m[j].0 != k
        }),
{
    lemma_table_idx_from(m, k, 0);
}

/// The list after recording one more value `v` for header name `k`: the
/// value is appended to the first entry with that key, or a new entry holding
/// just `v` is appended when the key is absent. A key is therefore present
/// exactly when at least one value was recorded for it.
pub open spec fn table_append(
    h: Seq<(Seq<char>, Seq<Seq<char>>)>,
    k: Seq<char>,
    v: Seq<char>,
) -> Seq<(Seq<char>, Seq<Seq<char>>)> {
    let i = table_idx(h, k);
    if i < 0 {
        h.push((k, seq![v]))
    } else {
        h.update(i, (k, h[i].1.push(v)))
    }
}

/// Appending an entry does not disturb an earlier find: the first occurrence
/// of `k2` in `m.push(e)` is the one in `m`, or the new entry when `m` has
/// none and `e` carries `k2`.
pub proof fn lemma_table_idx_from_push<V>(m: Seq<(Seq<char>, V)>, e: (Seq<char>, V), k2: Seq<char>, i: int)
    requires
        0 <= i <= m.len(),
    ensures
        table_idx_from(m.push(e), k2, i) == if table_idx_from(m, k2, i) >= 0 {
            table_idx_from(m, k2, i)
        } else if e.0 == k2 {
            m.len() as int
        } else {
            -1
        },
    decreases m.len() - i,
{
    if i < m.len() {
        if m.push(e)[i].0 == k2 {
        } else {
            lemma_table_idx_from_push(m, e, k2, i + 1);
        }
    } else {
        assert(table_idx_from(m, k2, i) == -1);
        assert(m.push(e)[i] == e);
        assert(table_idx_from(m.push(e), k2, i + 1) == -1);
    }
}

/// Updating position `j` without changing its key leaves every find where it
/// was.
pub proof fn lemma_table_idx_from_update<V>(
    m: Seq<(Seq<char>, V)>,
    j: int,
    e: (Seq<char>, V),
    k2: Seq<char>,
    i: int,
)
    requires
        0 <= i <= m.len(),
        0 <= j < m.len(),
        e.0 == m[j].0,
    ensures
        table_idx_from(m.update(j, e), k2, i) == table_idx_from(m, k2, i),
    decreases m.len() - i,
{
    if i < m.len() {
        if m.update(j, e)[i].0 == k2 {
        } else {
            lemma_table_idx_from_update(m, j, e, k2, i + 1);
        }
    }
}

/// What a lookup sees after one more header value is recorded: under the
/// written key the old values with `v` appended (or just `v` for a new key),
/// under every other key exactly what it saw before.
pub proof fn lemma_table_append_lookup(
    h: Seq<(Seq<char>, Seq<Seq<char>>)>,
    k: Seq<char>,
    v: Seq<char>,
    k2: Seq<char>,
)
    ensures
        table_lookup(table_append(h, k, v), k2) == if k2 == k {
            match table_lookup(h, k) {
                Some(s) => Some(s.push(v)),
                None => Some(seq![v]),
            }
        } else {
            table_lookup(h, k2)
        },
{
    let i = table_idx(h, k);
    lemma_table_idx(h, k);
    lemma_table_idx(h, k2);
    if i < 0 {
        lemma_table_idx_from_push(h, (k, seq![v]), k2, 0);
        lemma_table_idx(h.push((k, seq![v])), k2);
    } else {
        lemma_table_idx_from_update(h, i, (k, h[i].1.push(v)), k2, 0);
        lemma_table_idx(h.update(i, (k, h[i].1.push(v))), k2);
    }
}

/// The value recorded under `k` in a list of plain string pairs.
pub fn table_get<'a>(m: &'a Vec<(String, String)>, k: &str) -> (r: Option<&'a String>)
    ensures
        match r {
            Some(v) => table_lookup(m.deep_view(), k@) == Some(v@),
            None => table_lookup(m.deep_view(), k@) is None,
        },
{
    let ghost dv = m.deep_view();
    let mut i: usize = 0;
    while i < m.len()
        invariant
            dv == m.deep_view(),
            dv.len() == m.len(),
            i <= m.len(),
            forall|j: int| 0 <= j < m.len() ==> dv[j] == (m@[j].0@, m@[j].1@),
            table_idx_from(dv, k@, 0) == table_idx_from(dv, k@, i as int),
        decreases m.len() - i,
    {
        if str_eq(m[i].0.as_str(), k) {
            proof {
                assert(table_idx_from(dv, k@, i as int) == i);
            }
            return Some(&m[i].1);
        }
        i += 1;
    }
    None
}

/// Writes `v` under `k`: overwrites the first entry with key `k`, appends a
/// new entry when the key is absent.
#[verifier::loop_isolation(false)]
pub fn table_put(m: &mut Vec<(String, String)>, k: String, v: String)
    ensures
        final(m).deep_view() == table_set(old(m).deep_view(), k@, v@),
{
    let ghost dv = m.deep_view();
    let ghost gk = k@;
    let ghost gv = v@;
    let mut i: usize = 0;
    while i < m.len()
        invariant
            dv == m.deep_view(),
            gk == k@,
            gv == v@,
            dv.len() == m.len(),
            i <= m.len(),
            forall|j: int| 0 <= j < m.len() ==> dv[j] == (m@[j].0@, m@[j].1@),
            table_idx_from(dv, gk, 0) == table_idx_from(dv, gk, i as int),
        decreases m.len() - i,
    {
        if str_eq(m[i].0.as_str(), k.as_str()) {
            proof {
                assert(table_idx_from(dv, gk, i as int) == i);
                assert(table_idx(dv, gk) == i);
            }
            m[i] = (k, v);
            proof {
                assert(m@[i as int].0@ == gk);
                assert(m@[i as int].1@ == gv);
                assert forall|j: int| 0 <= j < m.len() implies m.deep_view()[j] == table_set(
                    dv,
                    gk,
                    gv,
                )[j] by {
                    assert(m.deep_view()[j] == (m@[j].0@, m@[j].1@));
                }
                assert(m.deep_view() =~= table_set(dv, gk, gv));
            }
            return ;
        }
        i += 1;
    }
    m.push((k, v));
    proof {
        assert(m.deep_view() =~= table_set(dv, gk, gv));
    }
}

/// Records one more value for header name `k`, creating the entry with that
/// first value when the name is new.
#[verifier::loop_isolation(false)]
pub fn headers_put(h: &mut Vec<(String, Vec<String>)>, k: String, v: String)
    ensures
        final(h).deep_view() == table_append(old(h).deep_view(), k@, v@),
{
    let ghost dv = h.deep_view();
    let ghost gk = k@;
    let ghost gv = v@;
    let mut i: usize = 0;
    while i < h.len()
        invariant
            dv == h.deep_view(),
            gk == k@,
            gv == v@,
            dv.len() == h.len(),
            i <= h.len(),
            forall|j: int| 0 <= j < h.len() ==> dv[j] == (h@[j].0@, h@[j].1.deep_view()),
            table_idx_from(dv, gk, 0) == table_idx_from(dv, gk, i as int),
        decreases h.len() - i,
    {
        if str_eq(h[i].0.as_str(), k.as_str()) {
            proof {
                assert(table_idx_from(dv, gk, i as int) == i);
                assert(table_idx(dv, gk) == i);
            }
            h[i].1.push(v);
            proof {
                assert(h@[i as int].1.deep_view() =~= dv[i as int].1.push(gv));
                assert forall|j: int| 0 <= j < h.len() implies h.deep_view()[j] == table_append(
                    dv,
                    gk,
                    gv,
                )[j] by {
                    assert(h.deep_view()[j] == (h@[j].0@, h@[j].1.deep_view()));
                }
                assert(h.deep_view() =~= table_append(dv, gk, gv));
            }
            return ;
        }
        i += 1;
    }
    let mut first: Vec<String> = Vec::new();
    first.push(v);
    h.push((k, first));
    proof {
        assert(first.deep_view() =~= seq![gv]);
        assert(h.deep_view() =~= table_append(dv, gk, gv));
    }
}

} // verus!
