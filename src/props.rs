//! Property mappings: key to JSON value text, with unique keys.

use vstd::prelude::*;

verus! {

/// A property entry viewed as (key, JSON value text).
pub type Entry = (Seq<char>, Seq<char>);

/// The abstract form of a list of `(String, String)` entries.
pub open spec fn entries_view(v: Seq<(String, String)>) -> Seq<Entry> {
    v.map_values(|p: (String, String)| (p.0@, p.1@))
}

/// The value bound to `k`: the first entry whose key is `k`.
pub open spec fn lookup(s: Seq<Entry>, k: Seq<char>) -> Option<Seq<char>>
    decreases s.len(),
{
    if s.len() == 0 {
        None
    } else if s[0].0 == k {
        Some(s[0].1)
    } else {
        lookup(s.drop_first(), k)
    }
}

/// No key occurs twice.
pub open spec fn keys_unique(s: Seq<Entry>) -> bool {
    forall|i: int, j: int| 0 <= i < j < s.len() ==> s[i].0 != s[j].0
}

pub proof fn lemma_lookup_some_index(s: Seq<Entry>, k: Seq<char>)
    ensures
        lookup(s, k) is Some <==> exists|i: int| 0 <= i < s.len() && s[i].0 == k,
        lookup(s, k) is None ==> forall|i: int| 0 <= i < s.len() ==> s[i].0 != k,
    decreases s.len(),
{
    if s.len() > 0 {
        lemma_lookup_some_index(s.drop_first(), k);
        if s[0].0 != k {
            if exists|i: int| 0 <= i < s.len() && s[i].0 == k {
                let i = choose|i: int| 0 <= i < s.len() && s[i].0 == k;
                assert(s.drop_first()[i - 1].0 == k);
            }
            assert forall|i: int| 0 < i < s.len() && lookup(s.drop_first(), k) is None implies s[i].0
                != k by {
                assert(s[i] == s.drop_first()[i - 1]);
            }
        }
    }
}

pub proof fn lemma_lookup_push(s: Seq<Entry>, e: Entry, k: Seq<char>)
    ensures
        lookup(s.push(e), k) == (if lookup(s, k) is Some {
            lookup(s, k)
        } else if e.0 == k {
            Some(e.1)
        } else {
            None
        }),
    decreases s.len(),
{
    if s.len() == 0 {
        assert(s.push(e).drop_first() =~= s);
    } else {
        assert(s.push(e).drop_first() =~= s.drop_first().push(e));
        lemma_lookup_push(s.drop_first(), e, k);
    }
}

pub proof fn lemma_lookup_update(s: Seq<Entry>, i: int, v: Seq<char>, k: Seq<char>)
    requires
        0 <= i < s.len(),
        forall|j: int| 0 <= j < i ==> s[j].0 != s[i].0,
    ensures
        lookup(s.update(i, (s[i].0, v)), k) == (if k == s[i].0 {
            Some(v)
        } else {
            lookup(s, k)
        }),
    decreases s.len(),
{
    if i > 0 {
        assert(s.update(i, (s[i].0, v)).drop_first() =~= s.drop_first().update(
            i - 1,
            (s[i].0, v),
        ));
        assert(s.drop_first()[i - 1] == s[i]);
        lemma_lookup_update(s.drop_first(), i - 1, v, k);
    } else {
        assert(s.update(0, (s[0].0, v)).drop_first() =~= s.drop_first());
    }
}

/// Position of key `k` in `v`, if any.
pub fn find_key(v: &Vec<(String, String)>, k: &String) -> (r: Option<usize>)
    ensures
        match r {
            Some(i) => i < v@.len() && entries_view(v@)[i as int].0 == k@
                && forall|j: int| 0 <= j < i ==> entries_view(v@)[j].0 != k@,
            None => lookup(entries_view(v@), k@) is None,
        },
{
    let ghost s = entries_view(v@);
    let mut i: usize = 0;
    while i < v.len()
        invariant
            s == entries_view(v@),
            i <= v@.len(),
            forall|j: int| 0 <= j < i ==> s[j].0 != k@,
        decreases v@.len() - i,
    {
        if v[i].0 == *k {
            return Some(i);
        }
        i = i + 1;
    }
    proof {
        lemma_lookup_some_index(s, k@);
    }
    None
}

/// The value text bound to `k` in `v`, if any.
pub fn get(v: &Vec<(String, String)>, k: &String) -> (r: Option<String>)
    ensures
        match r {
            Some(t) => lookup(entries_view(v@), k@) == Some(t@),
            None => lookup(entries_view(v@), k@) is None,
        },
{
    match find_key(v, k) {
        Some(i) => {
            proof {
                lemma_lookup_first(entries_view(v@), i as int);
            }
            Some(v[i].1.clone())
        },
        None => None,
    }
}

pub proof fn lemma_lookup_first(s: Seq<Entry>, i: int)
    requires
        0 <= i < s.len(),
        forall|j: int| 0 <= j < i ==> s[j].0 != s[i].0,
    ensures
        lookup(s, s[i].0) == Some(s[i].1),
    decreases s.len(),
{
    if i > 0 {
        assert(s.drop_first()[i - 1] == s[i]);
        lemma_lookup_first(s.drop_first(), i - 1);
    }
}

/// `s` with `k` bound to `v`: the first entry of `k` replaced, else a new
/// entry at the end.
pub open spec fn put_seq(s: Seq<Entry>, k: Seq<char>, v: Seq<char>) -> Seq<Entry>
    decreases s.len(),
{
    if s.len() == 0 {
        seq![(k, v)]
    } else if s[0].0 == k {
        s.update(0, (k, v))
    } else {
        seq![s[0]] + put_seq(s.drop_first(), k, v)
    }
}

/// `s` with `k` bound to `v` where `k` has no entry yet.
pub open spec fn fill_seq(s: Seq<Entry>, k: Seq<char>, v: Seq<char>) -> Seq<Entry> {
    if lookup(s, k) is Some {
        s
    } else {
        s.push((k, v))
    }
}

pub proof fn lemma_put_seq_at(s: Seq<Entry>, i: int, k: Seq<char>, v: Seq<char>)
    requires
        0 <= i < s.len(),
        s[i].0 == k,
        forall|j: int| 0 <= j < i ==> s[j].0 != k,
    ensures
        put_seq(s, k, v) == s.update(i, (k, v)),
    decreases s.len(),
{
    if i > 0 {
        assert(s.drop_first()[i - 1] == s[i]);
        lemma_put_seq_at(s.drop_first(), i - 1, k, v);
        assert(seq![s[0]] + s.drop_first().update(i - 1, (k, v)) =~= s.update(i, (k, v)));
    }
}

pub proof fn lemma_put_seq_absent(s: Seq<Entry>, k: Seq<char>, v: Seq<char>)
    requires
        forall|j: int| 0 <= j < s.len() ==> s[j].0 != k,
    ensures
        put_seq(s, k, v) == s.push((k, v)),
    decreases s.len(),
{
    if s.len() > 0 {
        lemma_put_seq_absent(s.drop_first(), k, v);
        assert(seq![s[0]] + s.drop_first().push((k, v)) =~= s.push((k, v)));
    } else {
        assert(seq![(k, v)] =~= s.push((k, v)));
    }
}

/// Binds `k` to `val`, replacing any value it had.
pub fn set_entry(v: &mut Vec<(String, String)>, k: String, val: String)
    ensures
        forall|x: Seq<char>|
            #![trigger lookup(entries_view(final(v)@), x)]
            lookup(entries_view(final(v)@), x) == (if x == k@ {
                Some(val@)
            } else {
                lookup(entries_view(old(v)@), x)
            }),
        keys_unique(entries_view(old(v)@)) ==> keys_unique(entries_view(final(v)@)),
        entries_view(final(v)@) == put_seq(entries_view(old(v)@), k@, val@),
{
    let ghost s = entries_view(v@);
    match find_key(v, &k) {
        Some(i) => {
            proof {
                lemma_put_seq_at(s, i as int, k@, val@);
            }
            let ghost kv = k@;
            let ghost vv = val@;
            v.set(i, (k, val));
            proof {
                assert(entries_view(v@) =~= s.update(i as int, (kv, vv)));
                assert forall|x: Seq<char>| #[trigger]
                    lookup(entries_view(v@), x) == (if x == kv {
                        Some(vv)
                    } else {
                        lookup(s, x)
                    }) by {
                    lemma_lookup_update(s, i as int, vv, x);
                }
            }
        },
        None => {
            let ghost kv = k@;
            let ghost vv = val@;
            v.push((k, val));
            proof {
                assert(entries_view(v@) =~= s.push((kv, vv)));
                lemma_lookup_some_index(s, kv);
                lemma_put_seq_absent(s, kv, vv);
                assert forall|x: Seq<char>| #[trigger]
                    lookup(entries_view(v@), x) == (if x == kv {
                        Some(vv)
                    } else {
                        lookup(s, x)
                    }) by {
                    lemma_lookup_push(s, (kv, vv), x);
                }
            }
        },
    }
}

/// Binds `k` to `val` only where `k` has no value yet.
pub fn fill_default(v: &mut Vec<(String, String)>, k: String, val: String)
    ensures
        forall|x: Seq<char>|
            #![trigger lookup(entries_view(final(v)@), x)]
            lookup(entries_view(final(v)@), x) == (if x == k@ && lookup(
                entries_view(old(v)@),
                x,
            ) is None {
                Some(val@)
            } else {
                lookup(entries_view(old(v)@), x)
            }),
        keys_unique(entries_view(old(v)@)) ==> keys_unique(entries_view(final(v)@)),
        entries_view(final(v)@) == fill_seq(entries_view(old(v)@), k@, val@),
{
    let ghost s = entries_view(v@);
    match find_key(v, &k) {
        Some(i) => {
            proof {
                lemma_lookup_some_index(s, k@);
            }
        },
        None => {
            let ghost kv = k@;
            let ghost vv = val@;
            v.push((k, val));
            proof {
                assert(entries_view(v@) =~= s.push((kv, vv)));
                lemma_lookup_some_index(s, kv);
                assert forall|x: Seq<char>| #[trigger]
                    lookup(entries_view(v@), x) == (if x == kv && lookup(s, x) is None {
                        Some(vv)
                    } else {
                        lookup(s, x)
                    }) by {
                    lemma_lookup_push(s, (kv, vv), x);
                }
            }
        },
    }
}

/// The entries of `remote` whose keys are keys of `desired`, in the order of
/// `desired`.
pub open spec fn projected(desired: Seq<Entry>, remote: Seq<Entry>, k: Seq<char>) -> Option<
    Seq<char>,
> {
    if lookup(desired, k) is Some {
        lookup(remote, k)
    } else {
        None
    }
}

/// Restricts `remote` to the keys of `desired`: a key is kept when both
/// mappings have it, with the remote value.
pub fn project(desired: &Vec<(String, String)>, remote: &Vec<(String, String)>) -> (r: Vec<
    (String, String),
>)
    ensures
        entries_view(r@) == proj_seq(entries_view(desired@), entries_view(remote@)),
        keys_unique(entries_view(desired@)) ==> keys_unique(entries_view(r@)),
{
    let ghost d = entries_view(desired@);
    let ghost m = entries_view(remote@);
    let mut r: Vec<(String, String)> = Vec::new();
    let mut i: usize = 0;
    while i < desired.len()
        invariant
            d == entries_view(desired@),
            m == entries_view(remote@),
            i <= d.len(),
            keys_unique(d) ==> keys_unique(entries_view(r@)),
            entries_view(r@) == proj_seq(d.subrange(0, i as int), m),
            forall|k: Seq<char>|
                #![trigger lookup(entries_view(r@), k)]
                lookup(entries_view(r@), k) == projected(d.subrange(0, i as int), m, k),
        decreases d.len() - i,
    {
        let ghost pre = d.subrange(0, i as int);
        let ghost rs = entries_view(r@);
        proof {
            assert(d.subrange(0, i + 1) =~= pre.push(d[i as int]));
            assert(d.subrange(0, i + 1).drop_last() =~= pre);
            lemma_lookup_some_index(pre, d[i as int].0);
            if keys_unique(d) {
                assert forall|j: int| 0 <= j < pre.len() implies pre[j].0 != d[i as int].0 by {
                    assert(pre[j] == d[j]);
                }
            }
        }
        match get(remote, &desired[i].0) {
            Some(val) => {
                let ghost kv = desired@[i as int].0@;
                r.push((desired[i].0.clone(), val));
                proof {
                    assert(entries_view(r@) =~= rs.push((kv, m_val(m, kv))));
                    lemma_lookup_some_index(rs, kv);
                    assert forall|k: Seq<char>| #[trigger]
                        lookup(entries_view(r@), k) == projected(d.subrange(0, i + 1), m, k) by {
                        lemma_lookup_push(rs, (kv, m_val(m, kv)), k);
                        lemma_lookup_push(pre, d[i as int], k);
                    }
                }
            },
            None => {
                proof {
                    assert forall|k: Seq<char>| #[trigger]
                        lookup(entries_view(r@), k) == projected(d.subrange(0, i + 1), m, k) by {
                        lemma_lookup_push(pre, d[i as int], k);
                    }
                }
            },
        }
        i = i + 1;
    }
    proof {
        assert(d.subrange(0, d.len() as int) =~= d);
    }
    r
}

spec fn m_val(m: Seq<Entry>, k: Seq<char>) -> Seq<char> {
    lookup(m, k)->0
}

/// The entries of `desired` whose keys `remote` has, each with the remote
/// value, in the order of `desired`.
pub open spec fn proj_seq(desired: Seq<Entry>, remote: Seq<Entry>) -> Seq<Entry>
    decreases desired.len(),
{
    if desired.len() == 0 {
        Seq::empty()
    } else {
        let k = desired.last().0;
        let rest = proj_seq(desired.drop_last(), remote);
        match lookup(remote, k) {
            Some(v) => rest.push((k, v)),
            None => rest,
        }
    }
}

/// A projection holds only keys of the desired mapping, each with its remote
/// value, and every key that both mappings have.
pub proof fn lemma_projection_subset(desired: Seq<Entry>, remote: Seq<Entry>)
    ensures
        forall|k: Seq<char>|
            #![trigger lookup(proj_seq(desired, remote), k)]
            lookup(proj_seq(desired, remote), k) is Some ==> lookup(desired, k) is Some,
        forall|k: Seq<char>|
            #![trigger lookup(proj_seq(desired, remote), k)]
            lookup(proj_seq(desired, remote), k) is Some ==> lookup(proj_seq(desired, remote), k)
                == lookup(remote, k),
        forall|k: Seq<char>|
            #![trigger lookup(proj_seq(desired, remote), k)]
            lookup(desired, k) is Some && lookup(remote, k) is Some ==> lookup(
                proj_seq(desired, remote),
                k,
            ) is Some,
{
    assert forall|k: Seq<char>| #[trigger]
        lookup(proj_seq(desired, remote), k) == projected(desired, remote, k) by {
        lemma_proj_lookup(desired, remote, k);
    }
}

pub proof fn lemma_proj_lookup(desired: Seq<Entry>, remote: Seq<Entry>, k: Seq<char>)
    ensures
        lookup(proj_seq(desired, remote), k) == projected(desired, remote, k),
    decreases desired.len(),
{
    if desired.len() > 0 {
        let pre = desired.drop_last();
        let e = desired.last();
        assert(desired =~= pre.push(e));
        lemma_proj_lookup(pre, remote, k);
        lemma_lookup_push(pre, e, k);
        match lookup(remote, e.0) {
            Some(v) => {
                lemma_lookup_push(proj_seq(pre, remote), (e.0, v), k);
            },
            None => {},
        }
    }
}

} // verus!
