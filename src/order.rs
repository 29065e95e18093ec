//! Final ordering of records: a stable sort on a two-part text key.

use vstd::prelude::*;
use vstd::multiset::Multiset;
use vstd::seq_lib::{to_multiset_build, to_multiset_insert};

verus! {

/// Lexicographic order on character sequences, by code point; a proper
/// prefix comes first.
pub open spec fn lex_lt(a: Seq<char>, b: Seq<char>) -> bool
    decreases a.len(),
{
    if b.len() == 0 {
        false
    } else if a.len() == 0 {
        true
    } else if a[0] < b[0] {
        true
    } else if a[0] == b[0] {
        lex_lt(a.drop_first(), b.drop_first())
    } else {
        false
    }
}

/// Order on two-part keys: the first part decides, the second breaks ties.
pub open spec fn key_lt(a: (Seq<char>, Seq<char>), b: (Seq<char>, Seq<char>)) -> bool {
    lex_lt(a.0, b.0) || (a.0 == b.0 && lex_lt(a.1, b.1))
}

pub proof fn lemma_lex_asym(a: Seq<char>, b: Seq<char>)
    ensures
        !(lex_lt(a, b) && lex_lt(b, a)),
    decreases a.len(),
{
    if a.len() > 0 && b.len() > 0 && a[0] == b[0] {
        lemma_lex_asym(a.drop_first(), b.drop_first());
    }
}

pub proof fn lemma_lex_trans(a: Seq<char>, b: Seq<char>, c: Seq<char>)
    requires
        lex_lt(a, b),
        lex_lt(b, c),
    ensures
        lex_lt(a, c),
    decreases a.len(),
{
    if a.len() > 0 && b.len() > 0 && c.len() > 0 && a[0] == b[0] && b[0] == c[0] {
        lemma_lex_trans(a.drop_first(), b.drop_first(), c.drop_first());
    }
}

pub proof fn lemma_lex_total(a: Seq<char>, b: Seq<char>)
    ensures
        a == b || lex_lt(a, b) || lex_lt(b, a),
    decreases a.len(),
{
    if a.len() == 0 && b.len() == 0 {
        assert(a =~= b);
    } else if a.len() > 0 && b.len() > 0 && a[0] == b[0] {
        lemma_lex_total(a.drop_first(), b.drop_first());
        if a.drop_first() == b.drop_first() {
            assert(a =~= seq![a[0]] + a.drop_first());
            assert(b =~= seq![b[0]] + b.drop_first());
        }
    }
}

proof fn lemma_key_facts(a: (Seq<char>, Seq<char>), b: (Seq<char>, Seq<char>), c: (
    Seq<char>,
    Seq<char>,
))
    ensures
        !(key_lt(a, b) && key_lt(b, a)),
        !key_lt(b, a) && !key_lt(c, b) ==> !key_lt(c, a),
        !key_lt(a, b) ==> key_lt(b, a) || a == b,
{
    lemma_lex_asym(a.0, b.0);
    lemma_lex_asym(a.1, b.1);
    lemma_lex_total(a.0, b.0);
    lemma_lex_total(a.1, b.1);
    lemma_lex_total(b.0, c.0);
    lemma_lex_total(b.1, c.1);
    lemma_lex_total(a.0, c.0);
    lemma_lex_total(a.1, c.1);
    lemma_lex_asym(a.0, c.0);
    lemma_lex_asym(a.1, c.1);
    lemma_lex_asym(b.0, c.0);
    lemma_lex_asym(b.1, c.1);
    if lex_lt(a.0, b.0) && lex_lt(b.0, c.0) {
        lemma_lex_trans(a.0, b.0, c.0);
    }
    if lex_lt(a.1, b.1) && lex_lt(b.1, c.1) {
        lemma_lex_trans(a.1, b.1, c.1);
    }
    if lex_lt(c.0, a.0) && lex_lt(a.0, b.0) {
        lemma_lex_trans(c.0, a.0, b.0);
    }
    if lex_lt(b.0, c.0) && lex_lt(c.0, a.0) {
        lemma_lex_trans(b.0, c.0, a.0);
    }
    if lex_lt(c.1, a.1) && lex_lt(a.1, b.1) {
        lemma_lex_trans(c.1, a.1, b.1);
    }
    if lex_lt(b.1, c.1) && lex_lt(c.1, a.1) {
        lemma_lex_trans(b.1, c.1, a.1);
    }
    if a.0 != b.0 || a.1 != b.1 {
    } else {
        assert(a == b);
    }
}

/// A record that is ordered by a two-part text key.
pub trait SortKeyed {
    spec fn sort_key(&self) -> (Seq<char>, Seq<char>);

    fn key_parts(&self) -> (r: (Vec<char>, Vec<char>))
        ensures
            r.0@ == self.sort_key().0,
            r.1@ == self.sort_key().1,
    ;
}

/// Every record's key is at most the key of every later record.
pub open spec fn sorted_by_key<T: SortKeyed>(s: Seq<T>) -> bool {
    forall|i: int, j: int| 0 <= i < j < s.len() ==> !key_lt(#[trigger] s[j].sort_key(), #[trigger] s[i].sort_key())
}

/// Compares two character sequences lexicographically.
pub fn lex_less(a: &Vec<char>, b: &Vec<char>) -> (r: bool)
    ensures
        r == lex_lt(a@, b@),
{
    let mut k: usize = 0;
    proof {
        assert(a@.subrange(0, a@.len() as int) =~= a@);
        assert(b@.subrange(0, b@.len() as int) =~= b@);
        assert(a@.subrange(0, 0) =~= b@.subrange(0, 0));
    }
    while k < a.len() && k < b.len() && a[k] == b[k]
        invariant
            k <= a@.len(),
            k <= b@.len(),
            a@.subrange(0, k as int) == b@.subrange(0, k as int),
            lex_lt(a@, b@) == lex_lt(a@.subrange(k as int, a@.len() as int), b@.subrange(k as int, b@.len() as int)),
        decreases a@.len() - k,
    {
        proof {
            let sa = a@.subrange(k as int, a@.len() as int);
            let sb = b@.subrange(k as int, b@.len() as int);
            assert(sa.drop_first() =~= a@.subrange(k + 1, a@.len() as int));
            assert(sb.drop_first() =~= b@.subrange(k + 1, b@.len() as int));
            assert(a@.subrange(0, k + 1) =~= a@.subrange(0, k as int).push(a@[k as int]));
            assert(b@.subrange(0, k + 1) =~= b@.subrange(0, k as int).push(b@[k as int]));
        }
        k = k + 1;
    }
    proof {
        assert(a@.subrange(0, a@.len() as int) =~= a@);
        assert(b@.subrange(0, b@.len() as int) =~= b@);
    }
    if k == b.len() {
        false
    } else if k == a.len() {
        true
    } else {
        a[k] < b[k]
    }
}

fn key_less(a: &(Vec<char>, Vec<char>), b: &(Vec<char>, Vec<char>)) -> (r: bool)
    ensures
        r == key_lt((a.0@, a.1@), (b.0@, b.1@)),
{
    if lex_less(&a.0, &b.0) {
        true
    } else if lex_less(&b.0, &a.0) {
        proof {
            lemma_lex_asym(a.0@, b.0@);
        }
        false
    } else {
        proof {
            lemma_lex_total(a.0@, b.0@);
        }
        lex_less(&a.1, &b.1)
    }
}

/// Some position of `perm` holds `m`.
pub open spec fn placed(perm: Seq<int>, m: int) -> bool {
    exists|k: int| 0 <= k < perm.len() && #[trigger] perm[k] == m
}

/// `r` is `items` rearranged by `perm` (`r[k]` is `items[perm[k]]`), and
/// records with equal keys keep their relative order.
pub open spec fn stable_arrangement<T: SortKeyed>(perm: Seq<int>, items: Seq<T>, r: Seq<T>) -> bool {
    &&& perm.len() == r.len()
    &&& r.len() == items.len()
    &&& forall|k: int|
        0 <= k < r.len() ==> 0 <= #[trigger] perm[k] < items.len() && r[k] == items[perm[k]]
    &&& forall|i: int, j: int| 0 <= i < j < r.len() ==> #[trigger] perm[i] != #[trigger] perm[j]
    &&& forall|m: int| 0 <= m < items.len() ==> #[trigger] placed(perm, m)
    &&& forall|i: int, j: int|
        0 <= i < j < r.len() && (#[trigger] r[i]).sort_key() == (#[trigger] r[j]).sort_key()
            ==> perm[i] < perm[j]
}

/// Sorts records by key; records with equal keys keep their order.
pub fn sort_by_key<T: SortKeyed>(items: Vec<T>) -> (r: Vec<T>)
    ensures
        r@.to_multiset() == items@.to_multiset(),
        sorted_by_key(r@),
        exists|perm: Seq<int>| #[trigger] stable_arrangement(perm, items@, r@),
{
    broadcast use vstd::seq_lib::group_to_multiset_ensures;

    let mut rest = items;
    let mut out: Vec<T> = Vec::new();
    proof {
        assert(out@.to_multiset() =~= Multiset::<T>::empty());
        assert(rest@.to_multiset().add(out@.to_multiset()) =~= items@.to_multiset());
    }
    let ghost n = items@.len() as int;
    let ghost mut perm: Seq<int> = seq![];
    while rest.len() > 0
        invariant
            rest@.to_multiset().add(out@.to_multiset()) == items@.to_multiset(),
            sorted_by_key(out@),
            n == items@.len(),
            rest@ == items@.subrange(0, rest@.len() as int),
            rest@.len() + out@.len() == n,
            perm.len() == out@.len(),
            forall|k: int|
                0 <= k < out@.len() ==> rest@.len() <= #[trigger] perm[k] < n && out@[k]
                    == items@[perm[k]],
            forall|i: int, j: int|
                0 <= i < j < out@.len() ==> #[trigger] perm[i] != #[trigger] perm[j],
            forall|m: int| rest@.len() <= m < n ==> #[trigger] placed(perm, m),
            forall|i: int, j: int|
                0 <= i < j < out@.len() && (#[trigger] out@[i]).sort_key() == (
                #[trigger] out@[j]).sort_key() ==> perm[i] < perm[j],
        decreases rest@.len(),
    {
        let ghost before = rest@;
        let x = match rest.pop() {
            Some(x) => x,
            None => {
                return out;
            },
        };
        let ghost idx = rest@.len() as int;
        proof {
            assert(before =~= rest@.push(x));
            to_multiset_build(rest@, x);
            assert(x == items@[idx]);
            assert(rest@ =~= items@.subrange(0, idx));
        }
        let kx = x.key_parts();
        let mut p: usize = 0;
        while p < out.len() && key_less(&out[p].key_parts(), &kx)
            invariant
                p <= out@.len(),
                kx.0@ == x.sort_key().0,
                kx.1@ == x.sort_key().1,
                forall|q: int| 0 <= q < p ==> key_lt(#[trigger] out@[q].sort_key(), x.sort_key()),
            decreases out@.len() - p,
        {
            p = p + 1;
        }
        let ghost old_out = out@;
        let ghost old_perm = perm;
        out.insert(p, x);
        proof {
            perm = old_perm.insert(p as int, idx);
            let pi = p as int;
            assert forall|m: int| idx <= m < n implies #[trigger] placed(perm, m) by {
                if m == idx {
                    assert(perm[pi] == idx);
                } else {
                    assert(placed(old_perm, m));
                    let k0 = choose|k: int| 0 <= k < old_perm.len() && #[trigger] old_perm[k] == m;
                    if k0 < pi {
                        assert(perm[k0] == m);
                    } else {
                        assert(perm[k0 + 1] == m);
                    }
                }
            }
            assert forall|k: int| 0 <= k < out@.len() implies idx <= #[trigger] perm[k] < n
                && out@[k] == items@[perm[k]] by {
                if k < pi {
                    assert(perm[k] == old_perm[k] && out@[k] == old_out[k]);
                } else if k > pi {
                    assert(perm[k] == old_perm[k - 1] && out@[k] == old_out[k - 1]);
                }
            }
            assert forall|i: int, j: int| 0 <= i < j < out@.len() implies #[trigger] perm[i]
                != #[trigger] perm[j] by {
                if i != pi && j != pi {
                    let oi = if i < pi { i } else { i - 1 };
                    let oj = if j < pi { j } else { j - 1 };
                    assert(perm[i] == old_perm[oi] && perm[j] == old_perm[oj]);
                    assert(old_perm[oi] != old_perm[oj]);
                } else if i == pi {
                    assert(perm[j] == old_perm[j - 1]);
                    assert(idx < old_perm[j - 1]);
                } else {
                    assert(perm[i] == old_perm[i]);
                    assert(idx < old_perm[i]);
                }
            }
            assert forall|i: int, j: int|
                0 <= i < j < out@.len() && (#[trigger] out@[i]).sort_key() == (
                #[trigger] out@[j]).sort_key() implies perm[i] < perm[j] by {
                if i != pi && j != pi {
                    let oi = if i < pi { i } else { i - 1 };
                    let oj = if j < pi { j } else { j - 1 };
                    assert(perm[i] == old_perm[oi] && perm[j] == old_perm[oj]);
                    assert(out@[i] == old_out[oi] && out@[j] == old_out[oj]);
                } else if i == pi {
                    assert(perm[j] == old_perm[j - 1]);
                    assert(idx < old_perm[j - 1]);
                } else {
                    assert(out@[i] == old_out[i]);
                    assert(key_lt(old_out[i].sort_key(), x.sort_key()));
                    lemma_key_facts(x.sort_key(), x.sort_key(), x.sort_key());
                }
            }
            to_multiset_insert(old_out, p as int, x);
            assert(out@ == old_out.insert(p as int, x));
            assert forall|i: int, j: int| 0 <= i < j < out@.len() implies !key_lt(
                #[trigger] out@[j].sort_key(),
                #[trigger] out@[i].sort_key(),
            ) by {
                let pi = p as int;
                if j < pi {
                    assert(out@[i] == old_out[i] && out@[j] == old_out[j]);
                } else if j == pi {
                    assert(out@[i] == old_out[i]);
                    lemma_key_facts(old_out[i].sort_key(), x.sort_key(), x.sort_key());
                } else if i == pi {
                    assert(out@[j] == old_out[j - 1]);
                    assert(!key_lt(old_out[pi].sort_key(), x.sort_key()));
                    if j - 1 > pi {
                        assert(!key_lt(old_out[j - 1].sort_key(), old_out[pi].sort_key()));
                    }
                    lemma_key_facts(x.sort_key(), old_out[pi].sort_key(), old_out[j - 1].sort_key());
                    lemma_key_facts(old_out[pi].sort_key(), x.sort_key(), x.sort_key());
                } else if i < pi {
                    assert(out@[i] == old_out[i] && out@[j] == old_out[j - 1]);
                    assert(key_lt(old_out[i].sort_key(), x.sort_key()));
                    assert(!key_lt(old_out[pi].sort_key(), x.sort_key()));
                    lemma_key_facts(old_out[i].sort_key(), x.sort_key(), x.sort_key());
                    lemma_key_facts(x.sort_key(), old_out[pi].sort_key(), old_out[pi].sort_key());
                    if j - 1 > pi {
                        assert(!key_lt(old_out[j - 1].sort_key(), old_out[pi].sort_key()));
                        lemma_key_facts(x.sort_key(), old_out[pi].sort_key(), old_out[j - 1].sort_key());
                    }
                    lemma_key_facts(old_out[i].sort_key(), x.sort_key(), old_out[j - 1].sort_key());
                } else {
                    assert(out@[i] == old_out[i - 1] && out@[j] == old_out[j - 1]);
                }
            }
        }
    }
    proof {
        assert(rest@ =~= Seq::<T>::empty());
        assert(rest@.to_multiset() =~= Multiset::<T>::empty());
        assert(stable_arrangement(perm, items@, out@));
    }
    out
}

} // verus!
