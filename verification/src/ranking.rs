//! Ranking: the order players are listed in, best first.

use vstd::prelude::*;
use vstd::multiset::Multiset;

verus! {

/// Texts ordered character by character, by code point; a text comes before
/// every longer text that starts with it.
pub open spec fn text_lt(a: Seq<char>, b: Seq<char>) -> bool
    decreases a.len(),
{
    if a.len() == 0 {
        b.len() > 0
    } else if b.len() == 0 {
        false
    } else if a[0] != b[0] {
        a[0] < b[0]
    } else {
        text_lt(a.drop_first(), b.drop_first())
    }
}

pub proof fn lemma_text_lt_irreflexive(a: Seq<char>)
    ensures
        !text_lt(a, a),
    decreases a.len(),
{
    if a.len() > 0 {
        lemma_text_lt_irreflexive(a.drop_first());
    }
}

pub proof fn lemma_text_lt_transitive(a: Seq<char>, b: Seq<char>, c: Seq<char>)
    requires
        text_lt(a, b),
        text_lt(b, c),
    ensures
        text_lt(a, c),
    decreases a.len(),
{
    if a.len() > 0 && b.len() > 0 && c.len() > 0 {
        if a[0] == b[0] && b[0] == c[0] {
            lemma_text_lt_transitive(a.drop_first(), b.drop_first(), c.drop_first());
        }
    }
}

pub proof fn lemma_text_lt_total(a: Seq<char>, b: Seq<char>)
    requires
        a != b,
    ensures
        text_lt(a, b) || text_lt(b, a),
    decreases a.len(),
{
    if a.len() > 0 && b.len() > 0 {
        if a[0] == b[0] {
            if a.drop_first() == b.drop_first() {
                assert(a =~= seq![a[0]] + a.drop_first());
                assert(b =~= seq![b[0]] + b.drop_first());
            }
            lemma_text_lt_total(a.drop_first(), b.drop_first());
        }
    } else if a.len() == 0 && b.len() == 0 {
        assert(a =~= b);
    }
}

/// Whether text `a` comes before text `b`.
pub fn text_less(a: &str, b: &str) -> (r: bool)
    ensures
        r == text_lt(a@, b@),
{
    let n = a.unicode_len();
    let m = b.unicode_len();
    let mut i: usize = 0;
    assert(a@.skip(0) =~= a@);
    assert(b@.skip(0) =~= b@);
    loop
        invariant
            n == a@.len(),
            m == b@.len(),
            i <= n,
            i <= m,
            text_lt(a@, b@) == text_lt(a@.skip(i as int), b@.skip(i as int)),
        decreases n - i,
    {
        if i == n {
            return i < m;
        }
        if i == m {
            return false;
        }
        let ca = a.get_char(i);
        let cb = b.get_char(i);
        assert(a@.skip(i as int)[0] == ca);
        assert(b@.skip(i as int)[0] == cb);
        if ca != cb {
            return ca < cb;
        }
        assert(a@.skip(i as int).drop_first() =~= a@.skip(i + 1));
        assert(b@.skip(i as int).drop_first() =~= b@.skip(i + 1));
        i = i + 1;
    }
}

/// What a player is ranked by: three numbers, then a text, each compared
/// only when the ones before are equal.
pub struct RankKey {
    pub first: i32,
    pub second: i32,
    pub third: i32,
    pub text: String,
}

pub type RankKeyView = (int, int, int, Seq<char>);

impl View for RankKey {
    type V = RankKeyView;

    open spec fn view(&self) -> RankKeyView {
        (self.first as int, self.second as int, self.third as int, self.text@)
    }
}

/// The order of rank keys: by the first number, then the second, then the
/// third, then the text.
pub open spec fn key_lt(x: RankKeyView, y: RankKeyView) -> bool {
    if x.0 != y.0 {
        x.0 < y.0
    } else if x.1 != y.1 {
        x.1 < y.1
    } else if x.2 != y.2 {
        x.2 < y.2
    } else {
        text_lt(x.3, y.3)
    }
}

proof fn lemma_key_lt_basic(x: RankKeyView, y: RankKeyView, z: RankKeyView)
    ensures
        !key_lt(x, x),
        key_lt(x, y) && key_lt(y, z) ==> key_lt(x, z),
        x != y ==> key_lt(x, y) || key_lt(y, x),
{
    lemma_text_lt_irreflexive(x.3);
    if text_lt(x.3, y.3) && text_lt(y.3, z.3) {
        lemma_text_lt_transitive(x.3, y.3, z.3);
    }
    if x.3 != y.3 {
        lemma_text_lt_total(x.3, y.3);
    }
    if x != y {
        assert(x.0 != y.0 || x.1 != y.1 || x.2 != y.2 || x.3 != y.3);
    }
}

/// The order of rank keys is a strict total order.
pub proof fn lemma_key_lt_order(x: RankKeyView, y: RankKeyView, z: RankKeyView)
    ensures
        !key_lt(x, x),
        key_lt(x, y) && key_lt(y, z) ==> key_lt(x, z),
        x != y ==> key_lt(x, y) || key_lt(y, x),
        !key_lt(x, y) && !key_lt(y, z) ==> !key_lt(x, z),
{
    lemma_key_lt_basic(x, y, z);
    lemma_key_lt_basic(y, x, z);
    lemma_key_lt_basic(y, z, x);
    lemma_key_lt_basic(z, y, x);
    lemma_key_lt_basic(x, z, x);
    lemma_key_lt_basic(z, x, z);
}

/// Whether key `x` comes before key `y`.
pub fn key_less(x: &RankKey, y: &RankKey) -> (r: bool)
    ensures
        r == key_lt(x@, y@),
{
    if x.first != y.first {
        x.first < y.first
    } else if x.second != y.second {
        x.second < y.second
    } else if x.third != y.third {
        x.third < y.third
    } else {
        text_less(x.text.as_str(), y.text.as_str())
    }
}

/// `idx` lists each position below `n` once.
pub open spec fn is_index_permutation(idx: Seq<usize>, n: nat) -> bool {
    &&& idx.len() == n
    &&& forall|p: int| 0 <= p < n ==> #[trigger] idx[p] < n
    &&& forall|p: int, q: int| 0 <= p < q < n ==> #[trigger] idx[p] != #[trigger] idx[q]
}

/// The views of the keys.
pub open spec fn key_views(keys: Seq<RankKey>) -> Seq<RankKeyView> {
    keys.map_values(|k: RankKey| k@)
}

/// The keys at the positions, in the order of the positions.
pub open spec fn keys_at(keys: Seq<RankKeyView>, idx: Seq<usize>) -> Seq<RankKeyView> {
    idx.map_values(|k: usize| keys[k as int])
}

/// No key comes before an earlier one: best first.
pub open spec fn is_descending(s: Seq<RankKeyView>) -> bool {
    forall|p: int, q: int| 0 <= p < q < s.len() ==> !key_lt(#[trigger] s[p], #[trigger] s[q])
}

/// The positions of the keys, best key first.
pub fn descending_order(keys: &Vec<RankKey>) -> (r: Vec<usize>)
    ensures
        is_index_permutation(r@, keys.len() as nat),
        is_descending(keys_at(key_views(keys@), r@)),
        keys_at(key_views(keys@), r@).to_multiset() == key_views(keys@).to_multiset(),
{
    broadcast use {vstd::seq_lib::group_to_multiset_ensures, vstd::multiset::group_multiset_axioms};
    let n = keys.len();
    let mut idx: Vec<usize> = Vec::new();
    for i in 0..n
        invariant
            n == keys.len(),
            idx@.len() == i,
            forall|p: int| 0 <= p < i ==> #[trigger] idx@[p] == p,
    {
        idx.push(i);
    }
    assert(keys_at(key_views(keys@), idx@) =~= key_views(keys@));
    for i in 0..n
        invariant
            n == keys.len(),
            is_index_permutation(idx@, n as nat),
            keys_at(key_views(keys@), idx@).to_multiset() == key_views(keys@).to_multiset(),
            forall|p: int, q: int| 0 <= p < q < i ==> !key_lt(
                #[trigger] keys@[idx@[p] as int]@,
                #[trigger] keys@[idx@[q] as int]@,
            ),
    {
        let mut j = i;
        while j > 0 && key_less(&keys[idx[j - 1]], &keys[idx[j]])
            invariant
                n == keys.len(),
                i < n,
                j <= i,
                is_index_permutation(idx@, n as nat),
                keys_at(key_views(keys@), idx@).to_multiset() == key_views(keys@).to_multiset(),
                forall|p: int, q: int|
                    0 <= p < q <= i && p != j && q != j ==> !key_lt(
                        #[trigger] keys@[idx@[p] as int]@,
                        #[trigger] keys@[idx@[q] as int]@,
                    ),
                forall|q: int| j < q <= i ==> !key_lt(keys@[idx@[j as int] as int]@, #[trigger] keys@[idx@[q] as int]@),
            decreases j,
        {
            let ghost before = idx@;
            let ghost kv = key_views(keys@);
            let ghost s0 = keys_at(kv, before);
            let x = idx[j];
            let y = idx[j - 1];
            idx.set(j, y);
            idx.set(j - 1, x);
            proof {
                let s1 = s0.update(j as int, kv[y as int]);
                let s2 = s1.update(j - 1, kv[x as int]);
                assert(keys_at(kv, idx@) =~= s2);
                assert(s0[j as int] == kv[x as int]);
                assert(s0[j - 1] == kv[y as int]);
                assert(s1[j - 1] == kv[y as int]);
                let m0 = s0.to_multiset();
                let a = kv[y as int];
                let b = kv[x as int];
                vstd::seq_lib::to_multiset_update(s0, j as int, a);
                vstd::seq_lib::to_multiset_update(s1, j - 1, b);
                assert(s0.contains(a));
                assert(s0.contains(b));
                vstd::seq_lib::to_multiset_contains(s0, a);
                vstd::seq_lib::to_multiset_contains(s0, b);
                assert(m0.count(a) > 0);
                assert(m0.count(b) > 0);
                assert(s2.to_multiset() =~= s0.to_multiset());
                lemma_key_lt_order(keys@[y as int]@, keys@[x as int]@, keys@[y as int]@);
                assert forall|p: int, q: int| 0 <= p < q < n implies #[trigger] idx@[p] != #[trigger] idx@[q] by {
                    let bp = if p == j { j - 1 } else if p == j - 1 { j as int } else { p };
                    let bq = if q == j { j - 1 } else if q == j - 1 { j as int } else { q };
                    assert(idx@[p] == before[bp]);
                    assert(idx@[q] == before[bq]);
                    assert(bp != bq);
                }
                assert forall|p: int| 0 <= p < n implies #[trigger] idx@[p] < n by {
                    let bp = if p == j { j - 1 } else if p == j - 1 { j as int } else { p };
                    assert(idx@[p] == before[bp]);
                }
                assert forall|p: int, q: int|
                    0 <= p < q <= i && p != j - 1 && q != j - 1 implies !key_lt(
                        #[trigger] keys@[idx@[p] as int]@,
                        #[trigger] keys@[idx@[q] as int]@,
                    ) by {
                    let bp = if p == j { j - 1 } else { p };
                    let bq = if q == j { j - 1 } else { q };
                    assert(idx@[p] == before[bp]);
                    assert(idx@[q] == before[bq]);
                    assert(keys@[before[bp] as int]@ == keys@[idx@[p] as int]@);
                    assert(keys@[before[bq] as int]@ == keys@[idx@[q] as int]@);
                }
                assert forall|q: int| j - 1 < q <= i implies !key_lt(
                    keys@[idx@[j - 1] as int]@,
                    #[trigger] keys@[idx@[q] as int]@,
                ) by {
                    if q > j {
                        assert(idx@[q] == before[q]);
                    }
                }
            }
            j = j - 1;
        }
        proof {
            assert forall|p: int, q: int| 0 <= p < q < i + 1 implies !key_lt(
                #[trigger] keys@[idx@[p] as int]@,
                #[trigger] keys@[idx@[q] as int]@,
            ) by {
                if q == j && p < j {
                    if p < j - 1 {
                        lemma_key_lt_order(keys@[idx@[p] as int]@, keys@[idx@[j - 1] as int]@, keys@[idx@[j as int] as int]@);
                    }
                }
            }
        }
    }
    proof {
        let s = keys_at(key_views(keys@), idx@);
        assert forall|p: int, q: int| 0 <= p < q < s.len() implies !key_lt(#[trigger] s[p], #[trigger] s[q]) by {
            assert(s[p] == keys@[idx@[p] as int]@);
            assert(s[q] == keys@[idx@[q] as int]@);
        }
    }
    idx
}

/// The texts of the keys, each on a line of its own: a line break before
/// each.
pub open spec fn joined_lines(texts: Seq<Seq<char>>) -> Seq<char>
    decreases texts.len(),
{
    if texts.len() == 0 {
        Seq::empty()
    } else {
        joined_lines(texts.drop_last()) + "\n"@ + texts.last()
    }
}

/// The texts of the keys, best key first, each after a line break.
#[verifier::opaque]
pub open spec fn ranked_lines(keys: Seq<RankKeyView>, text: Seq<char>) -> bool {
    exists|idx: Seq<usize>|
        #![trigger is_index_permutation(idx, keys.len())]
        is_index_permutation(idx, keys.len()) && is_descending(keys_at(keys, idx)) && keys_at(keys, idx).to_multiset()
            == keys.to_multiset() && text == joined_lines(keys_at(keys, idx).map_values(|k: RankKeyView| k.3))
}

/// The texts of the keys, best first, each on a line of its own.
pub fn ranked_text(keys: &Vec<RankKey>) -> (r: String)
    ensures
        ranked_lines(key_views(keys@), r@),
{
    let order = descending_order(keys);
    let ghost texts = keys_at(key_views(keys@), order@).map_values(|k: RankKeyView| k.3);
    let mut output = String::new();
    let n = order.len();
    for p in 0..n
        invariant
            n == order.len(),
            n == keys.len(),
            is_index_permutation(order@, keys.len() as nat),
            texts == keys_at(key_views(keys@), order@).map_values(|k: RankKeyView| k.3),
            output@ == joined_lines(texts.subrange(0, p as int)),
    {
        let k = order[p];
        output.append("\n");
        output.append(keys[k].text.as_str());
        proof {
            assert(texts.subrange(0, p + 1).drop_last() =~= texts.subrange(0, p as int));
            assert(texts[p as int] == keys@[k as int].text@);
        }
    }
    assert(texts.subrange(0, n as int) =~= texts);
    assert(is_index_permutation(order@, key_views(keys@).len()));
    proof {
        reveal(ranked_lines);
    }
    output
}


/// Two descending orders of the same keys are the same sequence.
proof fn lemma_descending_unique(s1: Seq<RankKeyView>, s2: Seq<RankKeyView>)
    requires
        s1.to_multiset() == s2.to_multiset(),
        is_descending(s1),
        is_descending(s2),
    ensures
        s1 == s2,
    decreases s1.len(),
{
    broadcast use {vstd::seq_lib::group_to_multiset_ensures, vstd::multiset::group_multiset_axioms};
    if s1.len() == 0 {
        assert(s2.len() == s2.to_multiset().len());
        assert(s1 =~= s2);
    } else {
        assert(s2.len() == s2.to_multiset().len());
        assert(s1.len() == s1.to_multiset().len());
        let x1 = s1[0];
        let x2 = s2[0];
        assert(s1.contains(x1));
        assert(s2.to_multiset().count(x1) > 0);
        assert(s2.contains(x1));
        let j2 = choose|j: int| 0 <= j < s2.len() && s2[j] == x1;
        assert(s1.to_multiset().count(x2) > 0);
        assert(s1.contains(x2));
        let j1 = choose|j: int| 0 <= j < s1.len() && s1[j] == x2;
        if j2 > 0 {
            assert(!key_lt(s2[0], s2[j2]));
        }
        if j1 > 0 {
            assert(!key_lt(s1[0], s1[j1]));
        }
        lemma_key_lt_order(x1, x2, x1);
        assert(x1 == x2);
        let t1 = s1.drop_first();
        let t2 = s2.drop_first();
        assert(s1 =~= seq![x1] + t1);
        assert(s2 =~= seq![x1] + t2);
        vstd::seq_lib::lemma_multiset_commutative(seq![x1], t1);
        vstd::seq_lib::lemma_multiset_commutative(seq![x1], t2);
        assert(seq![x1].to_multiset() =~= Multiset::singleton(x1));
        let single = Multiset::singleton(x1);
        assert(s1.to_multiset() == single.add(t1.to_multiset()));
        assert(s2.to_multiset() == single.add(t2.to_multiset()));
        assert forall|v: RankKeyView| t1.to_multiset().count(v) == t2.to_multiset().count(v) by {
            assert(s1.to_multiset().count(v) == single.count(v) + t1.to_multiset().count(v));
            assert(s2.to_multiset().count(v) == single.count(v) + t2.to_multiset().count(v));
        }
        assert(t1.to_multiset() =~= t2.to_multiset());
        assert(is_descending(t1)) by {
            assert forall|p: int, q: int| 0 <= p < q < t1.len() implies !key_lt(#[trigger] t1[p], #[trigger] t1[q]) by {
                assert(t1[p] == s1[p + 1] && t1[q] == s1[q + 1]);
            }
        }
        assert(is_descending(t2)) by {
            assert forall|p: int, q: int| 0 <= p < q < t2.len() implies !key_lt(#[trigger] t2[p], #[trigger] t2[q]) by {
                assert(t2[p] == s2[p + 1] && t2[q] == s2[q + 1]);
            }
        }
        lemma_descending_unique(t1, t2);
        assert(s1 =~= s2);
    }
}

/// Ranked lines depend on the keys alone, not on the order they come in:
/// keys that hold the same values, in any order, are written the same.
pub proof fn law_ranked_lines_ignore_order(k1: Seq<RankKeyView>, k2: Seq<RankKeyView>, t1: Seq<char>, t2: Seq<char>)
    requires
        k1.to_multiset() == k2.to_multiset(),
        ranked_lines(k1, t1),
        ranked_lines(k2, t2),
    ensures
        t1 == t2,
{
    reveal(ranked_lines);
    let i1 = choose|idx: Seq<usize>|
        #![trigger is_index_permutation(idx, k1.len())]
        is_index_permutation(idx, k1.len()) && is_descending(keys_at(k1, idx)) && keys_at(k1, idx).to_multiset()
            == k1.to_multiset() && t1 == joined_lines(keys_at(k1, idx).map_values(|k: RankKeyView| k.3));
    let i2 = choose|idx: Seq<usize>|
        #![trigger is_index_permutation(idx, k2.len())]
        is_index_permutation(idx, k2.len()) && is_descending(keys_at(k2, idx)) && keys_at(k2, idx).to_multiset()
            == k2.to_multiset() && t2 == joined_lines(keys_at(k2, idx).map_values(|k: RankKeyView| k.3));
    lemma_descending_unique(keys_at(k1, i1), keys_at(k2, i2));
}

} // verus!
