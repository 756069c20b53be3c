//! Orderings and selections of items, through `itertools`.

use vstd::prelude::*;
use itertools::Itertools;
use rand::rngs::ThreadRng;
use crate::dice::choose_index;
use crate::pennant::{completes_race, combination_completes_race};

verus! {

/// Position, in the output of `permutations(2)` over `n` items, of the ordered
/// pair made of item `i` then item `j` (`i != j`): pairs come ordered by their
/// first index, then by their second.
pub open spec fn pair_position(n: int, i: int, j: int) -> int {
    i * (n - 1) + (if j < i { j } else { j - 1 })
}

/// First position of the ordered pair at position `p` of the ordered pairs of
/// `n` items (see `pair_position`).
pub open spec fn pair_first(n: int, p: int) -> int {
    p / (n - 1)
}

/// Second position of the ordered pair at position `p` of the ordered pairs of
/// `n` items (see `pair_position`).
pub open spec fn pair_second(n: int, p: int) -> int {
    let r = p % (n - 1);
    if r < pair_first(n, p) { r } else { r + 1 }
}

/// `pair_first` and `pair_second` undo `pair_position`: each position below
/// `n * (n - 1)` holds the pair of two distinct positions that it names.
pub proof fn lemma_pair_inverse(n: int, p: int)
    requires
        n >= 2,
        0 <= p < n * (n - 1),
    ensures
        0 <= pair_first(n, p) < n,
        0 <= pair_second(n, p) < n,
        pair_first(n, p) != pair_second(n, p),
        pair_position(n, pair_first(n, p), pair_second(n, p)) == p,
{
    let i = p / (n - 1);
    let r = p % (n - 1);
    assert(p == i * (n - 1) + r && 0 <= r < n - 1) by (nonlinear_arith)
        requires
            n >= 2,
            i == p / (n - 1),
            r == p % (n - 1),
    ;
    assert(0 <= i < n) by (nonlinear_arith)
        requires
            n >= 2,
            p == i * (n - 1) + r,
            0 <= r < n - 1,
            0 <= p < n * (n - 1),
    ;
}

/// `x` is made of two items of `items` at distinct positions, in that order.
pub open spec fn is_pair_of(x: (i64, i64), items: Seq<i64>) -> bool {
    exists|i: int, j: int| 0 <= i < items.len() && 0 <= j < items.len() && i != j && x == (items[i], items[j])
}

/// `idx` picks `k` strictly increasing indices below `n`.
pub open spec fn is_index_choice(idx: Seq<int>, n: int, k: int) -> bool {
    &&& idx.len() == k
    &&& forall|m: int| 0 <= m < k ==> 0 <= #[trigger] idx[m] < n
    &&& forall|m1: int, m2: int| 0 <= m1 < m2 < k ==> #[trigger] idx[m1] < #[trigger] idx[m2]
}

/// `c` is a selection of `k` items of `items`, kept in their order.
pub open spec fn is_combination<T>(c: Seq<T>, items: Seq<T>, k: int) -> bool {
    exists|idx: Seq<int>|
        #![trigger is_index_choice(idx, items.len() as int, k)]
        is_index_choice(idx, items.len() as int, k) && c == idx.map_values(|i: int| items[i])
}

/// `Itertools::permutations(2)`: every ordered pair of two items at distinct
/// positions, ordered by the first position and then the second (as itertools
/// documents). The claim: the length is `n * (n - 1)` and the pair of positions
/// `(i, j)` stands at `pair_position(n, i, j)`.
#[verifier::external_body]
pub(crate) fn ordered_pairs(items: Vec<i64>) -> (r: Vec<(i64, i64)>)
    ensures
        r.len() == items.len() * (items.len() - 1),
        forall|i: int, j: int|
            0 <= i < items.len() && 0 <= j < items.len() && i != j ==> r@[pair_position(
                items.len() as int,
                i,
                j,
            )] == (items@[i], items@[j]),
        forall|p: int| 0 <= p < r.len() ==> is_pair_of(#[trigger] r@[p], items@),
{
    items.into_iter().permutations(2).map(|v| (v[0], v[1])).collect()
}

/// The selections of `k` items of a list, as `Itertools::combinations(k)`
/// hands them out one at a time. Held whole, out of sight of the proofs; what
/// is left of it is `selections_left`.
#[verifier::external_body]
pub struct SelectionStream {
    inner: itertools::Combinations<std::vec::IntoIter<(i32, i32)>>,
}

/// The selections that a stream has still to hand out, in order.
pub uninterp spec fn selections_left(s: SelectionStream) -> Seq<Seq<(i32, i32)>>;

/// `Itertools::combinations(k)` on the items. itertools hands out every
/// selection of `k` items at increasing positions, each as the items at those
/// positions in order (for `k` above the number of items, none; for `k` zero,
/// the one empty selection). The claim: each selection left is such a
/// selection, and every such selection is among them.
#[verifier::external_body]
fn selections_of(items: Vec<(i32, i32)>, k: usize) -> (s: SelectionStream)
    ensures
        forall|m: int| 0 <= m < selections_left(s).len() ==> is_combination(#[trigger] selections_left(s)[m], items@, k as int),
        forall|idx: Seq<int>|
            #[trigger] is_index_choice(idx, items.len() as int, k as int) ==> selections_left(s).contains(
                idx.map_values(|i: int| items@[i]),
            ),
{
    SelectionStream { inner: items.into_iter().combinations(k) }
}

/// `Iterator::next` on the combinations: the first selection left, which
/// then leaves the stream, or `None` once none is left.
#[verifier::external_body]
fn next_selection(s: &mut SelectionStream) -> (r: Option<Vec<(i32, i32)>>)
    ensures
        selections_left(*old(s)).len() == 0 ==> r is None && selections_left(*final(s)) == selections_left(*old(s)),
        selections_left(*old(s)).len() > 0 ==> (r matches Some(c) && c@ == selections_left(*old(s))[0]
            && selections_left(*final(s)) == selections_left(*old(s)).drop_first()),
{
    s.inner.next()
}

/// A random choice among the selections of `k` items that complete a pennant
/// race, or `None` when no selection does. Which one is chosen depends on the
/// generator and is not stated.
pub(crate) fn choose_completing_combination(
    items: Vec<(i32, i32)>,
    k: usize,
    total_games_played: i32,
    top_3_wins: i64,
    top_3_losses: i64,
    thread: &mut ThreadRng,
) -> (r: Option<Vec<(i32, i32)>>)
    ensures
        r matches Some(c) ==> is_combination(c@, items@, k as int) && completes_race(
            c@,
            total_games_played as int,
            top_3_wins as int,
            top_3_losses as int,
        ),
        r is None ==> forall|idx: Seq<int>|
            #[trigger] is_index_choice(idx, items.len() as int, k as int) ==> !completes_race(
                idx.map_values(|i: int| items@[i]),
                total_games_played as int,
                top_3_wins as int,
                top_3_losses as int,
            ),
{
    let ghost src = items@;
    let mut stream = selections_of(items, k);
    let ghost all = selections_left(stream);
    assert forall|idx: Seq<int>|
        #[trigger] is_index_choice(idx, src.len() as int, k as int) implies all.contains(idx.map_values(|i: int| src[i])) by {
        assert(is_index_choice(idx, items.len() as int, k as int));
        assert(idx.map_values(|i: int| src[i]) =~= idx.map_values(|i: int| items@[i]));
    }
    let ghost mut seen: int = 0;
    let mut found: Vec<Vec<(i32, i32)>> = Vec::new();
    loop
        invariant
            0 <= seen <= all.len(),
            selections_left(stream) == all.subrange(seen, all.len() as int),
            forall|m: int| 0 <= m < all.len() ==> is_combination(#[trigger] all[m], src, k as int),
            forall|q: int| 0 <= q < found.len() ==> is_combination(#[trigger] found@[q]@, src, k as int)
                && completes_race(found@[q]@, total_games_played as int, top_3_wins as int, top_3_losses as int),
            found.len() == 0 ==> forall|m: int| 0 <= m < seen ==> !completes_race(
                #[trigger] all[m],
                total_games_played as int,
                top_3_wins as int,
                top_3_losses as int,
            ),
        ensures
            seen == all.len(),
            forall|q: int| 0 <= q < found.len() ==> is_combination(#[trigger] found@[q]@, src, k as int)
                && completes_race(found@[q]@, total_games_played as int, top_3_wins as int, top_3_losses as int),
            found.len() == 0 ==> forall|m: int| 0 <= m < all.len() ==> !completes_race(
                #[trigger] all[m],
                total_games_played as int,
                top_3_wins as int,
                top_3_losses as int,
            ),
        decreases all.len() - seen,
    {
        let next = next_selection(&mut stream);
        match next {
            None => {
                assert(all.subrange(seen, all.len() as int).len() == 0);
                break;
            },
            Some(c) => {
                proof {
                    assert(c@ == all[seen]);
                    assert(all.subrange(seen, all.len() as int).drop_first() =~= all.subrange(seen + 1, all.len() as int));
                }
                if combination_completes_race(&c, total_games_played, top_3_wins, top_3_losses) {
                    found.push(c);
                    proof {
                        assert(found@[found.len() - 1]@ == all[seen]);
                    }
                }
                proof {
                    seen = seen + 1;
                }
            },
        }
    }
    match choose_index(thread, found.len()) {
        None => {
            proof {
                assert forall|idx: Seq<int>|
                    #[trigger] is_index_choice(idx, src.len() as int, k as int) implies !completes_race(
                        idx.map_values(|i: int| src[i]),
                        total_games_played as int,
                        top_3_wins as int,
                        top_3_losses as int,
                    ) by {
                    assert(all.contains(idx.map_values(|i: int| src[i])));
                }
            }
            None
        },
        Some(i) => {
            let chosen = found.remove(i);
            Some(chosen)
        },
    }
}

/// Every item of a selection is an item of the source.
pub proof fn lemma_combination_items<T>(c: Seq<T>, items: Seq<T>, k: int)
    requires
        is_combination(c, items, k),
    ensures
        c.len() == k,
        forall|m: int| 0 <= m < c.len() ==> items.contains(#[trigger] c[m]),
{
    let idx = choose|idx: Seq<int>|
        #![trigger is_index_choice(idx, items.len() as int, k)]
        is_index_choice(idx, items.len() as int, k) && c == idx.map_values(|i: int| items[i]);
    assert forall|m: int| 0 <= m < c.len() implies items.contains(#[trigger] c[m]) by {
        assert(0 <= idx[m] < items.len());
        assert(c[m] == items[idx[m]]);
    }
}

} // verus!
