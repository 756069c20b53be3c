//! Pennant races: standings for a league as if a number of games had been
//! played, with a tight race between the top three teams.

use vstd::prelude::*;
use rand::rngs::ThreadRng;
use crate::dice::{roll, choose_index};
use crate::combinatorics::{is_pair_of, is_index_choice, is_combination, ordered_pairs, pair_position, pair_first, pair_second, lemma_pair_inverse, choose_completing_combination, lemma_combination_items};
use crate::edit_league_error::EditLeagueError;

verus! {

/// How many wins and losses a team has in the current pennant.
#[derive(Debug, Clone, Copy, PartialEq, Eq, Structural)]
pub struct PennantStanding {
    pub wins: i32,
    pub losses: i32,
}

/// The win limits of a pennant race, as the percentages of the games played
/// that the race is drawn from give them: the first place team wins between
/// `first_place_min_wins` and `first_place_max_wins` games (60% to 70% of the
/// games, rounded down), and the teams outside the top three win at least
/// `loser_minimum_wins[k]` games at the `k`-th try (50%, 45%, 40%, ... of the
/// games, rounded down, down to 0%).
pub struct PennantLimits {
    pub first_place_min_wins: i32,
    pub first_place_max_wins: i32,
    pub loser_minimum_wins: Vec<i32>,
}

pub open spec fn abs(x: int) -> int {
    if x < 0 { -x } else { x }
}

impl PennantLimits {
    /// The limits are those of a race over `games_played` games: the first
    /// place range is not empty and every limit lies between `-|games|` and `|games|`.
    pub open spec fn fits(&self, games_played: int) -> bool {
        &&& self.first_place_min_wins <= self.first_place_max_wins
        &&& -abs(games_played) <= self.first_place_min_wins
        &&& self.first_place_max_wins <= abs(games_played)
        &&& forall|k: int|
            0 <= k < self.loser_minimum_wins.len() ==> -abs(games_played)
                <= #[trigger] self.loser_minimum_wins@[k] <= abs(games_played)
    }
}

impl PennantLimits {
    /// Whether the limits are those of a race over `games_played` games.
    pub fn fits_games(&self, games_played: i32) -> (r: bool)
        ensures
            r == self.fits(games_played as int),
    {
        let g: i64 = if games_played < 0 { -(games_played as i64) } else { games_played as i64 };
        if !(self.first_place_min_wins <= self.first_place_max_wins && -g <= self.first_place_min_wins as i64
            && self.first_place_max_wins as i64 <= g) {
            return false;
        }
        let n = self.loser_minimum_wins.len();
        for k in 0..n
            invariant
                n == self.loser_minimum_wins.len(),
                g == abs(games_played as int),
                forall|j: int| 0 <= j < k ==> -g <= #[trigger] self.loser_minimum_wins@[j] <= g,
        {
            let w = self.loser_minimum_wins[k] as i64;
            if w < -g || w > g {
                return false;
            }
        }
        true
    }
}

/// Sum of `f` over a sequence of standings.
pub open spec fn sum_of(s: Seq<PennantStanding>, f: spec_fn(PennantStanding) -> int) -> int
    decreases s.len(),
{
    if s.len() == 0 {
        0
    } else {
        sum_of(s.drop_last(), f) + f(s.last())
    }
}

pub open spec fn wins_of() -> spec_fn(PennantStanding) -> int {
    |p: PennantStanding| p.wins as int
}

pub open spec fn losses_of() -> spec_fn(PennantStanding) -> int {
    |p: PennantStanding| p.losses as int
}

pub open spec fn total_wins(s: Seq<PennantStanding>) -> int {
    sum_of(s, wins_of())
}

pub open spec fn total_losses(s: Seq<PennantStanding>) -> int {
    sum_of(s, losses_of())
}

/// Standings ordered by wins, fewest first.
pub open spec fn sorted_by_wins(s: Seq<PennantStanding>) -> bool {
    forall|i: int, j: int| 0 <= i < j < s.len() ==> #[trigger] s[i].wins <= #[trigger] s[j].wins
}

pub proof fn lemma_sum_push(s: Seq<PennantStanding>, x: PennantStanding, f: spec_fn(PennantStanding) -> int)
    ensures
        sum_of(s.push(x), f) == sum_of(s, f) + f(x),
{
    assert(s.push(x).drop_last() =~= s);
}

pub proof fn lemma_sum_append(s: Seq<PennantStanding>, t: Seq<PennantStanding>, f: spec_fn(PennantStanding) -> int)
    ensures
        sum_of(s + t, f) == sum_of(s, f) + sum_of(t, f),
    decreases t.len(),
{
    if t.len() == 0 {
        assert(s + t =~= s);
    } else {
        lemma_sum_append(s, t.drop_last(), f);
        assert((s + t).drop_last() =~= s + t.drop_last());
    }
}

pub proof fn lemma_sum_insert(s: Seq<PennantStanding>, i: int, x: PennantStanding, f: spec_fn(PennantStanding) -> int)
    requires
        0 <= i <= s.len(),
    ensures
        sum_of(s.insert(i, x), f) == sum_of(s, f) + f(x),
    decreases s.len(),
{
    if i == s.len() {
        assert(s.insert(i, x) =~= s.push(x));
        lemma_sum_push(s, x, f);
    } else {
        lemma_sum_insert(s.drop_last(), i, x, f);
        assert(s.insert(i, x).drop_last() =~= s.drop_last().insert(i, x));
        assert(s.insert(i, x).last() == s.last());
    }
}

/// Sorts standings by wins, fewest first, keeping the order of standings with
/// equal wins.
pub fn sort_by_wins(v: Vec<PennantStanding>) -> (r: Vec<PennantStanding>)
    ensures
        r@.to_multiset() == v@.to_multiset(),
        r.len() == v.len(),
        sorted_by_wins(r@),
        total_wins(r@) == total_wins(v@),
        total_losses(r@) == total_losses(v@),
        forall|i: int| 0 <= i < r.len() ==> v@.contains(#[trigger] r@[i]),
{
    let mut out: Vec<PennantStanding> = Vec::new();
    let n = v.len();
    proof {
        assert(v@.take(0) =~= Seq::<PennantStanding>::empty());
        assert(out@ =~= Seq::<PennantStanding>::empty());
    }
    for i in 0..n
        invariant
            n == v.len(),
            out.len() == i,
            sorted_by_wins(out@),
            out@.to_multiset() == v@.take(i as int).to_multiset(),
            total_wins(out@) == total_wins(v@.take(i as int)),
            total_losses(out@) == total_losses(v@.take(i as int)),
            forall|k: int| 0 <= k < out.len() ==> v@.contains(#[trigger] out@[k]),
    {
        let x = v[i];
        let mut pos = out.len();
        while pos > 0 && out[pos - 1].wins > x.wins
            invariant
                pos <= out.len(),
                forall|k: int| pos <= k < out.len() ==> #[trigger] out@[k].wins > x.wins,
            decreases pos,
        {
            pos = pos - 1;
        }
        proof {
            assert(v@.take(i + 1) =~= v@.take(i as int).push(x));
            vstd::seq_lib::to_multiset_build(v@.take(i as int), x);
            vstd::seq_lib::to_multiset_insert(out@, pos as int, x);
            lemma_sum_insert(out@, pos as int, x, wins_of());
            lemma_sum_insert(out@, pos as int, x, losses_of());
            lemma_sum_push(v@.take(i as int), x, wins_of());
            lemma_sum_push(v@.take(i as int), x, losses_of());
            assert(v@.contains(v@[i as int]));
        }
        let ghost old_out = out@;
        out.insert(pos, x);
        proof {
            assert forall|a: int, b: int| 0 <= a < b < out.len() implies #[trigger] out@[a].wins
                <= #[trigger] out@[b].wins by {
                if b < pos {
                } else if b == pos {
                    if a < pos {
                        assert(out@[a] == old_out[a]);
                    }
                } else if a < pos {
                    assert(out@[b] == old_out[b - 1]);
                    assert(out@[a] == old_out[a]);
                    if pos > 0 {
                        assert(old_out[a].wins <= old_out[pos - 1].wins || a == pos - 1);
                    }
                } else if a == pos {
                    assert(out@[b] == old_out[b - 1]);
                } else {
                    assert(out@[b] == old_out[b - 1]);
                    assert(out@[a] == old_out[a - 1]);
                }
            }
            assert forall|k: int| 0 <= k < out.len() implies v@.contains(#[trigger] out@[k]) by {
                if k < pos {
                    assert(out@[k] == old_out[k]);
                } else if k > pos {
                    assert(out@[k] == old_out[k - 1]);
                }
            }
        }
    }
    proof {
        assert(v@.take(n as int) =~= v@);
    }
    out
}

/// A standing that may belong to a team outside the top three: it adds up to
/// the games played, has at most `max_losses` losses, and (being drawn from
/// two distinct values of the range of wins) is not an even record.
pub open spec fn loser_candidate(p: (i32, i32), games_played: int, minimum_wins: int, max_other_wins: int) -> bool {
    &&& minimum_wins <= p.0 <= max_other_wins
    &&& minimum_wins <= p.1 <= max_other_wins
    &&& p.0 != p.1
    &&& p.1 <= games_played - minimum_wins
    &&& p.0 + p.1 == games_played
}

/// How many values `minimum_wins..=max_other_wins` holds.
pub open spec fn wins_range_len(minimum_wins: int, max_other_wins: int) -> int {
    if minimum_wins <= max_other_wins { max_other_wins - minimum_wins + 1 } else { 0 }
}

/// The ordered pairs of two distinct values of `minimum_wins..=max_other_wins`,
/// ordered by the first value and then the second.
pub open spec fn win_loss_pairs(minimum_wins: int, max_other_wins: int) -> Seq<(i32, i32)> {
    let n = wins_range_len(minimum_wins, max_other_wins);
    Seq::new(
        (n * (n - 1)) as nat,
        |p: int| ((minimum_wins + pair_first(n, p)) as i32, (minimum_wins + pair_second(n, p)) as i32),
    )
}

/// The candidate standings of a try: the pairs of `win_loss_pairs` that add up
/// to the games played and give at most `games_played - minimum_wins` losses,
/// in the same order.
pub open spec fn loser_candidate_list(games_played: int, minimum_wins: int, max_other_wins: int) -> Seq<(i32, i32)> {
    win_loss_pairs(minimum_wins, max_other_wins).filter(fits_loser_pair(games_played, minimum_wins))
}

/// A pair adds up to the games played and gives at most
/// `games_played - minimum_wins` losses.
pub open spec fn fits_loser_pair(games_played: int, minimum_wins: int) -> spec_fn((i32, i32)) -> bool {
    |x: (i32, i32)| x.1 <= games_played - minimum_wins && x.0 + x.1 == games_played
}

/// Some selection of `k` of `items`, kept in their order, completes the race.
pub open spec fn has_completion(items: Seq<(i32, i32)>, k: int, total_games_played: int, top_3_wins: int, top_3_losses: int) -> bool {
    exists|idx: Seq<int>|
        #![trigger is_index_choice(idx, items.len() as int, k)]
        is_index_choice(idx, items.len() as int, k) && completes_race(
            idx.map_values(|i: int| items[i]),
            total_games_played,
            top_3_wins,
            top_3_losses,
        )
}

/// The candidate standings of try `t`, made with the minimum wins of that try.
pub open spec fn try_candidates(games_played: int, loser_minimum_wins: Seq<i32>, t: int, max_other_wins: int) -> Seq<(i32, i32)> {
    loser_candidate_list(games_played, loser_minimum_wins[t] as int, max_other_wins)
}

/// `v` holds, in some order, the standings of a selection of `k` of `items`
/// that completes the race.
pub open spec fn drawn_from(v: Seq<PennantStanding>, items: Seq<(i32, i32)>, k: int, total_games_played: int, top_3_wins: int, top_3_losses: int) -> bool {
    exists|c: Seq<(i32, i32)>|
        #![trigger is_combination(c, items, k)]
        is_combination(c, items, k) && completes_race(c, total_games_played, top_3_wins, top_3_losses)
            && v.to_multiset() == c.map_values(|p: (i32, i32)| standing_of(p)).to_multiset()
}

pub open spec fn pair_wins(c: Seq<(i32, i32)>) -> int
    decreases c.len(),
{
    if c.len() == 0 {
        0
    } else {
        pair_wins(c.drop_last()) + c.last().0
    }
}

pub open spec fn pair_losses(c: Seq<(i32, i32)>) -> int
    decreases c.len(),
{
    if c.len() == 0 {
        0
    } else {
        pair_losses(c.drop_last()) + c.last().1
    }
}

/// A choice of the other teams' standings completes the race: with the top
/// three, the wins and the losses of the league balance and make up the games
/// played by all teams.
pub open spec fn completes_race(c: Seq<(i32, i32)>, total_games_played: int, top_3_wins: int, top_3_losses: int) -> bool {
    let w = pair_wins(c) + top_3_wins;
    let l = pair_losses(c) + top_3_losses;
    w == l && w == total_games_played
}

/// Whether a choice of standings completes the race (see `completes_race`).
pub fn combination_completes_race(c: &Vec<(i32, i32)>, total_games_played: i32, top_3_wins: i64, top_3_losses: i64) -> (r: bool)
    ensures
        r == completes_race(c@, total_games_played as int, top_3_wins as int, top_3_losses as int),
{
    let mut w: i128 = 0;
    let mut l: i128 = 0;
    let n = c.len();
    for m in 0..n
        invariant
            n == c.len(),
            w == pair_wins(c@.take(m as int)),
            l == pair_losses(c@.take(m as int)),
            -(m * 2147483648) <= w <= m * 2147483648,
            -(m * 2147483648) <= l <= m * 2147483648,
    {
        proof {
            assert(c@.take(m + 1).drop_last() =~= c@.take(m as int));
            assert(c@.take(m + 1).last() == c@[m as int]);
        }
        w = w + c[m].0 as i128;
        l = l + c[m].1 as i128;
    }
    assert(c@.take(n as int) =~= c@);
    let total_w = w + top_3_wins as i128;
    let total_l = l + top_3_losses as i128;
    total_w == total_l && total_w == total_games_played as i128
}

pub open spec fn standing_of(p: (i32, i32)) -> PennantStanding {
    PennantStanding { wins: p.0, losses: p.1 }
}

pub proof fn lemma_pair_sums(c: Seq<(i32, i32)>)
    ensures
        total_wins(c.map_values(|p: (i32, i32)| standing_of(p))) == pair_wins(c),
        total_losses(c.map_values(|p: (i32, i32)| standing_of(p))) == pair_losses(c),
    decreases c.len(),
{
    if c.len() > 0 {
        lemma_pair_sums(c.drop_last());
        assert(c.map_values(|p: (i32, i32)| standing_of(p)).drop_last() =~= c.drop_last().map_values(
            |p: (i32, i32)| standing_of(p),
        ));
    }
}

/// Sums the wins and the losses of a choice of standings, checking that they
/// stay within `bound` in size on the way.
fn sum_pairs(c: &Vec<(i32, i32)>, bound: i64) -> (r: (i64, i64))
    requires
        0 <= bound <= 1_000_000_000,
        c.len() <= 1_000_000_000,
        forall|m: int| 0 <= m < c.len() ==> -bound <= (#[trigger] c@[m]).0 <= bound && -bound <= c@[m].1 <= bound,
    ensures
        r.0 == pair_wins(c@),
        r.1 == pair_losses(c@),
        -(bound * c.len()) <= r.0 <= bound * c.len(),
        -(bound * c.len()) <= r.1 <= bound * c.len(),
{
    let mut w: i64 = 0;
    let mut l: i64 = 0;
    let n = c.len();
    for m in 0..n
        invariant
            n == c.len(),
            0 <= bound <= 1_000_000_000,
            n <= 1_000_000_000,
            forall|q: int| 0 <= q < c.len() ==> -bound <= (#[trigger] c@[q]).0 <= bound && -bound <= c@[q].1 <= bound,
            w == pair_wins(c@.take(m as int)),
            l == pair_losses(c@.take(m as int)),
            -(bound * m) <= w <= bound * m,
            -(bound * m) <= l <= bound * m,
    {
        let x = c[m].0;
        let y = c[m].1;
        proof {
            assert(c@.take(m + 1).drop_last() =~= c@.take(m as int));
            assert(c@.take(m + 1).last() == c@[m as int]);
            assert(bound * m + bound == bound * (m + 1)) by (nonlinear_arith);
            assert(bound * (m + 1) <= 1_000_000_000_000_000_000) by (nonlinear_arith)
                requires 0 <= bound <= 1_000_000_000, m + 1 <= 1_000_000_000;
        }
        w = w + x as i64;
        l = l + y as i64;
    }
    proof {
        assert(c@.take(n as int) =~= c@);
    }
    (w, l)
}

/// The standings of the teams outside the top three that a try with
/// `minimum_wins` draws from: the ordered pairs of distinct values of
/// `minimum_wins..=max_other_wins` that add up to the games played and give at
/// most `games_played - minimum_wins` losses.
fn loser_candidates(games_played: i32, minimum_wins: i32, max_other_wins: i32) -> (r: Vec<(i32, i32)>)
    ensures
        r@ == loser_candidate_list(games_played as int, minimum_wins as int, max_other_wins as int),
        forall|m: int| 0 <= m < r.len() ==> loser_candidate(#[trigger] r@[m], games_played as int, minimum_wins as int, max_other_wins as int),
{
    let max_losses: i64 = games_played as i64 - minimum_wins as i64;
    let mut range: Vec<i64> = Vec::new();
    let mut w: i64 = minimum_wins as i64;
    while w <= max_other_wins as i64
        invariant
            minimum_wins <= w,
            w <= max_other_wins + 1 || w == minimum_wins,
            range.len() == w - minimum_wins,
            forall|k: int| 0 <= k < range.len() ==> #[trigger] range@[k] == minimum_wins + k,
        decreases max_other_wins as int + 1 - w,
    {
        range.push(w);
        w = w + 1;
    }
    assert(forall|k: int| 0 <= k < range.len() ==> minimum_wins <= #[trigger] range@[k] <= max_other_wins);
    assert(range.len() == wins_range_len(minimum_wins as int, max_other_wins as int));
    let ghost rg = range@;
    let ghost nn = rg.len() as int;
    let ghost all = win_loss_pairs(minimum_wins as int, max_other_wins as int);
    let ghost fits = fits_loser_pair(games_played as int, minimum_wins as int);
    let pairs = ordered_pairs(range);
    let mut out: Vec<(i32, i32)> = Vec::new();
    let n = pairs.len();
    proof {
        assert(nn * (nn - 1) >= 0) by (nonlinear_arith)
            requires
                nn >= 0,
        ;
        reveal(Seq::filter);
        assert(all.take(0) =~= Seq::<(i32, i32)>::empty());
        assert(all.take(0).filter(fits) =~= Seq::<(i32, i32)>::empty());
    }
    for p in 0..n
        invariant
            n == pairs.len(),
            n == nn * (nn - 1),
            nn == rg.len(),
            nn == wins_range_len(minimum_wins as int, max_other_wins as int),
            all == win_loss_pairs(minimum_wins as int, max_other_wins as int),
            all.len() == n,
            fits == fits_loser_pair(games_played as int, minimum_wins as int),
            max_losses == games_played as i64 - minimum_wins as i64,
            forall|k: int| 0 <= k < rg.len() ==> #[trigger] rg[k] == minimum_wins + k,
            forall|k: int| 0 <= k < rg.len() ==> minimum_wins <= #[trigger] rg[k] <= max_other_wins,
            forall|q: int| 0 <= q < pairs.len() ==> is_pair_of(#[trigger] pairs@[q], rg),
            forall|i: int, j: int|
                0 <= i < nn && 0 <= j < nn && i != j ==> pairs@[pair_position(nn, i, j)] == (rg[i], rg[j]),
            out@ == all.take(p as int).filter(fits),
            forall|m: int| 0 <= m < out.len() ==> loser_candidate(#[trigger] out@[m], games_played as int, minimum_wins as int, max_other_wins as int),
    {
        let (a, b) = pairs[p];
        proof {
            assert(nn >= 2) by (nonlinear_arith)
                requires
                    0 <= p < nn * (nn - 1),
                    nn >= 0,
            ;
            lemma_pair_inverse(nn, p as int);
            let i = pair_first(nn, p as int);
            let j = pair_second(nn, p as int);
            assert(pairs@[p as int] == (rg[i], rg[j]));
            assert(rg[i] == minimum_wins + i);
            assert(rg[j] == minimum_wins + j);
            assert(all[p as int] == (a as i32, b as i32));
        }
        let a32 = a as i32;
        let b32 = b as i32;
        let ghost before = out@;
        if (b <= max_losses) && (a + b == games_played as i64) {
            out.push((a32, b32));
        }
        proof {
            reveal(Seq::filter);
            assert(all.take(p + 1).drop_last() =~= all.take(p as int));
            assert(all.take(p + 1).last() == (a32, b32));
            if (b <= max_losses) && (a + b == games_played as i64) {
                assert(out@ =~= all.take(p + 1).filter(fits));
            } else {
                assert(out@ =~= all.take(p + 1).filter(fits));
            }
        }
    }
    proof {
        assert(all.take(n as int) =~= all);
    }
    out
}

/// The standings of the teams outside the top three, fewest wins first: at each
/// try, with the minimum wins of that try, a random choice among the selections
/// of `standings_needed` candidates that complete the race. `None` when no try
/// finds one.
pub fn generate_losers(
    games_played: i32,
    total_games_played: i32,
    standings_needed: usize,
    top_3_wins: i64,
    top_3_losses: i64,
    thread: &mut ThreadRng,
    max_other_wins: i32,
    loser_minimum_wins: &Vec<i32>,
) -> (r: Option<Vec<PennantStanding>>)
    ensures
        r matches Some(v) ==> {
            &&& v.len() == standings_needed
            &&& sorted_by_wins(v@)
            &&& total_wins(v@) + top_3_wins == total_games_played
            &&& total_losses(v@) + top_3_losses == total_games_played
            &&& forall|i: int| 0 <= i < v.len() ==> {
                &&& (#[trigger] v@[i]).wins + v@[i].losses == games_played
                &&& v@[i].wins <= max_other_wins
                &&& v@[i].wins != v@[i].losses
            }
        },
        r is None <==> forall|t: int| 0 <= t < loser_minimum_wins.len() ==> !has_completion(
            #[trigger] try_candidates(games_played as int, loser_minimum_wins@, t, max_other_wins as int),
            standings_needed as int,
            total_games_played as int,
            top_3_wins as int,
            top_3_losses as int,
        ),
        r matches Some(v) ==> exists|t: int|
            #![trigger try_candidates(games_played as int, loser_minimum_wins@, t, max_other_wins as int)]
            0 <= t < loser_minimum_wins.len() && (forall|u: int| 0 <= u < t ==> !has_completion(
                #[trigger] try_candidates(games_played as int, loser_minimum_wins@, u, max_other_wins as int),
                standings_needed as int,
                total_games_played as int,
                top_3_wins as int,
                top_3_losses as int,
            )) && drawn_from(
                v@,
                try_candidates(games_played as int, loser_minimum_wins@, t, max_other_wins as int),
                standings_needed as int,
                total_games_played as int,
                top_3_wins as int,
                top_3_losses as int,
            ),
{
    let tries = loser_minimum_wins.len();
    for t in 0..tries
        invariant
            tries == loser_minimum_wins.len(),
            forall|u: int| 0 <= u < t ==> !has_completion(
                #[trigger] try_candidates(games_played as int, loser_minimum_wins@, u, max_other_wins as int),
                standings_needed as int,
                total_games_played as int,
                top_3_wins as int,
                top_3_losses as int,
            ),
    {
        let minimum_wins = loser_minimum_wins[t];
        let candidates = loser_candidates(games_played, minimum_wins, max_other_wins);
        let ghost cand = candidates@;
        let pick = choose_completing_combination(
            candidates,
            standings_needed,
            total_games_played,
            top_3_wins,
            top_3_losses,
            thread,
        );
        match pick {
            None => {
                proof {
                    assert(cand == try_candidates(games_played as int, loser_minimum_wins@, t as int, max_other_wins as int));
                    if has_completion(cand, standings_needed as int, total_games_played as int, top_3_wins as int, top_3_losses as int) {
                        let idx = choose|idx: Seq<int>|
                            #![trigger is_index_choice(idx, cand.len() as int, standings_needed as int)]
                            is_index_choice(idx, cand.len() as int, standings_needed as int) && completes_race(
                                idx.map_values(|i: int| cand[i]),
                                total_games_played as int,
                                top_3_wins as int,
                                top_3_losses as int,
                            );
                        assert(false);
                    }
                }
            },
            Some(chosen) => {
                proof {
                    lemma_combination_items(chosen@, cand, standings_needed as int);
                }
                let mut standings: Vec<PennantStanding> = Vec::new();
                let k = chosen.len();
                for m in 0..k
                    invariant
                        k == chosen.len(),
                        standings@ == chosen@.take(m as int).map_values(|p: (i32, i32)| standing_of(p)),
                {
                    standings.push(PennantStanding { wins: chosen[m].0, losses: chosen[m].1 });
                    proof {
                        assert(chosen@.take(m + 1) =~= chosen@.take(m as int).push(chosen@[m as int]));
                        assert(standings@ =~= chosen@.take(m + 1).map_values(|p: (i32, i32)| standing_of(p)));
                    }
                }
                proof {
                    assert(chosen@.take(k as int) =~= chosen@);
                    lemma_pair_sums(chosen@);
                }
                let sorted = sort_by_wins(standings);
                proof {
                    assert forall|q: int| 0 <= q < sorted.len() implies {
                        &&& (#[trigger] sorted@[q]).wins + sorted@[q].losses == games_played
                        &&& sorted@[q].wins <= max_other_wins
                        &&& sorted@[q].wins != sorted@[q].losses
                    } by {
                        let m = choose|m: int| 0 <= m < standings.len() && standings@[m] == sorted@[q];
                        assert(cand.contains(chosen@[m]));
                        assert(loser_candidate(chosen@[m], games_played as int, minimum_wins as int, max_other_wins as int));
                    }
                }
                proof {
                    let ghost tc = try_candidates(games_played as int, loser_minimum_wins@, t as int, max_other_wins as int);
                    assert(cand == tc);
                    assert(sorted@.to_multiset() == chosen@.map_values(|p: (i32, i32)| standing_of(p)).to_multiset());
                    assert(is_combination(chosen@, tc, standings_needed as int));
                    assert(drawn_from(sorted@, tc, standings_needed as int, total_games_played as int, top_3_wins as int, top_3_losses as int));
                    let idx = choose|idx: Seq<int>|
                        #![trigger is_index_choice(idx, tc.len() as int, standings_needed as int)]
                        is_index_choice(idx, tc.len() as int, standings_needed as int) && chosen@ == idx.map_values(|i: int| tc[i]);
                    assert(has_completion(tc, standings_needed as int, total_games_played as int, top_3_wins as int, top_3_losses as int));
                }
                return Some(sorted);
            },
        }
    }
    None
}

/// The standings of the top three teams, third place first: the first place
/// team's record, the second place team `second_games_behind` wins behind it,
/// and the third place team `third_games_behind` wins behind the second.
pub fn top_three_standings(first_wins: i32, first_losses: i32, second_games_behind: i32, third_games_behind: i32) -> (r: Vec<PennantStanding>)
    requires
        i32::MIN + second_games_behind + third_games_behind <= first_wins,
        first_losses + second_games_behind + third_games_behind <= i32::MAX,
        0 <= second_games_behind <= 3,
        0 <= third_games_behind <= 3,
    ensures
        r@ == seq![
            PennantStanding { wins: (first_wins - second_games_behind - third_games_behind) as i32, losses: (first_losses + second_games_behind + third_games_behind) as i32 },
            PennantStanding { wins: (first_wins - second_games_behind) as i32, losses: (first_losses + second_games_behind) as i32 },
            PennantStanding { wins: first_wins, losses: first_losses },
        ],
{
    let second_wins = first_wins - second_games_behind;
    let second_losses = first_losses + second_games_behind;
    let third_wins = second_wins - third_games_behind;
    let third_losses = second_losses + third_games_behind;
    vec![
        PennantStanding { wins: third_wins, losses: third_losses },
        PennantStanding { wins: second_wins, losses: second_losses },
        PennantStanding { wins: first_wins, losses: first_losses },
    ]
}

/// What a generated race guarantees: one standing per team, each adding up to
/// the games played; the wins and the losses of the league balance and make up
/// all games played; the top three come last, third place first, one to three
/// wins apart from one to the next, with the first place team inside its limits;
/// the others come first, fewest wins first, each below third place and none
/// with an even record.
pub open spec fn valid_race(v: Seq<PennantStanding>, games_played: int, total_teams: int, limits: PennantLimits) -> bool {
    let n = v.len() as int;
    &&& n == total_teams
    &&& forall|i: int| 0 <= i < n ==> (#[trigger] v[i]).wins + v[i].losses == games_played
    &&& total_wins(v) == total_losses(v)
    &&& total_wins(v) == (total_teams / 2) * games_played
    &&& limits.first_place_min_wins <= v[n - 1].wins <= limits.first_place_max_wins
    &&& v[n - 1].wins - 3 <= v[n - 2].wins <= v[n - 1].wins - 1
    &&& v[n - 2].wins - 3 <= v[n - 3].wins <= v[n - 2].wins - 1
    &&& sorted_by_wins(v.take(n - 3))
    &&& forall|i: int| 0 <= i < n - 3 ==> (#[trigger] v[i]).wins < v[n - 3].wins && v[i].wins != v[i].losses
}

/// Where the teams outside the top three come from: the first try, in the
/// order of `limits.loser_minimum_wins`, whose candidates (below third place)
/// hold a selection that completes the race; they are such a selection.
pub open spec fn losers_from_first_try(v: Seq<PennantStanding>, games_played: int, total_teams: int, limits: PennantLimits) -> bool {
    let n = v.len() as int;
    let top = v.subrange(n - 3, n);
    let total = (total_teams / 2) * games_played;
    let max_other = v[n - 3].wins - 1;
    let lmw = limits.loser_minimum_wins@;
    exists|t: int|
        #![trigger try_candidates(games_played, lmw, t, max_other)]
        0 <= t < lmw.len() && (forall|u: int| 0 <= u < t ==> !has_completion(
            #[trigger] try_candidates(games_played, lmw, u, max_other),
            n - 3,
            total,
            total_wins(top),
            total_losses(top),
        )) && drawn_from(
            v.take(n - 3),
            try_candidates(games_played, lmw, t, max_other),
            n - 3,
            total,
            total_wins(top),
            total_losses(top),
        )
}

pub open spec fn pennant_error_message() -> Seq<char> {
    "Unable to generate a pennant race with the current setup, try altering the number of teams and/or games"@
}

/// Generates the standings of a pennant race of `total_teams` teams that have
/// each played `games_played` games: the second place team one to three games
/// behind the first, the third one to three behind the second. Up to a hundred
/// tries are made; if none succeeds, the error says so. The games of the whole
/// league, `total_teams / 2` times `games_played`, are counted in an `i32`.
pub fn generate_pennant_standings(
    games_played: i32,
    thread: &mut ThreadRng,
    total_teams: i32,
    limits: &PennantLimits,
) -> (r: Result<Vec<PennantStanding>, EditLeagueError>)
    requires
        limits.fits(games_played as int),
        total_teams >= 3 ==> i32::MIN <= (total_teams / 2) * games_played <= i32::MAX,
        total_teams >= 3 ==> 2 * abs(games_played as int) + 6 <= i32::MAX,
    ensures
        r matches Ok(v) ==> valid_race(v@, games_played as int, total_teams as int, *limits),
        r matches Ok(v) ==> losers_from_first_try(v@, games_played as int, total_teams as int, *limits),
        r matches Err(e) ==> (e matches EditLeagueError::PennantError(m) && m@ == pennant_error_message()),
        total_teams < 3 ==> r is Err,
{
    let message = "Unable to generate a pennant race with the current setup, try altering the number of teams and/or games";
    if total_teams < 3 {
        return Err(EditLeagueError::PennantError(String::from_str(message)));
    }
    let total_games_played: i32 = (total_teams / 2) * games_played;
    let standings_needed: usize = (total_teams - 3) as usize;
    let mut tries: u32 = 0;
    while tries < 100
        invariant
            limits.fits(games_played as int),
            3 <= total_teams,
            standings_needed == total_teams - 3,
            total_games_played == (total_teams / 2) * games_played,
            2 * abs(games_played as int) + 6 <= i32::MAX,
            message@ == pennant_error_message(),
        decreases 100 - tries,
    {
        tries = tries + 1;
        let first_wins = roll(thread, limits.first_place_min_wins, limits.first_place_max_wins);
        let first_losses = games_played - first_wins;
        let second_games_behind = roll(thread, 1, 3);
        let third_games_behind = roll(thread, 1, 3);
        let mut top_3 = top_three_standings(first_wins, first_losses, second_games_behind, third_games_behind);
        let third_wins = top_3[0].wins;
        let top_3_wins = top_3[0].wins as i64 + top_3[1].wins as i64 + top_3[2].wins as i64;
        let top_3_losses = top_3[0].losses as i64 + top_3[1].losses as i64 + top_3[2].losses as i64;
        let max_other_wins = third_wins - 1;
        let losers = generate_losers(
            games_played,
            total_games_played,
            standings_needed,
            top_3_wins,
            top_3_losses,
            thread,
            max_other_wins,
            &limits.loser_minimum_wins,
        );
        if let Some(mut standings) = losers {
            let ghost low = standings@;
            let ghost top = top_3@;
            standings.append(&mut top_3);
            proof {
                assert(standings@ =~= low + top);
                lemma_sum_append(low, top, wins_of());
                lemma_sum_append(low, top, losses_of());
                assert(top.drop_last().drop_last().drop_last() =~= Seq::<PennantStanding>::empty());
                reveal_with_fuel(sum_of, 4);
                assert(total_wins(top) == top_3_wins);
                assert(total_losses(top) == top_3_losses);
                let n = standings.len() as int;
                assert(standings@.take(n - 3) =~= low);
                assert(standings@[n - 3] == top[0]);
                assert(standings@[n - 2] == top[1]);
                assert(standings@[n - 1] == top[2]);
                assert forall|i: int| 0 <= i < n implies (#[trigger] standings@[i]).wins + standings@[i].losses == games_played by {
                    if i < n - 3 {
                        assert(standings@[i] == low[i]);
                    }
                }
                assert forall|i: int| 0 <= i < n - 3 implies (#[trigger] standings@[i]).wins < standings@[n - 3].wins && standings@[i].wins != standings@[i].losses by {
                    assert(standings@[i] == low[i]);
                }
                let v = standings@;
                let lmw = limits.loser_minimum_wins@;
                assert(v.subrange(n - 3, n) =~= top);
                assert(max_other_wins == v[n - 3].wins - 1);
                let t = choose|t: int|
                    #![trigger try_candidates(games_played as int, lmw, t, max_other_wins as int)]
                    0 <= t < lmw.len() && (forall|u: int| 0 <= u < t ==> !has_completion(
                        #[trigger] try_candidates(games_played as int, lmw, u, max_other_wins as int),
                        standings_needed as int,
                        total_games_played as int,
                        top_3_wins as int,
                        top_3_losses as int,
                    )) && drawn_from(
                        low,
                        try_candidates(games_played as int, lmw, t, max_other_wins as int),
                        standings_needed as int,
                        total_games_played as int,
                        top_3_wins as int,
                        top_3_losses as int,
                    );
                assert(losers_from_first_try(v, games_played as int, total_teams as int, *limits));
            }
            return Ok(standings);
        }
    }
    Err(EditLeagueError::PennantError(String::from_str(message)))
}

} // verus!
