//! Season schedules: games grouped in series, series grouped in rounds in
//! which no team plays twice.

use vstd::prelude::*;
use std::collections::HashMap;
use vstd::multiset::Multiset;
use crate::dice::{choose_index, new_thread_rng, shuffle};
use crate::combinatorics::{ordered_pairs, pair_position, pair_first, pair_second, lemma_pair_inverse};
use crate::team::Team;

verus! {

broadcast use {
    vstd::std_specs::hash::group_hash_axioms,
    vstd::seq_lib::group_to_multiset_ensures,
    vstd::multiset::group_multiset_axioms,
};

/// One scheduled game.
#[derive(Clone, Copy, Debug, PartialEq, Eq, Structural)]
pub struct Game {
    pub home_team_id: i64,
    pub away_team_id: i64,
}

/// A game between a home team and an away team.
pub fn new_game(home_team_id: i64, away_team_id: i64) -> (r: Game)
    ensures
        r == (Game { home_team_id, away_team_id }),
{
    Game { home_team_id, away_team_id }
}

/// A short run of games between the same two teams at the same park.
#[derive(Debug)]
pub struct Series {
    pub games: Vec<Game>,
    pub home_team_id: i64,
    pub away_team_id: i64,
}

/// What a series is: its home team, its away team and its games.
pub type SeriesView = (i64, i64, Seq<Game>);

impl View for Series {
    type V = SeriesView;

    open spec fn view(&self) -> SeriesView {
        (self.home_team_id, self.away_team_id, self.games@)
    }
}

impl Clone for Series {
    fn clone(&self) -> (r: Series)
        ensures
            r@ == self@,
    {
        let mut games: Vec<Game> = Vec::new();
        let n = self.games.len();
        for i in 0..n
            invariant
                n == self.games.len(),
                games@ == self.games@.subrange(0, i as int),
        {
            games.push(self.games[i]);
        }
        Series { games, home_team_id: self.home_team_id, away_team_id: self.away_team_id }
    }
}

/// Whether team `id` plays in the series.
pub open spec fn plays_in(id: i64, s: SeriesView) -> bool {
    s.0 == id || s.1 == id
}

/// Whether two series have a team in common.
pub open spec fn share_team(a: SeriesView, b: SeriesView) -> bool {
    plays_in(a.0, b) || plays_in(a.1, b)
}

/// Whether team `id` plays in one of the series.
pub open spec fn plays_in_any(id: i64, series: Seq<SeriesView>) -> bool {
    exists|a: int| 0 <= a < series.len() && plays_in(id, #[trigger] series[a])
}

impl Series {
    /// Whether neither team of the series is among the forbidden ids.
    pub fn is_valid(&self, forbidden_numbers: &HashMap<i64, bool>) -> (r: bool)
        ensures
            r == (!forbidden_numbers@.contains_key(self.home_team_id) && !forbidden_numbers@.contains_key(
                self.away_team_id,
            )),
    {
        let home_free = forbidden_numbers.get(&self.home_team_id).is_none();
        let away_free = forbidden_numbers.get(&self.away_team_id).is_none();
        home_free && away_free
    }
}

/// A series of `series_length` games, all at the home team's park.
pub fn new_series(home_team_id: i64, away_team_id: i64, series_length: i32) -> (r: Series)
    requires
        series_length >= 0,
    ensures
        r.home_team_id == home_team_id,
        r.away_team_id == away_team_id,
        r.games.len() == series_length,
        forall|g: int| 0 <= g < series_length ==> r.games@[g] == (Game { home_team_id, away_team_id }),
{
    Series {
        games: vec![new_game(home_team_id, away_team_id); series_length as usize],
        home_team_id,
        away_team_id,
    }
}

/// A set of series played at the same time.
#[derive(Debug)]
pub struct Round {
    pub series: Vec<Series>,
}

/// The views of a sequence of series.
pub open spec fn views(s: Seq<Series>) -> Seq<SeriesView> {
    s.map_values(|x: Series| x@)
}

/// No team plays in two series of the round.
pub open spec fn round_is_disjoint(round: Seq<SeriesView>) -> bool {
    forall|a: int, b: int| 0 <= a < b < round.len() ==> !share_team(#[trigger] round[a], #[trigger] round[b])
}

/// The series shares a team with some series of the round.
pub open spec fn blocked_by(s: SeriesView, round: Seq<SeriesView>) -> bool {
    plays_in_any(s.0, round) || plays_in_any(s.1, round)
}

/// Every series of the rounds, as a multiset.
pub open spec fn schedule_multiset(rounds: Seq<Round>) -> Multiset<SeriesView>
    decreases rounds.len(),
{
    if rounds.len() == 0 {
        Multiset::empty()
    } else {
        schedule_multiset(rounds.drop_last()).add(views(rounds.last().series@).to_multiset())
    }
}

/// Every round has a series, and no team plays twice in a round.
pub open spec fn rounds_are_disjoint(rounds: Seq<Round>) -> bool {
    forall|r: int| 0 <= r < rounds.len() ==> {
        &&& (#[trigger] rounds[r]).series.len() > 0
        &&& round_is_disjoint(views(rounds[r].series@))
    }
}

/// A round is closed only when no series left could join it: every series of
/// a later round shares a team with a series of each earlier round.
pub open spec fn rounds_are_full(rounds: Seq<Round>) -> bool {
    forall|r1: int, r2: int, k: int|
        0 <= r1 < r2 < rounds.len() && 0 <= k < rounds[r2].series.len() ==> blocked_by(
            #[trigger] rounds[r2].series@[k]@,
            #[trigger] views(rounds[r1].series@),
        )
}

proof fn lemma_views_remove(s: Seq<Series>, i: int)
    requires
        0 <= i < s.len(),
    ensures
        views(s.remove(i)) == views(s).remove(i),
{
    assert(views(s.remove(i)) =~= views(s).remove(i));
}

proof fn lemma_views_push(s: Seq<Series>, x: Series)
    ensures
        views(s.push(x)) == views(s).push(x@),
{
    assert(views(s.push(x)) =~= views(s).push(x@));
}

/// Splits the series into rounds. Each round starts with a series drawn at
/// random; series that share no team with the round so far are then drawn
/// at random until none is left, and the round is closed.
pub fn new_round_generator(all_series: Vec<Series>, series_per_round: i32) -> (r: Vec<Round>)
    ensures
        rounds_are_disjoint(r@),
        rounds_are_full(r@),
        schedule_multiset(r@) == views(all_series@).to_multiset(),
{
    let ghost given = views(all_series@).to_multiset();
    let mut all_series = all_series;
    let mut thread = new_thread_rng();
    let mut result: Vec<Round> = Vec::new();
    while all_series.len() > 0
        invariant
            rounds_are_disjoint(result@),
            rounds_are_full(result@),
            schedule_multiset(result@).add(views(all_series@).to_multiset()) == given,
            forall|r: int, k: int|
                0 <= r < result.len() && 0 <= k < all_series.len() ==> blocked_by(
                    #[trigger] all_series@[k]@,
                    #[trigger] views(result@[r].series@),
                ),
        decreases all_series.len(),
    {
        let mut new_round_vec: Vec<Series> = Vec::new();
        let mut forbidden_numbers: HashMap<i64, bool> = HashMap::new();
        let first = choose_index(&mut thread, all_series.len());
        let i = match first {
            Some(i) => i,
            None => 0,
        };
        let ghost before = all_series@;
        let ghost start_len = all_series.len();
        let first_series = all_series.remove(i);
        proof {
            lemma_views_remove(before, i as int);
            lemma_views_push(new_round_vec@, first_series);
        }
        forbidden_numbers.insert(first_series.home_team_id, true);
        forbidden_numbers.insert(first_series.away_team_id, true);
        new_round_vec.push(first_series);
        proof {
            assert(views(new_round_vec@)[0] == first_series@);
            assert forall|id: i64| forbidden_numbers@.contains_key(id) <==> plays_in_any(id, views(new_round_vec@)) by {
                if plays_in_any(id, views(new_round_vec@)) {
                    let a = choose|a: int| 0 <= a < views(new_round_vec@).len() && plays_in(id, #[trigger] views(new_round_vec@)[a]);
                    assert(a == 0);
                }
                if forbidden_numbers@.contains_key(id) {
                    assert(plays_in(id, views(new_round_vec@)[0]));
                }
            }
        }
        loop
            invariant
                rounds_are_disjoint(result@),
                rounds_are_full(result@),
                new_round_vec.len() > 0,
                all_series.len() < start_len,
                round_is_disjoint(views(new_round_vec@)),
                forall|id: i64| forbidden_numbers@.contains_key(id) <==> plays_in_any(id, views(new_round_vec@)),
                schedule_multiset(result@).add(views(new_round_vec@).to_multiset()).add(
                    views(all_series@).to_multiset(),
                ) == given,
                forall|r: int, k: int|
                    0 <= r < result.len() && 0 <= k < all_series.len() ==> blocked_by(
                        #[trigger] all_series@[k]@,
                        #[trigger] views(result@[r].series@),
                    ),
                forall|r: int, k: int|
                    0 <= r < result.len() && 0 <= k < new_round_vec.len() ==> blocked_by(
                        #[trigger] new_round_vec@[k]@,
                        #[trigger] views(result@[r].series@),
                    ),
            ensures
                rounds_are_disjoint(result@),
                rounds_are_full(result@),
                new_round_vec.len() > 0,
                all_series.len() < start_len,
                round_is_disjoint(views(new_round_vec@)),
                schedule_multiset(result@).add(views(new_round_vec@).to_multiset()).add(
                    views(all_series@).to_multiset(),
                ) == given,
                forall|r: int, k: int|
                    0 <= r < result.len() && 0 <= k < all_series.len() ==> blocked_by(
                        #[trigger] all_series@[k]@,
                        #[trigger] views(result@[r].series@),
                    ),
                forall|r: int, k: int|
                    0 <= r < result.len() && 0 <= k < new_round_vec.len() ==> blocked_by(
                        #[trigger] new_round_vec@[k]@,
                        #[trigger] views(result@[r].series@),
                    ),
                forall|k: int| 0 <= k < all_series.len() ==> blocked_by(#[trigger] all_series@[k]@, views(new_round_vec@)),
            decreases all_series.len(),
        {
            let mut filtered: Vec<usize> = Vec::new();
            let n = all_series.len();
            for j in 0..n
                invariant
                    n == all_series.len(),
                    forall|m: int| 0 <= m < filtered.len() ==> #[trigger] filtered@[m] < j,
                    forall|m: int| 0 <= m < filtered.len() ==> !blocked_by(all_series@[#[trigger] filtered@[m] as int]@, views(new_round_vec@)),
                    forall|k: int| 0 <= k < j && !blocked_by(#[trigger] all_series@[k]@, views(new_round_vec@)) ==> filtered@.contains(k as usize),
                    forall|id: i64| forbidden_numbers@.contains_key(id) <==> plays_in_any(id, views(new_round_vec@)),
            {
                let ghost before_filter = filtered@;
                if all_series[j].is_valid(&forbidden_numbers) {
                    filtered.push(j);
                    proof {
                        assert forall|k: int|
                            0 <= k < j + 1 && !blocked_by(#[trigger] all_series@[k]@, views(new_round_vec@)) implies filtered@.contains(
                            k as usize,
                        ) by {
                            if k < j {
                                let m = choose|m: int| 0 <= m < before_filter.len() && before_filter[m] == k as usize;
                                assert(filtered@[m] == k as usize);
                            } else {
                                assert(filtered@[filtered.len() - 1] == k as usize);
                            }
                        }
                    }
                }
            }
            let pick = choose_index(&mut thread, filtered.len());
            let k = match pick {
                None => {
                    break;
                },
                Some(k) => k,
            };
            let index = filtered[k];
            let ghost before = all_series@;
            let ghost round_before = new_round_vec@;
            let current_series = all_series.remove(index);
            proof {
                lemma_views_remove(before, index as int);
                lemma_views_push(round_before, current_series);
            }
            forbidden_numbers.insert(current_series.home_team_id, true);
            forbidden_numbers.insert(current_series.away_team_id, true);
            new_round_vec.push(current_series);
            proof {
                let rv = views(new_round_vec@);
                assert(rv == views(round_before).push(current_series@));
                assert forall|id: i64| forbidden_numbers@.contains_key(id) <==> plays_in_any(id, rv) by {
                    if plays_in_any(id, rv) {
                        let a = choose|a: int| 0 <= a < rv.len() && plays_in(id, #[trigger] rv[a]);
                        if a < round_before.len() {
                            assert(views(round_before)[a] == rv[a]);
                        }
                    }
                    if forbidden_numbers@.contains_key(id) {
                        if id == current_series.home_team_id || id == current_series.away_team_id {
                            assert(plays_in(id, rv[rv.len() - 1]));
                        } else {
                            let a = choose|a: int| 0 <= a < views(round_before).len() && plays_in(id, #[trigger] views(round_before)[a]);
                            assert(rv[a] == views(round_before)[a]);
                        }
                    }
                }
                assert forall|a: int, b: int| 0 <= a < b < rv.len() implies !share_team(#[trigger] rv[a], #[trigger] rv[b]) by {
                    if b == rv.len() - 1 {
                        assert(rv[a] == views(round_before)[a]);
                        if share_team(rv[a], rv[b]) {
                            assert(plays_in(rv[a].0, rv[b]) || plays_in(rv[a].1, rv[b]));
                            assert(plays_in(current_series.home_team_id, rv[a]) || plays_in(current_series.away_team_id, rv[a]));
                        }
                    } else {
                        assert(rv[a] == views(round_before)[a]);
                        assert(rv[b] == views(round_before)[b]);
                    }
                }
                assert forall|r: int, k2: int|
                    0 <= r < result.len() && 0 <= k2 < new_round_vec.len() implies blocked_by(
                        #[trigger] new_round_vec@[k2]@,
                        #[trigger] views(result@[r].series@),
                    ) by {
                    if k2 < round_before.len() {
                        assert(new_round_vec@[k2] == round_before[k2]);
                    } else {
                        assert(before[index as int]@ == current_series@);
                    }
                }
                assert forall|r: int, k2: int|
                    0 <= r < result.len() && 0 <= k2 < all_series.len() implies blocked_by(
                        #[trigger] all_series@[k2]@,
                        #[trigger] views(result@[r].series@),
                    ) by {
                    if k2 < index {
                        assert(all_series@[k2] == before[k2]);
                    } else {
                        assert(all_series@[k2] == before[k2 + 1]);
                    }
                }
            }
        }
        let ghost done = result@;
        let new_round = Round { series: new_round_vec };
        result.push(new_round);
        proof {
            assert(result@.drop_last() == done);
            assert(schedule_multiset(result@) == schedule_multiset(done).add(views(new_round.series@).to_multiset()));
            assert forall|r: int| 0 <= r < result.len() implies {
                &&& (#[trigger] result@[r]).series.len() > 0
                &&& round_is_disjoint(views(result@[r].series@))
            } by {
                if r < done.len() {
                    assert(result@[r] == done[r]);
                }
            }
            assert forall|r1: int, r2: int, k: int|
                0 <= r1 < r2 < result.len() && 0 <= k < result@[r2].series.len() implies blocked_by(
                    #[trigger] result@[r2].series@[k]@,
                    #[trigger] views(result@[r1].series@),
                ) by {
                assert(result@[r1] == done[r1]);
                if r2 < done.len() {
                    assert(result@[r2] == done[r2]);
                }
            }
            assert forall|r: int, k: int|
                0 <= r < result.len() && 0 <= k < all_series.len() implies blocked_by(
                    #[trigger] all_series@[k]@,
                    #[trigger] views(result@[r].series@),
                ) by {
                if r < done.len() {
                    assert(result@[r] == done[r]);
                }
            }
        }
    }
    proof {
        assert(views(all_series@).to_multiset() =~= Multiset::empty());
    }
    result
}

/// The ids of the teams, in order.
pub open spec fn team_ids(teams: Seq<Team>) -> Seq<i64> {
    teams.map_values(|t: Team| t.team_id)
}

/// A series between two teams: `series_length` games at the home team's park.
pub open spec fn series_between(home: i64, away: i64, series_length: int) -> SeriesView {
    (home, away, Seq::new(series_length as nat, |g: int| Game { home_team_id: home, away_team_id: away }))
}

/// One series for each ordered pair of two distinct teams: every team hosts
/// every other team once. Pairs come ordered by the home team, then by the
/// away team.
pub open spec fn matchup_series(ids: Seq<i64>, series_length: int) -> Seq<SeriesView> {
    let n = ids.len() as int;
    Seq::new(
        (n * (n - 1)) as nat,
        |p: int| series_between(ids[pair_first(n, p)], ids[pair_second(n, p)], series_length),
    )
}

/// `k` copies of each item of a multiset.
pub open spec fn repeat_multiset(m: Multiset<SeriesView>, k: nat) -> Multiset<SeriesView>
    decreases k,
{
    if k == 0 {
        Multiset::empty()
    } else {
        repeat_multiset(m, (k - 1) as nat).add(m)
    }
}

/// How many times each team hosts each other team in a season with
/// `series_per_matchup` series per pair of teams: half of them, rounded down.
pub open spec fn home_series(series_per_matchup: int) -> nat {
    if series_per_matchup > 0 { (series_per_matchup / 2) as nat } else { 0 }
}

proof fn lemma_schedule_multiset_add(a: Seq<Round>, b: Seq<Round>)
    ensures
        schedule_multiset(a + b) == schedule_multiset(a).add(schedule_multiset(b)),
    decreases b.len(),
{
    if b.len() == 0 {
        assert(a + b =~= a);
        assert(schedule_multiset(a).add(Multiset::empty()) =~= schedule_multiset(a));
    } else {
        lemma_schedule_multiset_add(a, b.drop_last());
        assert((a + b).drop_last() =~= a + b.drop_last());
        assert((a + b).last() == b.last());
        assert(schedule_multiset(a + b) =~= schedule_multiset(a).add(schedule_multiset(b)));
    }
}

proof fn lemma_schedule_multiset_remove(b: Seq<Round>, j: int)
    requires
        0 <= j < b.len(),
    ensures
        schedule_multiset(b) == schedule_multiset(b.remove(j)).add(views(b[j].series@).to_multiset()),
{
    let front = b.subrange(0, j);
    let back = b.subrange(j + 1, b.len() as int);
    assert(b =~= front.push(b[j]) + back);
    assert(b.remove(j) =~= front + back);
    lemma_schedule_multiset_add(front.push(b[j]), back);
    lemma_schedule_multiset_add(front, back);
    assert(front.push(b[j]).drop_last() =~= front);
    assert(schedule_multiset(b) =~= schedule_multiset(b.remove(j)).add(views(b[j].series@).to_multiset()));
}

/// Reordering rounds keeps the series they hold.
proof fn lemma_schedule_multiset_permutation(a: Seq<Round>, b: Seq<Round>)
    requires
        a.to_multiset() == b.to_multiset(),
    ensures
        schedule_multiset(a) == schedule_multiset(b),
    decreases a.len(),
{
    if a.len() == 0 {
        assert(b.len() == b.to_multiset().len());
        assert(b =~= Seq::<Round>::empty());
    } else {
        let x = a.last();
        let a1 = a.drop_last();
        assert(a =~= a1.push(x));
        assert(a.to_multiset().count(x) > 0);
        assert(b.contains(x));
        let j = choose|j: int| 0 <= j < b.len() && b[j] == x;
        assert(b.remove(j).to_multiset() == a1.to_multiset());
        lemma_schedule_multiset_permutation(a1, b.remove(j));
        lemma_schedule_multiset_remove(b, j);
    }
}

/// `r` is made of `passes` consecutive runs of rounds, each run holding the
/// series of `block` once.
pub open spec fn in_passes(r: Seq<Round>, block: Multiset<SeriesView>, passes: nat) -> bool {
    exists|parts: Seq<Seq<Round>>|
        #![trigger parts.flatten()]
        parts.len() == passes && r == parts.flatten() && forall|b: int|
            0 <= b < parts.len() ==> schedule_multiset(#[trigger] parts[b]) == block
}

/// A season of rounds: every team hosts every other team `series_per_matchup / 2`
/// times, in series of `series_length` games. The season comes in that many
/// passes, one after the other, each holding every pairing once: the series are
/// split into rounds once per pass (see `new_round_generator`), and each pass's
/// rounds are shuffled.
pub fn new_schedule(teams: &[Team], series_length: i32, series_per_matchup: i32) -> (r: Vec<Round>)
    requires
        teams@.len() >= 2 ==> series_length >= 0,
    ensures
        rounds_are_disjoint(r@),
        schedule_multiset(r@) == repeat_multiset(
            matchup_series(team_ids(teams@), series_length as int).to_multiset(),
            home_series(series_per_matchup as int),
        ),
        in_passes(
            r@,
            matchup_series(team_ids(teams@), series_length as int).to_multiset(),
            home_series(series_per_matchup as int),
        ),
{
    let mut ids: Vec<i64> = Vec::new();
    let n = teams.len();
    for i in 0..n
        invariant
            n == teams@.len(),
            ids@ == team_ids(teams@).subrange(0, i as int),
    {
        ids.push(teams[i].team_id);
    }
    assert(ids@ == team_ids(teams@));
    let series_per_round = (n / 2) as i32;
    let ghost nn = n as int;
    let pairs = ordered_pairs(ids);
    let mut all_series: Vec<Series> = Vec::new();
    let count = pairs.len();
    for p in 0..count
        invariant
            count == pairs.len(),
            count == nn * (nn - 1),
            nn == teams@.len(),
            nn >= 2 ==> series_length >= 0,
            forall|i: int, j: int|
                0 <= i < nn && 0 <= j < nn && i != j ==> pairs@[pair_position(nn, i, j)] == (
                team_ids(teams@)[i],
                team_ids(teams@)[j],
            ),
            views(all_series@) == matchup_series(team_ids(teams@), series_length as int).subrange(0, p as int),
    {
        proof {
            assert(nn >= 2) by (nonlinear_arith)
                requires
                    0 <= p < nn * (nn - 1),
                    nn >= 0,
            ;
            lemma_pair_inverse(nn, p as int);
        }
        let (home, away) = pairs[p];
        let series = new_series(home, away, series_length);
        let ghost before = all_series@;
        all_series.push(series);
        proof {
            lemma_views_push(before, series);
            assert(series@ == series_between(home, away, series_length as int));
            assert(views(all_series@) =~= matchup_series(team_ids(teams@), series_length as int).subrange(0, p + 1));
        }
    }
    let ghost block = matchup_series(team_ids(teams@), series_length as int);
    assert(views(all_series@) =~= block);
    let mut thread = new_thread_rng();
    let mut result: Vec<Round> = Vec::new();
    let passes = series_per_matchup / 2;
    let mut pass: i32 = 0;
    assert((if passes > 0 { passes as nat } else { 0 }) == home_series(series_per_matchup as int));
    let ghost mut parts: Seq<Seq<Round>> = Seq::empty();
    assert(result@ =~= parts.flatten());
    while pass < passes
        invariant
            (if passes > 0 { passes as nat } else { 0 }) == home_series(series_per_matchup as int),
            0 <= pass,
            passes >= 0 ==> pass <= passes,
            passes < 0 ==> pass == 0,
            views(all_series@) == block,
            rounds_are_disjoint(result@),
            schedule_multiset(result@) == repeat_multiset(block.to_multiset(), pass as nat),
            parts.len() == pass,
            result@ == parts.flatten(),
            forall|b: int| 0 <= b < parts.len() ==> schedule_multiset(#[trigger] parts[b]) == block.to_multiset(),
        decreases passes - pass,
    {
        let series_clone = all_series.clone();
        assert(views(series_clone@) =~= views(all_series@)) by {
            assert forall|q: int| 0 <= q < series_clone.len() implies #[trigger] series_clone@[q]@ == all_series@[q]@ by {
                assert(cloned(all_series@[q], series_clone@[q]));
            }
        }
        let mut rounds = new_round_generator(series_clone, series_per_round);
        let ghost generated = rounds@;
        shuffle(&mut rounds, &mut thread);
        proof {
            lemma_schedule_multiset_permutation(generated, rounds@);
            assert forall|r: int| 0 <= r < rounds.len() implies {
                &&& (#[trigger] rounds@[r]).series.len() > 0
                &&& round_is_disjoint(views(rounds@[r].series@))
            } by {
                assert(rounds@.contains(rounds@[r]));
                assert(rounds@.to_multiset().count(rounds@[r]) > 0);
                assert(generated.contains(rounds@[r]));
            }
        }
        let ghost done = result@;
        let ghost added = rounds@;
        result.append(&mut rounds);
        proof {
            lemma_schedule_multiset_add(done, added);
            parts.lemma_flatten_push(added);
            parts = parts.push(added);
            assert(result@ =~= parts.flatten());
            assert forall|r: int| 0 <= r < result.len() implies {
                &&& (#[trigger] result@[r]).series.len() > 0
                &&& round_is_disjoint(views(result@[r].series@))
            } by {
                if r < done.len() {
                    assert(result@[r] == done[r]);
                } else {
                    assert(result@[r] == added[r - done.len()]);
                }
            }
        }
        pass = pass + 1;
    }
    proof {
        assert(pass as nat == home_series(series_per_matchup as int));
        assert(in_passes(result@, block.to_multiset(), pass as nat));
    }
    result
}

/// Whether a number typed for a schedule is accepted: it must be positive,
/// and even when `force_even` is set.
pub fn is_valid_number(input: i32, force_even: bool) -> (r: bool)
    ensures
        r == ((!force_even || input % 2 == 0) && input > 0),
{
    (!force_even || input % 2 == 0) && input > 0
}

/// What the user is told when a number is refused.
pub fn invalid_number_message(force_even: bool) -> (r: &'static str)
    ensures
        r@ == (if force_even {
            "\nInput must be an even positive whole number."@
        } else {
            "\nInput must be a positive whole number."@
        }),
{
    if force_even {
        "\nInput must be an even positive whole number."
    } else {
        "\nInput must be a positive whole number."
    }
}

} // verus!
