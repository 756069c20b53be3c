//! Teams: a starting lineup, a bench, a pitching rotation and, in the Modern
//! era, a bullpen; and the team score that sums up how good they are.

use vstd::prelude::*;
use rand::rngs::ThreadRng;
use crate::era::Era;
use crate::note::{Notable, Note};
use crate::player::{Player, PlayerGender, Hand, team_score_contribution, error_free, leadoff_score, pitcher_rank, player_text};
use crate::ranking::{RankKey, RankKeyView, ranked_lines, ranked_text, key_views, law_ranked_lines_ignore_order};
use crate::text::{int_text, int_to_string};
use crate::traits::PlayerTrait;
use crate::player_quality::{BatterQuality, PitcherQuality, PlayerQuality, generated};
use crate::position::PlayerPosition;
use crate::text::str_eq;

verus! {

#[derive(Debug)]
pub struct Team {
    pub abrv: String,
    pub name: String,
    pub lineup: Vec<Player>,
    pub bench: Vec<Player>,
    pub starting_pitching: Vec<Player>,
    pub bullpen: Option<Vec<Player>>,
    pub team_score: i32,
    pub wins: i32,
    pub losses: i32,
    pub team_id: i64,
    pub note: Note,
}

/// The sum of what players add to the team score.
pub open spec fn contribution_sum(s: Seq<Player>) -> int
    decreases s.len(),
{
    if s.len() == 0 {
        0
    } else {
        contribution_sum(s.drop_last()) + team_score_contribution(s.last())
    }
}

/// Every partial sum of the contributions, from the first player on, fits in
/// an `i32`.
pub open spec fn sums_fit(s: Seq<Player>) -> bool {
    forall|k: int| 0 <= k <= s.len() ==> i32::MIN <= #[trigger] contribution_sum(s.take(k)) <= i32::MAX
}

/// Integer division rounding toward zero, as Rust divides.
pub open spec fn trunc_div(a: int, b: int) -> int {
    if a >= 0 {
        a / b
    } else {
        -((-a) / b)
    }
}

/// The pitchers of a team: the rotation, and the bullpen if there is one.
pub open spec fn pitching_sum(t: Team) -> int {
    contribution_sum(t.starting_pitching@) + match t.bullpen {
        Some(pen) => contribution_sum(pen@),
        None => 0,
    }
}

/// The team score: the batters' batting targets, plus seven times the
/// pitchers' pitch die numbers, divided by ten.
pub open spec fn team_score_of(t: Team) -> int {
    trunc_div(contribution_sum(t.lineup@) + contribution_sum(t.bench@) + 7 * pitching_sum(t), 10)
}

/// The sums that go into the team score all fit in an `i32`.
pub open spec fn team_score_fits(t: Team) -> bool {
    &&& sums_fit(t.lineup@)
    &&& sums_fit(t.bench@)
    &&& sums_fit(t.starting_pitching@)
    &&& (t.bullpen matches Some(pen) ==> sums_fit(pen@))
    &&& i32::MIN <= contribution_sum(t.lineup@) + contribution_sum(t.bench@) <= i32::MAX
    &&& i32::MIN <= pitching_sum(t) <= i32::MAX
    &&& i32::MIN <= 7 * pitching_sum(t) <= i32::MAX
    &&& i32::MIN <= contribution_sum(t.lineup@) + contribution_sum(t.bench@) + 7 * pitching_sum(t)
        <= i32::MAX
}

/// A player's contribution lies between `-20` and `1000`.
pub open spec fn modest(p: Player) -> bool {
    -20 <= team_score_contribution(p) <= 1000
}

pub proof fn lemma_contribution_sum_bounds(s: Seq<Player>)
    requires
        forall|i: int| 0 <= i < s.len() ==> modest(#[trigger] s[i]),
    ensures
        -20 * s.len() <= contribution_sum(s) <= 1000 * s.len(),
    decreases s.len(),
{
    if s.len() > 0 {
        assert forall|i: int| 0 <= i < s.drop_last().len() implies modest(#[trigger] s.drop_last()[i]) by {
            assert(s.drop_last()[i] == s[i]);
        }
        lemma_contribution_sum_bounds(s.drop_last());
        assert(modest(s[s.len() - 1]));
    }
}

pub proof fn lemma_modest_sums_fit(s: Seq<Player>)
    requires
        s.len() <= 1_000_000,
        forall|i: int| 0 <= i < s.len() ==> modest(#[trigger] s[i]),
    ensures
        sums_fit(s),
        -20 * s.len() <= contribution_sum(s) <= 1000 * s.len(),
{
    assert forall|k: int| 0 <= k <= s.len() implies i32::MIN <= #[trigger] contribution_sum(s.take(k)) <= i32::MAX by {
        assert forall|i: int| 0 <= i < s.take(k).len() implies modest(#[trigger] s.take(k)[i]) by {
            assert(s.take(k)[i] == s[i]);
        }
        lemma_contribution_sum_bounds(s.take(k));
    }
    lemma_contribution_sum_bounds(s);
}

/// Whether every partial sum of the players' contributions fits in an `i32`.
fn sums_fit_check(vec: &Vec<Player>) -> (r: bool)
    ensures
        r == sums_fit(vec@),
{
    let mut sum: i64 = 0;
    let n = vec.len();
    assert(vec@.take(0) =~= Seq::<Player>::empty());
    for i in 0..n
        invariant
            n == vec.len(),
            sum == contribution_sum(vec@.take(i as int)),
            forall|k: int| 0 <= k <= i ==> i32::MIN <= #[trigger] contribution_sum(vec@.take(k)) <= i32::MAX,
    {
        assert(vec@.take(i + 1).drop_last() =~= vec@.take(i as int));
        sum = sum + vec[i].get_team_score_contribution() as i64;
        if sum < i32::MIN as i64 || sum > i32::MAX as i64 {
            assert(!(i32::MIN <= contribution_sum(vec@.take(i + 1)) <= i32::MAX));
            return false;
        }
    }
    assert(vec@.take(n as int) =~= vec@);
    proof {
        assert forall|k: int| 0 <= k <= vec@.len() implies i32::MIN <= #[trigger] contribution_sum(vec@.take(k)) <= i32::MAX by {}
    }
    true
}

/// The sum of the players' contributions, where every partial sum fits.
fn checked_sum(vec: &Vec<Player>) -> (r: Option<i64>)
    ensures
        r is Some == sums_fit(vec@),
        r matches Some(v) ==> v == contribution_sum(vec@) && i32::MIN <= v <= i32::MAX,
{
    if sums_fit_check(vec) {
        Some(team_score_from_vec(vec) as i64)
    } else {
        None
    }
}

/// Sums what a group of players adds to a team score.
fn team_score_from_vec(vec: &Vec<Player>) -> (r: i32)
    requires
        sums_fit(vec@),
    ensures
        r == contribution_sum(vec@),
{
    let mut sum: i32 = 0;
    let n = vec.len();
    for i in 0..n
        invariant
            n == vec.len(),
            sums_fit(vec@),
            sum == contribution_sum(vec@.take(i as int)),
    {
        proof {
            assert(vec@.take(i + 1).drop_last() =~= vec@.take(i as int));
            assert(i32::MIN <= contribution_sum(vec@.take(i + 1)) <= i32::MAX);
        }
        sum = sum + vec[i].get_team_score_contribution();
    }
    proof {
        assert(vec@.take(n as int) =~= vec@);
    }
    sum
}

/// What a group of generated players is: one per position, in order, each
/// generated from the quality, with a name, an age and no problem.
pub open spec fn generated_pool<Q: PlayerQuality>(v: Seq<Player>, positions: Seq<PlayerPosition>, quality: Q, era: Era) -> bool {
    &&& v.len() == positions.len()
    &&& forall|i: int| 0 <= i < v.len() ==> {
        &&& (#[trigger] v[i]).pos == positions[i]
        &&& generated(quality, v[i], era)
        &&& error_free(v[i], v[i].base_pd().value())
        &&& 19 <= v[i].age <= 38
    }
}

/// Generates one player per position.
fn new_player_vec<Q: PlayerQuality>(
    positions: Vec<PlayerPosition>,
    gender: PlayerGender,
    thread: &mut ThreadRng,
    quality: Q,
    era: Era,
) -> (r: Vec<Player>)
    ensures
        generated_pool(r@, positions@, quality, era),
{
    let mut out: Vec<Player> = Vec::new();
    let n = positions.len();
    for i in 0..n
        invariant
            n == positions.len(),
            generated_pool(out@, positions@.take(i as int), quality, era),
    {
        let pos = positions[i].clone();
        let p = Player::new(pos, gender, quality, thread, era);
        out.push(p);
        proof {
            assert(positions@.take(i + 1)[i as int] == positions@[i as int]);
            assert forall|k: int| 0 <= k < out.len() implies (#[trigger] out@[k]).pos == positions@.take(i + 1)[k] by {
                if k < i {
                    assert(positions@.take(i + 1)[k] == positions@.take(i as int)[k]);
                }
            }
        }
    }
    proof {
        assert(positions@.take(n as int) =~= positions@);
    }
    out
}

/// The positions of a starting lineup: one for each position on the field.
pub open spec fn lineup_positions() -> Seq<PlayerPosition> {
    seq![
        PlayerPosition::C,
        PlayerPosition::FirstBase,
        PlayerPosition::SecondBase,
        PlayerPosition::ThirdBase,
        PlayerPosition::SS,
        PlayerPosition::LF,
        PlayerPosition::CF,
        PlayerPosition::RF,
    ]
}

/// The positions of a bench: a catcher, an infielder, an outfielder and a
/// utility player in the Ancient era; a catcher, two infielders and two
/// outfielders in the Modern era.
pub open spec fn bench_positions(era: Era) -> Seq<PlayerPosition> {
    match era {
        Era::Ancient => seq![PlayerPosition::C, PlayerPosition::INF, PlayerPosition::OF, PlayerPosition::UT],
        Era::Modern => seq![
            PlayerPosition::C,
            PlayerPosition::INF,
            PlayerPosition::INF,
            PlayerPosition::OF,
            PlayerPosition::OF,
        ],
    }
}

/// The positions of a rotation: five pitchers, P in the Ancient era and SP in
/// the Modern era.
pub open spec fn rotation_positions(era: Era) -> Seq<PlayerPosition> {
    match era {
        Era::Ancient => Seq::new(5, |i: int| PlayerPosition::P),
        Era::Modern => Seq::new(5, |i: int| PlayerPosition::SP),
    }
}

/// The positions of a bullpen: seven relievers.
pub open spec fn bullpen_positions() -> Seq<PlayerPosition> {
    Seq::new(7, |i: int| PlayerPosition::RP)
}

/// A starting lineup of top prospects, one for each position on the field.
fn new_starting_lineup(gender: PlayerGender, thread: &mut ThreadRng, era: Era) -> (r: Vec<Player>)
    ensures
        generated_pool(r@, lineup_positions(), BatterQuality::TopProspect, era),
{
    let base = vec![
        PlayerPosition::C,
        PlayerPosition::FirstBase,
        PlayerPosition::SecondBase,
        PlayerPosition::ThirdBase,
        PlayerPosition::SS,
        PlayerPosition::LF,
        PlayerPosition::CF,
        PlayerPosition::RF,
    ];
    assert(base@ =~= lineup_positions());
    new_player_vec(base, gender, thread, BatterQuality::TopProspect, era)
}

/// A bench of farmhands.
fn new_bench(gender: PlayerGender, thread: &mut ThreadRng, era: Era) -> (r: Vec<Player>)
    ensures
        generated_pool(r@, bench_positions(era), BatterQuality::Farmhand, era),
{
    let base = match era {
        Era::Ancient => vec![PlayerPosition::C, PlayerPosition::INF, PlayerPosition::OF, PlayerPosition::UT],
        Era::Modern => vec![
            PlayerPosition::C,
            PlayerPosition::INF,
            PlayerPosition::INF,
            PlayerPosition::OF,
            PlayerPosition::OF,
        ],
    };
    assert(base@ =~= bench_positions(era));
    new_player_vec(base, gender, thread, BatterQuality::Farmhand, era)
}

/// A rotation of five top prospect pitchers.
fn new_rotation(gender: PlayerGender, thread: &mut ThreadRng, era: Era) -> (r: Vec<Player>)
    ensures
        generated_pool(r@, rotation_positions(era), PitcherQuality::TopProspect, era),
{
    let base = match era {
        Era::Ancient => vec![PlayerPosition::P, PlayerPosition::P, PlayerPosition::P, PlayerPosition::P, PlayerPosition::P],
        Era::Modern => vec![PlayerPosition::SP, PlayerPosition::SP, PlayerPosition::SP, PlayerPosition::SP, PlayerPosition::SP],
    };
    assert(base@ =~= rotation_positions(era));
    new_player_vec(base, gender, thread, PitcherQuality::TopProspect, era)
}

/// A bullpen of seven top prospect relievers in the Modern era; none in the
/// Ancient era.
fn new_bullpen(gender: PlayerGender, thread: &mut ThreadRng, era: Era) -> (r: Option<Vec<Player>>)
    ensures
        era == Era::Ancient ==> r is None,
        era == Era::Modern ==> (r matches Some(pen) && generated_pool(pen@, bullpen_positions(), PitcherQuality::TopProspect, era)),
{
    match era {
        Era::Ancient => None,
        Era::Modern => {
            let base = vec![
                PlayerPosition::RP,
                PlayerPosition::RP,
                PlayerPosition::RP,
                PlayerPosition::RP,
                PlayerPosition::RP,
                PlayerPosition::RP,
                PlayerPosition::RP,
            ];
            assert(base@ =~= bullpen_positions());
            Some(new_player_vec(base, gender, thread, PitcherQuality::TopProspect, era))
        },
    }
}

pub proof fn lemma_generated_pool_modest<Q: PlayerQuality>(v: Seq<Player>, positions: Seq<PlayerPosition>, quality: Q, era: Era)
    requires
        generated_pool(v, positions, quality, era),
    ensures
        forall|i: int| 0 <= i < v.len() ==> modest(#[trigger] v[i]),
{
    assert forall|i: int| 0 <= i < v.len() implies modest(#[trigger] v[i]) by {
        let p = v[i];
        assert(generated(quality, p, era));
        if p.pd is Some {
            let pd = p.pd->0;
            assert(era.all_pd().contains(pd));
            let k = choose|k: int| 0 <= k < era.all_pd().len() && era.all_pd()[k] == pd;
            assert(-20 <= pd.value() <= 20);
        }
    }
}

/// A new team of the era is generated: its starting lineup of top prospect
/// batters, bench of farmhand batters and rotation (and bullpen in the Modern
/// era) of top prospect pitchers, at the positions of the era.
pub open spec fn generated_team(t: Team, era: Era) -> bool {
    &&& generated_pool(t.lineup@, lineup_positions(), BatterQuality::TopProspect, era)
    &&& generated_pool(t.bench@, bench_positions(era), BatterQuality::Farmhand, era)
    &&& generated_pool(t.starting_pitching@, rotation_positions(era), PitcherQuality::TopProspect, era)
    &&& (era == Era::Ancient ==> t.bullpen is None)
    &&& (era == Era::Modern ==> (t.bullpen matches Some(pen) && generated_pool(pen@, bullpen_positions(), PitcherQuality::TopProspect, era)))
}

/// A new team's lineup, rotation and bullpen: a starting lineup of a catcher,
/// a first, second and third baseman, a shortstop and a left, center and right
/// fielder, in that order; a rotation of five pitchers (P in the Ancient era,
/// SP in the Modern era); and a bullpen of seven relievers (RP) in the Modern
/// era only.
pub proof fn law_new_team_lineup_and_pitchers(t: Team, era: Era)
    requires
        generated_team(t, era),
    ensures
        t.lineup@.len() == 8,
        t.lineup@[0].pos == PlayerPosition::C,
        t.lineup@[1].pos == PlayerPosition::FirstBase,
        t.lineup@[2].pos == PlayerPosition::SecondBase,
        t.lineup@[3].pos == PlayerPosition::ThirdBase,
        t.lineup@[4].pos == PlayerPosition::SS,
        t.lineup@[5].pos == PlayerPosition::LF,
        t.lineup@[6].pos == PlayerPosition::CF,
        t.lineup@[7].pos == PlayerPosition::RF,
        t.starting_pitching@.len() == 5,
        forall|i: int| 0 <= i < 5 ==> (#[trigger] t.starting_pitching@[i]).pos == (if era == Era::Ancient {
            PlayerPosition::P
        } else {
            PlayerPosition::SP
        }),
        era == Era::Ancient ==> t.bullpen is None,
        era == Era::Modern ==> (t.bullpen matches Some(pen) && pen@.len() == 7 && forall|i: int|
            0 <= i < 7 ==> (#[trigger] pen@[i]).pos == PlayerPosition::RP),
{
    assert forall|i: int| 0 <= i < 8 implies (#[trigger] t.lineup@[i]).pos == lineup_positions()[i] by {}
    assert forall|i: int| 0 <= i < 5 implies (#[trigger] t.starting_pitching@[i]).pos == rotation_positions(era)[i] by {}
}

/// A new team's bench, by era: a Modern bench is a catcher, two infielders and
/// two outfielders (C, INF, INF, OF, OF); an Ancient bench is a catcher, an
/// infielder, an outfielder and a utility player (C, INF, OF, UT).
pub proof fn law_new_team_bench(t: Team, era: Era)
    requires
        generated_team(t, era),
    ensures
        era == Era::Modern ==> {
            &&& t.bench@.len() == 5
            &&& t.bench@[0].pos == PlayerPosition::C
            &&& t.bench@[1].pos == PlayerPosition::INF
            &&& t.bench@[2].pos == PlayerPosition::INF
            &&& t.bench@[3].pos == PlayerPosition::OF
            &&& t.bench@[4].pos == PlayerPosition::OF
        },
        era == Era::Ancient ==> {
            &&& t.bench@.len() == 4
            &&& t.bench@[0].pos == PlayerPosition::C
            &&& t.bench@[1].pos == PlayerPosition::INF
            &&& t.bench@[2].pos == PlayerPosition::OF
            &&& t.bench@[3].pos == PlayerPosition::UT
        },
{
    assert(t.bench@[0].pos == bench_positions(era)[0]);
    assert(t.bench@[1].pos == bench_positions(era)[1]);
    assert(t.bench@[2].pos == bench_positions(era)[2]);
    assert(t.bench@[3].pos == bench_positions(era)[3]);
    if era == Era::Modern {
        assert(t.bench@[4].pos == bench_positions(era)[4]);
    }
}

/// Where a player is on a team: in the starting lineup, on the bench, in the
/// starting rotation, or in the bullpen.
#[derive(Debug, Clone, Copy, PartialEq, Eq, Structural)]
pub enum TeamSpot {
    StartingLineup,
    BenchHitter,
    StartingPitcher,
    Bullpen,
}

impl TeamSpot {
    pub open spec fn text(&self) -> Seq<char> {
        match self {
            TeamSpot::StartingLineup => "Starting Lineup"@,
            TeamSpot::BenchHitter => "Bench Hitter"@,
            TeamSpot::StartingPitcher => "Starting Pitcher"@,
            TeamSpot::Bullpen => "Bullpen"@,
        }
    }

    pub fn to_display(&self) -> (r: &'static str)
        ensures
            r@ == self.text(),
    {
        match self {
            TeamSpot::StartingLineup => "Starting Lineup",
            TeamSpot::BenchHitter => "Bench Hitter",
            TeamSpot::StartingPitcher => "Starting Pitcher",
            TeamSpot::Bullpen => "Bullpen",
        }
    }

    /// The name a team spot is stored under.
    pub open spec fn name(&self) -> Seq<char> {
        match self {
            TeamSpot::StartingLineup => "StartingLineup"@,
            TeamSpot::BenchHitter => "BenchHitter"@,
            TeamSpot::StartingPitcher => "StartingPitcher"@,
            TeamSpot::Bullpen => "Bullpen"@,
        }
    }

    pub fn to_name(&self) -> (r: &'static str)
        ensures
            r@ == self.name(),
    {
        match self {
            TeamSpot::StartingLineup => "StartingLineup",
            TeamSpot::BenchHitter => "BenchHitter",
            TeamSpot::StartingPitcher => "StartingPitcher",
            TeamSpot::Bullpen => "Bullpen",
        }
    }


    /// The team spot stored under a name, if any.
    pub open spec fn named(w: Seq<char>) -> Option<TeamSpot> {
        if w == "StartingLineup"@ {
            Some(TeamSpot::StartingLineup)
        } else if w == "BenchHitter"@ {
            Some(TeamSpot::BenchHitter)
        } else if w == "StartingPitcher"@ {
            Some(TeamSpot::StartingPitcher)
        } else if w == "Bullpen"@ {
            Some(TeamSpot::Bullpen)
        } else {
            None
        }
    }

    pub fn from_name(w: &str) -> (r: Option<TeamSpot>)
        ensures
            r == TeamSpot::named(w@),
    {
        if str_eq(w, "StartingLineup") {
            Some(TeamSpot::StartingLineup)
        } else if str_eq(w, "BenchHitter") {
            Some(TeamSpot::BenchHitter)
        } else if str_eq(w, "StartingPitcher") {
            Some(TeamSpot::StartingPitcher)
        } else if str_eq(w, "Bullpen") {
            Some(TeamSpot::Bullpen)
        } else {
            None
        }
    }
}

/// Where a batter bats: by leadoff score, then RBI score, then switch
/// hitting, then the batter's text.
pub open spec fn batter_key(p: Player) -> RankKeyView {
    (
        leadoff_score(p.obt as int, p.b_traits.get_above_average_spec()),
        p.bt + p.b_traits.contact.rbi_value() + p.b_traits.power.rbi_value(),
        if p.hand == Hand::S { 1int } else { 0int },
        player_text(p),
    )
}

/// How a pitcher ranks: by pitch die (one more with a pitcher trait), then
/// age, then the pitcher's text.
pub open spec fn pitcher_key(p: Player) -> RankKeyView {
    (pitcher_rank(p), p.age as int, 0int, player_text(p))
}

/// The numbers a batter is ranked by fit in an `i32`.
pub open spec fn batter_rankable(p: Player) -> bool {
    &&& i32::MIN <= batter_key(p).0 <= i32::MAX
    &&& i32::MIN <= batter_key(p).1 <= i32::MAX
    &&& p.base_pd().value() != i32::MIN
}

/// The numbers a pitcher is ranked by fit in an `i32`.
pub open spec fn pitcher_rankable(p: Player) -> bool {
    &&& p.base_pd().value() != i32::MIN
    &&& p.pitcher_trait is Some ==> p.base_pd().value() < i32::MAX
}

pub open spec fn batter_keys(v: Seq<Player>) -> Seq<RankKeyView> {
    v.map_values(|p: Player| batter_key(p))
}

pub open spec fn pitcher_keys(v: Seq<Player>) -> Seq<RankKeyView> {
    v.map_values(|p: Player| pitcher_key(p))
}

/// The pitchers written out, best first, each on a line of its own.
fn sorted_pitcher_pool(vec: &Vec<Player>) -> (r: String)
    requires
        forall|i: int| 0 <= i < vec.len() ==> pitcher_rankable(#[trigger] vec@[i]),
    ensures
        ranked_lines(pitcher_keys(vec@), r@),
{
    let mut keys: Vec<RankKey> = Vec::new();
    let n = vec.len();
    for i in 0..n
        invariant
            n == vec.len(),
            forall|k: int| 0 <= k < vec.len() ==> pitcher_rankable(#[trigger] vec@[k]),
            key_views(keys@) == pitcher_keys(vec@).subrange(0, i as int),
    {
        let rank = vec[i].get_pitcher_rank_info();
        let key = RankKey { first: rank.num, second: rank.age, third: 0, text: rank.string };
        let ghost before = keys@;
        keys.push(key);
        assert(key_views(keys@) =~= key_views(before).push(key@));
        assert(key_views(keys@) =~= pitcher_keys(vec@).subrange(0, i + 1));
    }
    assert(key_views(keys@) =~= pitcher_keys(vec@));
    ranked_text(&keys)
}

/// The batters written out in batting order, each on a line of its own.
fn get_sorted_batter_strings(vec: &Vec<Player>) -> (r: String)
    requires
        forall|i: int| 0 <= i < vec.len() ==> batter_rankable(#[trigger] vec@[i]),
    ensures
        ranked_lines(batter_keys(vec@), r@),
{
    let mut keys: Vec<RankKey> = Vec::new();
    let n = vec.len();
    for i in 0..n
        invariant
            n == vec.len(),
            forall|k: int| 0 <= k < vec.len() ==> batter_rankable(#[trigger] vec@[k]),
            key_views(keys@) == batter_keys(vec@).subrange(0, i as int),
    {
        let score = vec[i].get_lineup_score();
        let key = RankKey {
            first: score.leadoff_score,
            second: score.rbi_score,
            third: score.switch_hitter_bonus,
            text: score.string,
        };
        let ghost before = keys@;
        keys.push(key);
        assert(key_views(keys@) =~= key_views(before).push(key@));
        assert(key_views(keys@) =~= batter_keys(vec@).subrange(0, i + 1));
    }
    assert(key_views(keys@) =~= batter_keys(vec@));
    ranked_text(&keys)
}

/// The header of a list of batters.
pub open spec fn batter_header(desc: Seq<char>) -> Seq<char> {
    desc + ":\nName Pos Age Hand BT OBT Traits"@
}

/// The header of a list of pitchers.
pub open spec fn pitcher_header(desc: Seq<char>) -> Seq<char> {
    desc + ":\nName Pos Age Hand PD Trait BT OBT"@
}

/// A described list of batters, in batting order.
fn get_batter_info_string(desc: String, vec: &Vec<Player>) -> (r: String)
    requires
        forall|i: int| 0 <= i < vec.len() ==> batter_rankable(#[trigger] vec@[i]),
    ensures
        exists|lines: Seq<char>|
            ranked_lines(batter_keys(vec@), lines) && r@ == batter_header(desc@) + lines + "\n"@,
{
    let mut s = desc;
    s.append(":\nName Pos Age Hand BT OBT Traits");
    let lines = get_sorted_batter_strings(vec);
    s.append(lines.as_str());
    s.append("\n");
    s
}

/// A described list of pitchers, best first.
fn get_pitcher_info_string(desc: String, vec: &Vec<Player>) -> (r: String)
    requires
        forall|i: int| 0 <= i < vec.len() ==> pitcher_rankable(#[trigger] vec@[i]),
    ensures
        exists|lines: Seq<char>|
            ranked_lines(pitcher_keys(vec@), lines) && r@ == pitcher_header(desc@) + lines + "\n"@,
{
    let mut s = desc;
    s.append(":\nName Pos Age Hand PD Trait BT OBT");
    let lines = sorted_pitcher_pool(vec);
    s.append(lines.as_str());
    s.append("\n");
    s
}

/// Every player of the team can be ranked.
pub open spec fn displayable(t: Team) -> bool {
    &&& forall|i: int| 0 <= i < t.lineup.len() ==> batter_rankable(#[trigger] t.lineup@[i])
    &&& forall|i: int| 0 <= i < t.bench.len() ==> batter_rankable(#[trigger] t.bench@[i])
    &&& forall|i: int| 0 <= i < t.starting_pitching.len() ==> pitcher_rankable(#[trigger] t.starting_pitching@[i])
    &&& t.bullpen matches Some(pen) ==> forall|i: int| 0 <= i < pen.len() ==> pitcher_rankable(#[trigger] pen@[i])
}

/// Whether a batter can be ranked.
fn batter_rankable_check(p: &Player) -> (r: bool)
    ensures
        r == batter_rankable(*p),
{
    let a = p.b_traits.get_above_average();
    let leadoff: i64 = if a.speed && !a.power && !a.contact {
        p.obt as i64 + 2
    } else if a.power || a.contact {
        p.obt as i64 - 2
    } else {
        p.obt as i64
    };
    let rbi: i64 = p.bt as i64 + p.b_traits.get_rbi_score() as i64;
    i32::MIN as i64 <= leadoff && leadoff <= i32::MAX as i64 && i32::MIN as i64 <= rbi && rbi <= i32::MAX as i64
        && p.get_base_pd().to_int() != i32::MIN
}

/// Whether a pitcher can be ranked.
fn pitcher_rankable_check(p: &Player) -> (r: bool)
    ensures
        r == pitcher_rankable(*p),
{
    let v = p.get_base_pd().to_int();
    v != i32::MIN && (p.pitcher_trait.is_none() || v < i32::MAX)
}

/// Whether every player of the pool can be ranked as a batter, or as a pitcher.
fn pool_rankable(v: &Vec<Player>, as_pitchers: bool) -> (r: bool)
    ensures
        r == (forall|i: int| 0 <= i < v.len() ==> (if as_pitchers { pitcher_rankable(#[trigger] v@[i]) } else { batter_rankable(v@[i]) })),
{
    let n = v.len();
    for i in 0..n
        invariant
            n == v.len(),
            forall|k: int| 0 <= k < i ==> (if as_pitchers { pitcher_rankable(#[trigger] v@[k]) } else { batter_rankable(v@[k]) }),
    {
        let ok = if as_pitchers { pitcher_rankable_check(&v[i]) } else { batter_rankable_check(&v[i]) };
        if !ok {
            return false;
        }
    }
    true
}

/// The text of a team, given the ranked lines of its lineup, bench, rotation
/// and bullpen.
pub open spec fn team_text(t: Team, lineup: Seq<char>, bench: Seq<char>, rotation: Seq<char>, bullpen: Seq<char>) -> Seq<char> {
    let base = "Name:"@ + t.name@ + ", Abrv:"@ + t.abrv@ + ", Team Score: "@ + int_text(t.team_score as int) + "\n"@;
    let non_bullpen = base + batter_header("Lineup"@) + lineup + "\n"@ + batter_header("Bench"@) + bench + "\n"@
        + pitcher_header("Rotation"@) + rotation + "\n"@;
    if t.bullpen is Some {
        non_bullpen + pitcher_header("Bullpen"@) + bullpen + "\n"@
    } else {
        non_bullpen
    }
}

/// The team spot a loaded player is placed at: the one it is listed at, but
/// a reliever of a team without a bullpen goes to the team's pitching pool,
/// the rotation.
pub open spec fn placed_spot(spot: TeamSpot, has_bullpen: bool) -> TeamSpot {
    if spot == TeamSpot::Bullpen && !has_bullpen { TeamSpot::StartingPitcher } else { spot }
}

/// The players of the loaded rows that are placed at a team spot (see
/// `placed_spot`), in order.
pub open spec fn players_placed_at(loaded: Seq<(TeamSpot, Player)>, spot: TeamSpot, has_bullpen: bool) -> Seq<Player>
    decreases loaded.len(),
{
    if loaded.len() == 0 {
        Seq::empty()
    } else if placed_spot(loaded.last().0, has_bullpen) == spot {
        players_placed_at(loaded.drop_last(), spot, has_bullpen).push(loaded.last().1)
    } else {
        players_placed_at(loaded.drop_last(), spot, has_bullpen)
    }
}

/// The positions, among the loaded rows, of the rows listed at a team spot,
/// in order.
pub open spec fn rows_at(loaded: Seq<(TeamSpot, Player)>, spot: TeamSpot) -> Seq<int>
    decreases loaded.len(),
{
    if loaded.len() == 0 {
        Seq::empty()
    } else if loaded.last().0 == spot {
        rows_at(loaded.drop_last(), spot).push(loaded.len() - 1)
    } else {
        rows_at(loaded.drop_last(), spot)
    }
}

/// The text a team is written as: its name, abbreviation and score, then
/// its lineup and bench in batting order, and its rotation and bullpen best
/// first (see `team_text`).
pub open spec fn team_written_as(t: Team, r: Seq<char>) -> bool {
    exists|l: Seq<char>, b: Seq<char>, ro: Seq<char>, pe: Seq<char>|
        #![trigger team_text(t, l, b, ro, pe)]
        ranked_lines(batter_keys(t.lineup@), l) && ranked_lines(batter_keys(t.bench@), b) && ranked_lines(
            pitcher_keys(t.starting_pitching@),
            ro,
        ) && (t.bullpen matches Some(pen) ==> ranked_lines(pitcher_keys(pen@), pe)) && r == team_text(t, l, b, ro, pe)
}

/// Two teams that agree on everything shown but the order of players in
/// their pools: same name, abbreviation and score, a bullpen in both or in
/// neither, and pools whose players rank the same, in any order.
pub open spec fn rank_alike(t1: Team, t2: Team) -> bool {
    &&& t1.name@ == t2.name@
    &&& t1.abrv@ == t2.abrv@
    &&& t1.team_score == t2.team_score
    &&& (t1.bullpen is Some) == (t2.bullpen is Some)
    &&& batter_keys(t1.lineup@).to_multiset() == batter_keys(t2.lineup@).to_multiset()
    &&& batter_keys(t1.bench@).to_multiset() == batter_keys(t2.bench@).to_multiset()
    &&& pitcher_keys(t1.starting_pitching@).to_multiset() == pitcher_keys(t2.starting_pitching@).to_multiset()
    &&& (t1.bullpen matches Some(p1) ==> (t2.bullpen matches Some(p2) && pitcher_keys(p1@).to_multiset()
        == pitcher_keys(p2@).to_multiset()))
}

/// A team's text does not depend on the order its players are kept in: two
/// teams that rank alike are written the same, and so is one team each time.
pub proof fn law_team_text_ignores_player_order(t1: Team, t2: Team, r1: Seq<char>, r2: Seq<char>)
    requires
        rank_alike(t1, t2),
        team_written_as(t1, r1),
        team_written_as(t2, r2),
    ensures
        r1 == r2,
{
    let (l1, b1, ro1, pe1) = choose|l: Seq<char>, b: Seq<char>, ro: Seq<char>, pe: Seq<char>|
        #![trigger team_text(t1, l, b, ro, pe)]
        ranked_lines(batter_keys(t1.lineup@), l) && ranked_lines(batter_keys(t1.bench@), b) && ranked_lines(
            pitcher_keys(t1.starting_pitching@),
            ro,
        ) && (t1.bullpen matches Some(pen) ==> ranked_lines(pitcher_keys(pen@), pe)) && r1 == team_text(t1, l, b, ro, pe);
    let (l2, b2, ro2, pe2) = choose|l: Seq<char>, b: Seq<char>, ro: Seq<char>, pe: Seq<char>|
        #![trigger team_text(t2, l, b, ro, pe)]
        ranked_lines(batter_keys(t2.lineup@), l) && ranked_lines(batter_keys(t2.bench@), b) && ranked_lines(
            pitcher_keys(t2.starting_pitching@),
            ro,
        ) && (t2.bullpen matches Some(pen) ==> ranked_lines(pitcher_keys(pen@), pe)) && r2 == team_text(t2, l, b, ro, pe);
    law_ranked_lines_ignore_order(batter_keys(t1.lineup@), batter_keys(t2.lineup@), l1, l2);
    law_ranked_lines_ignore_order(batter_keys(t1.bench@), batter_keys(t2.bench@), b1, b2);
    law_ranked_lines_ignore_order(pitcher_keys(t1.starting_pitching@), pitcher_keys(t2.starting_pitching@), ro1, ro2);
    if t1.bullpen is Some {
        let p1 = t1.bullpen->0;
        let p2 = t2.bullpen->0;
        law_ranked_lines_ignore_order(pitcher_keys(p1@), pitcher_keys(p2@), pe1, pe2);
    }
}

impl Team {
    /// A new team with a name and an abbreviation, its players generated for
    /// the era, and its team score computed.
    pub fn new(abrv: &String, name: &String, gender: PlayerGender, era: Era, thread: &mut ThreadRng) -> (r: Team)
        ensures
            r.abrv@ == abrv@,
            r.name@ == name@,
            generated_team(r, era),
            r.team_score == team_score_of(r),
            r.wins == 0,
            r.losses == 0,
            r.team_id == 0,
            r.note is None,
    {
        let lineup = new_starting_lineup(gender, thread, era);
        let bench = new_bench(gender, thread, era);
        let starting_pitching = new_rotation(gender, thread, era);
        let bullpen = new_bullpen(gender, thread, era);
        let mut new_team = Team {
            team_id: 0,
            abrv: String::from_str(abrv.as_str()),
            name: String::from_str(name.as_str()),
            lineup,
            bench,
            starting_pitching,
            bullpen,
            team_score: 0,
            wins: 0,
            losses: 0,
            note: None,
        };
        proof {
            lemma_generated_pool_modest(new_team.lineup@, lineup_positions(), BatterQuality::TopProspect, era);
            lemma_generated_pool_modest(new_team.bench@, bench_positions(era), BatterQuality::Farmhand, era);
            lemma_generated_pool_modest(new_team.starting_pitching@, rotation_positions(era), PitcherQuality::TopProspect, era);
            lemma_modest_sums_fit(new_team.lineup@);
            lemma_modest_sums_fit(new_team.bench@);
            lemma_modest_sums_fit(new_team.starting_pitching@);
            if new_team.bullpen is Some {
                let pen = new_team.bullpen->0;
                lemma_generated_pool_modest(pen@, bullpen_positions(), PitcherQuality::TopProspect, era);
                lemma_modest_sums_fit(pen@);
            }
        }
        new_team.calc_team_score();
        new_team
    }

    /// Computes the team score: the batters' batting targets, plus seven
    /// times the pitchers' pitch die numbers, divided by ten.
    pub fn calc_team_score(&mut self)
        requires
            team_score_fits(*old(self)),
        ensures
            final(self).team_score == team_score_of(*old(self)),
            *final(self) == (Team { team_score: final(self).team_score, ..*old(self) }),
    {
        let batter_score = team_score_from_vec(&self.lineup) + team_score_from_vec(&self.bench);
        let mut pitcher_score = team_score_from_vec(&self.starting_pitching);
        match &self.bullpen {
            Some(bullpen) => {
                pitcher_score = pitcher_score + team_score_from_vec(bullpen);
            },
            None => {},
        }
        pitcher_score = pitcher_score * 7;
        self.team_score = (batter_score + pitcher_score) / 10;
    }

    /// Whether the team can be written out.
    pub fn is_displayable(&self) -> (r: bool)
        ensures
            r == displayable(*self),
    {
        let pen = match &self.bullpen {
            Some(pen) => pool_rankable(pen, true),
            None => true,
        };
        pool_rankable(&self.lineup, false) && pool_rankable(&self.bench, false) && pool_rankable(&self.starting_pitching, true) && pen
    }

    /// The team written out: its name, abbreviation and score, then its
    /// lineup and bench in batting order and its rotation and bullpen best
    /// first.
    pub fn to_display(&self) -> (r: String)
        requires
            displayable(*self),
        ensures
            team_written_as(*self, r@),
    {
        let mut base_info = String::from_str("Name:");
        base_info.append(self.name.as_str());
        base_info.append(", Abrv:");
        base_info.append(self.abrv.as_str());
        base_info.append(", Team Score: ");
        base_info.append(int_to_string(self.team_score as i64).as_str());
        base_info.append("\n");
        let lineup_string = get_batter_info_string(String::from_str("Lineup"), &self.lineup);
        let bench_string = get_batter_info_string(String::from_str("Bench"), &self.bench);
        let rotation_string = get_pitcher_info_string(String::from_str("Rotation"), &self.starting_pitching);
        let ghost l = choose|l: Seq<char>| ranked_lines(batter_keys(self.lineup@), l) && lineup_string@ == batter_header("Lineup"@) + l + "\n"@;
        let ghost b = choose|b: Seq<char>| ranked_lines(batter_keys(self.bench@), b) && bench_string@ == batter_header("Bench"@) + b + "\n"@;
        let ghost ro = choose|ro: Seq<char>| ranked_lines(pitcher_keys(self.starting_pitching@), ro) && rotation_string@ == pitcher_header("Rotation"@) + ro + "\n"@;
        let mut chars = base_info;
        chars.append(lineup_string.as_str());
        chars.append(bench_string.as_str());
        chars.append(rotation_string.as_str());
        let ghost non_bullpen = chars@;
        let ghost mut pe = Seq::<char>::empty();
        match &self.bullpen {
            Some(bullpen) => {
                let pen_string = get_pitcher_info_string(String::from_str("Bullpen"), bullpen);
                proof {
                    pe = choose|pe: Seq<char>| ranked_lines(pitcher_keys(bullpen@), pe) && pen_string@ == pitcher_header("Bullpen"@) + pe + "\n"@;
                }
                chars.append(pen_string.as_str());
            },
            None => {},
        }
        assert(chars@ =~= team_text(*self, l, b, ro, pe));
        assert(team_written_as(*self, chars@));
        chars
    }

    /// Whether the team score can be computed without overflow.
    pub fn team_score_check(&self) -> (r: bool)
        ensures
            r == team_score_fits(*self),
    {
        let lineup = checked_sum(&self.lineup);
        let bench = checked_sum(&self.bench);
        let rotation = checked_sum(&self.starting_pitching);
        let pen = match &self.bullpen {
            Some(pen) => checked_sum(pen),
            None => Some(0i64),
        };
        match (lineup, bench, rotation, pen) {
            (Some(l), Some(b), Some(ro), Some(pe)) => {
                let batters = l + b;
                let pitchers = ro + pe;
                let weighted = 7 * pitchers;
                let total = batters + weighted;
                i32::MIN as i64 <= batters && batters <= i32::MAX as i64 && i32::MIN as i64 <= pitchers && pitchers
                    <= i32::MAX as i64 && i32::MIN as i64 <= weighted && weighted <= i32::MAX as i64 && i32::MIN as i64
                    <= total && total <= i32::MAX as i64
            },
            _ => false,
        }
    }

    /// Places the players read back from the database, in the order they were
    /// read, each where its team spot says. A reliever of a team without a
    /// bullpen is placed in the team's pitching pool, the rotation; the
    /// positions of their rows are handed back, in order, so that the listing
    /// can be reported.
    pub fn place_loaded_players(&mut self, loaded: Vec<(TeamSpot, Player)>) -> (moved: Vec<usize>)
        ensures
            final(self).lineup@ == old(self).lineup@ + players_placed_at(loaded@, TeamSpot::StartingLineup, old(self).bullpen is Some),
            final(self).bench@ == old(self).bench@ + players_placed_at(loaded@, TeamSpot::BenchHitter, old(self).bullpen is Some),
            final(self).starting_pitching@ == old(self).starting_pitching@ + players_placed_at(loaded@, TeamSpot::StartingPitcher, old(self).bullpen is Some),
            final(self).bullpen is Some == old(self).bullpen is Some,
            final(self).bullpen matches Some(pen) ==> pen@ == old(self).bullpen->0@ + players_placed_at(loaded@, TeamSpot::Bullpen, true),
            moved@.map_values(|k: usize| k as int) == (if old(self).bullpen is Some { Seq::empty() } else { rows_at(loaded@, TeamSpot::Bullpen) }),
            final(self).abrv == old(self).abrv,
            final(self).name == old(self).name,
            final(self).team_score == old(self).team_score,
            final(self).wins == old(self).wins,
            final(self).losses == old(self).losses,
            final(self).team_id == old(self).team_id,
            final(self).note == old(self).note,
    {
        let mut moved: Vec<usize> = Vec::new();
        let mut loaded = loaded;
        let ghost all = loaded@;
        let ghost start = *self;
        let ghost with_pen = start.bullpen is Some;
        let n = loaded.len();
        assert(all.subrange(0, 0) =~= Seq::<(TeamSpot, Player)>::empty());
        assert(all.subrange(0, n as int) =~= all);
        let mut i: usize = 0;
        while i < n
            invariant
                n == all.len(),
                i <= n,
                with_pen == (start.bullpen is Some),
                loaded@ == all.subrange(i as int, n as int),
                self.lineup@ == start.lineup@ + players_placed_at(all.subrange(0, i as int), TeamSpot::StartingLineup, with_pen),
                self.bench@ == start.bench@ + players_placed_at(all.subrange(0, i as int), TeamSpot::BenchHitter, with_pen),
                self.starting_pitching@ == start.starting_pitching@ + players_placed_at(all.subrange(0, i as int), TeamSpot::StartingPitcher, with_pen),
                self.bullpen is Some == with_pen,
                self.bullpen matches Some(pen) ==> pen@ == start.bullpen->0@ + players_placed_at(all.subrange(0, i as int), TeamSpot::Bullpen, true),
                moved@.map_values(|k: usize| k as int) == (if with_pen { Seq::empty() } else { rows_at(all.subrange(0, i as int), TeamSpot::Bullpen) }),
                self.abrv == start.abrv,
                self.name == start.name,
                self.team_score == start.team_score,
                self.wins == start.wins,
                self.losses == start.losses,
                self.team_id == start.team_id,
                self.note == start.note,
            decreases n - i,
        {
            let (spot, player) = loaded.remove(0);
            proof {
                assert(loaded@ =~= all.subrange(i + 1, n as int));
                assert(all.subrange(0, i + 1).drop_last() =~= all.subrange(0, i as int));
                assert(all.subrange(0, i + 1).last() == all[i as int]);
            }
            let ghost before = moved@;
            if spot == TeamSpot::Bullpen && self.bullpen.is_none() {
                moved.push(i);
            }
            proof {
                assert(moved@.map_values(|k: usize| k as int) =~= (if spot == TeamSpot::Bullpen && !with_pen {
                    before.map_values(|k: usize| k as int).push(i as int)
                } else {
                    before.map_values(|k: usize| k as int)
                }));
            }
            self.add_loaded_player(spot, player);
            i = i + 1;
        }
        assert(all.subrange(0, n as int) =~= all);
        moved
    }

    /// Puts a player read back from the database where its team spot says. A
    /// reliever of a team without a bullpen goes to the team's pitching pool,
    /// the rotation: the result says whether the player went where it is
    /// listed.
    pub fn add_loaded_player(&mut self, team_spot: TeamSpot, player: Player) -> (as_listed: bool)
        ensures
            as_listed == !(team_spot == TeamSpot::Bullpen && old(self).bullpen is None),
            final(self).lineup@ == (if placed_spot(team_spot, old(self).bullpen is Some) == TeamSpot::StartingLineup { old(self).lineup@.push(player) } else { old(self).lineup@ }),
            final(self).bench@ == (if placed_spot(team_spot, old(self).bullpen is Some) == TeamSpot::BenchHitter { old(self).bench@.push(player) } else { old(self).bench@ }),
            final(self).starting_pitching@ == (if placed_spot(team_spot, old(self).bullpen is Some) == TeamSpot::StartingPitcher { old(self).starting_pitching@.push(player) } else { old(self).starting_pitching@ }),
            final(self).bullpen is Some == old(self).bullpen is Some,
            final(self).bullpen matches Some(pen) ==> pen@ == (if team_spot == TeamSpot::Bullpen { old(self).bullpen->0@.push(player) } else { old(self).bullpen->0@ }),
            final(self).abrv == old(self).abrv,
            final(self).name == old(self).name,
            final(self).team_score == old(self).team_score,
            final(self).wins == old(self).wins,
            final(self).losses == old(self).losses,
            final(self).team_id == old(self).team_id,
            final(self).note == old(self).note,
    {
        match team_spot {
            TeamSpot::StartingLineup => {
                self.lineup.push(player);
                true
            },
            TeamSpot::BenchHitter => {
                self.bench.push(player);
                true
            },
            TeamSpot::StartingPitcher => {
                self.starting_pitching.push(player);
                true
            },
            TeamSpot::Bullpen => match &mut self.bullpen {
                Some(pen) => {
                    pen.push(player);
                    true
                },
                None => {
                    self.starting_pitching.push(player);
                    false
                },
            },
        }
    }
}

impl Notable for Team {
    open spec fn note_view(&self) -> Note {
        self.note
    }

    open spec fn note_prompt(&self) -> Seq<char> {
        "Please enter the note you wish to attach to "@ + self.name@
    }

    fn get_note(&self) -> (r: &Note) {
        &self.note
    }

    fn get_note_input_string(&self) -> (r: String) {
        let mut s = String::from_str("Please enter the note you wish to attach to ");
        s.append(self.name.as_str());
        s
    }
}

/// A team spot stored by its name reads back as the same spot.
pub proof fn law_team_spot_name_round_trip(x: TeamSpot)
    ensures
        TeamSpot::named(x.name()) == Some(x),
{
    reveal_strlit("BenchHitter");
    reveal_strlit("Bullpen");
    reveal_strlit("StartingLineup");
    reveal_strlit("StartingPitcher");
    assert("BenchHitter"@.len() != "StartingLineup"@.len());
    assert("BenchHitter"@ != "StartingLineup"@);
    assert("StartingPitcher"@.len() != "StartingLineup"@.len());
    assert("StartingPitcher"@ != "StartingLineup"@);
    assert("StartingPitcher"@.len() != "BenchHitter"@.len());
    assert("StartingPitcher"@ != "BenchHitter"@);
    assert("Bullpen"@.len() != "StartingLineup"@.len());
    assert("Bullpen"@ != "StartingLineup"@);
    assert("Bullpen"@.len() != "BenchHitter"@.len());
    assert("Bullpen"@ != "BenchHitter"@);
    assert("Bullpen"@.len() != "StartingPitcher"@.len());
    assert("Bullpen"@ != "StartingPitcher"@);
}

} // verus!
