use std::collections::HashMap;

use deadball::edit_league_error::EditLeagueError;
use deadball::era::Era;
use deadball::futures::{get_player_from_id, Future, FutureChange};
use deadball::game::{form_check, last_digit, less_than_target, match_check, play_game, Outcome};
use deadball::minor_leaguer::MinorLeaguer;
use deadball::pennant::{generate_losers, generate_pennant_standings, sort_by_wins, top_three_standings, PennantLimits, PennantStanding};
use deadball::player::{Hand, Player, PlayerGender};
use deadball::player_pool::{PlayerCategory, PlayerPool};
use deadball::player_quality::{BatterQuality, PitcherQuality};
use deadball::pd::PD;
use deadball::ranking::{descending_order, key_less, ranked_text, text_less, RankKey};
use deadball::schedule::{
    invalid_number_message, is_valid_number, new_game, new_round_generator, new_schedule, new_series, Game, Round, Series,
};
use deadball::team::Team;

fn limits_for(games: i32) -> PennantLimits {
    let g = games as f32;
    let mut loser_minimum_wins = Vec::new();
    let mut pct: f32 = 0.50;
    while pct >= 0.0 {
        loser_minimum_wins.push((g * pct).floor() as i32);
        pct += -0.05;
    }
    PennantLimits {
        first_place_min_wins: (0.60 * g).floor() as i32,
        first_place_max_wins: (0.70 * g).floor() as i32,
        loser_minimum_wins,
    }
}

fn team_with_id(id: i64, score: i32) -> Team {
    Team {
        abrv: format!("T{}", id),
        name: format!("Team {}", id),
        lineup: Vec::new(),
        bench: Vec::new(),
        starting_pitching: Vec::new(),
        bullpen: None,
        team_score: score,
        wins: 0,
        losses: 0,
        team_id: id,
        note: None,
    }
}

fn shares_team(a: &Series, b: &Series) -> bool {
    a.home_team_id == b.home_team_id
        || a.home_team_id == b.away_team_id
        || a.away_team_id == b.home_team_id
        || a.away_team_id == b.away_team_id
}

fn check_rounds_disjoint(rounds: &[Round]) {
    for round in rounds {
        assert!(!round.series.is_empty());
        for i in 0..round.series.len() {
            for j in (i + 1)..round.series.len() {
                assert!(!shares_team(&round.series[i], &round.series[j]));
            }
        }
    }
}

#[test]
fn series_and_games() {
    assert_eq!(new_game(1, 2), Game { home_team_id: 1, away_team_id: 2 });
    let s = new_series(3, 4, 3);
    assert_eq!(s.games.len(), 3);
    assert!(s.games.iter().all(|g| *g == Game { home_team_id: 3, away_team_id: 4 }));
    assert_eq!(new_series(3, 4, 0).games.len(), 0);
    let mut forbidden = HashMap::new();
    assert!(s.is_valid(&forbidden));
    forbidden.insert(4i64, true);
    assert!(!s.is_valid(&forbidden));
    let copy = s.clone();
    assert_eq!((copy.home_team_id, copy.away_team_id, copy.games.len()), (3, 4, 3));
}

#[test]
fn rounds_split_series_without_clashes() {
    let mut all = Vec::new();
    for home in 1..=6i64 {
        for away in 1..=6i64 {
            if home != away {
                all.push(new_series(home, away, 2));
            }
        }
    }
    let rounds = new_round_generator(all, 3);
    check_rounds_disjoint(&rounds);
    let mut count: HashMap<(i64, i64), usize> = HashMap::new();
    for round in &rounds {
        for s in &round.series {
            *count.entry((s.home_team_id, s.away_team_id)).or_insert(0) += 1;
        }
    }
    assert_eq!(count.len(), 30);
    assert!(count.values().all(|c| *c == 1));
    // A round is closed only when every series left shares a team with it.
    for r1 in 0..rounds.len() {
        for r2 in (r1 + 1)..rounds.len() {
            for later in &rounds[r2].series {
                assert!(rounds[r1].series.iter().any(|s| shares_team(s, later)));
            }
        }
    }
    assert!(new_round_generator(Vec::new(), 0).is_empty());
}

#[test]
fn schedules_give_every_pair_its_home_series() {
    let teams: Vec<Team> = (1..=4).map(|id| team_with_id(id * 10, 0)).collect();
    let rounds = new_schedule(&teams, 3, 6);
    check_rounds_disjoint(&rounds);
    let mut count: HashMap<(i64, i64), usize> = HashMap::new();
    for round in &rounds {
        for s in &round.series {
            assert_eq!(s.games.len(), 3);
            *count.entry((s.home_team_id, s.away_team_id)).or_insert(0) += 1;
        }
    }
    assert_eq!(count.len(), 12);
    assert!(count.values().all(|c| *c == 3));
    assert!(new_schedule(&teams, 3, 1).is_empty());
    assert!(new_schedule(&teams[0..1], 3, 4).is_empty());
}

#[test]
fn schedule_numbers() {
    assert!(is_valid_number(4, true));
    assert!(!is_valid_number(3, true));
    assert!(is_valid_number(3, false));
    assert!(!is_valid_number(0, false));
    assert!(!is_valid_number(-2, true));
    assert_eq!(invalid_number_message(true), "\nInput must be an even positive whole number.");
    assert_eq!(invalid_number_message(false), "\nInput must be a positive whole number.");
}

#[test]
fn pennant_races() {
    let mut t = rand::thread_rng();
    let limits = limits_for(144);
    assert!(limits.fits_games(144));
    assert!(!limits.fits_games(50));
    assert_eq!(limits.loser_minimum_wins.len(), 10);
    match generate_pennant_standings(144, &mut t, 2, &limits) {
        Err(EditLeagueError::PennantError(m)) => assert_eq!(
            m,
            "Unable to generate a pennant race with the current setup, try altering the number of teams and/or games"
        ),
        _ => panic!("two teams make no pennant race"),
    }
    for teams in [8] {
        let standings = generate_pennant_standings(144, &mut t, teams, &limits).unwrap();
        let n = standings.len();
        assert_eq!(n as i32, teams);
        assert!(standings.iter().all(|s| s.wins + s.losses == 144));
        let wins: i32 = standings.iter().map(|s| s.wins).sum();
        let losses: i32 = standings.iter().map(|s| s.losses).sum();
        assert_eq!(wins, losses);
        assert_eq!(wins, (teams / 2) * 144);
        let first = standings[n - 1];
        assert!(86 <= first.wins && first.wins <= 100);
        // Second place is one to three games behind first, third one to three
        // behind second.
        assert!(first.wins - 3 <= standings[n - 2].wins && standings[n - 2].wins <= first.wins - 1);
        assert!(standings[n - 2].wins - 3 <= standings[n - 3].wins && standings[n - 3].wins <= standings[n - 2].wins - 1);
        assert!(standings[n - 2].losses - first.losses == first.wins - standings[n - 2].wins);
        for i in 0..n - 3 {
            assert!(standings[i].wins < standings[n - 3].wins);
            if i > 0 {
                assert!(standings[i - 1].wins <= standings[i].wins);
            }
        }
    }
}

#[test]
fn standings_helpers() {
    let top = top_three_standings(90, 54, 2, 3);
    assert_eq!(
        top,
        vec![
            PennantStanding { wins: 85, losses: 59 },
            PennantStanding { wins: 88, losses: 56 },
            PennantStanding { wins: 90, losses: 54 },
        ]
    );
    let sorted = sort_by_wins(vec![
        PennantStanding { wins: 70, losses: 74 },
        PennantStanding { wins: 60, losses: 84 },
        PennantStanding { wins: 65, losses: 79 },
    ]);
    let wins: Vec<i32> = sorted.iter().map(|s| s.wins).collect();
    assert_eq!(wins, vec![60, 65, 70]);
}

#[test]
fn games_and_outcomes() {
    assert_eq!(Outcome::Out(2).to_string(), "Out 2");
    assert_eq!(Outcome::Hit(-1).to_string(), "Hit -1");
    assert_eq!(Outcome::Poss_Error(5).to_string(), "Poss Error 5");
    assert_eq!(Outcome::Walk.to_string(), "Walk");
    assert_eq!(Outcome::Oddity.to_string(), "Oddity");
    assert!(match_check(1));
    assert!(match_check(12));
    assert!(!match_check(13));
    assert!(!match_check(19));
    assert!(match_check(20));
    assert_eq!(last_digit(-123), 3);
    assert_eq!(last_digit(7), 7);
    assert!(less_than_target(40, 40));
    assert!(!less_than_target(41, 40));
    assert_eq!(form_check(-21), -42);
    let mut t = rand::thread_rng();
    let mut home = team_with_id(1, 100);
    let mut away = team_with_id(2, 0);
    let mut home_wins = 0;
    for _ in 0..200 {
        if play_game(&mut home, &mut away, &mut t) {
            home_wins += 1;
        }
    }
    // A favorite a hundred points ahead wins every roll of 1 to 99.
    assert_eq!(home_wins, 200);
    assert_eq!((home.wins, home.losses, away.wins, away.losses), (200, 0, 0, 200));
    let mut a = team_with_id(3, 10);
    let mut b = team_with_id(4, 10);
    for _ in 0..50 {
        play_game(&mut a, &mut b, &mut t);
    }
    assert_eq!(a.wins + a.losses, 50);
    assert_eq!(a.wins, b.losses);
}

#[test]
fn planned_changes() {
    let mut players = vec![
        Player { player_id: 3, bt: 30, obt_mod: 5, obt: 35, ..Player::default() },
        Player { player_id: 8, bt: 20, obt_mod: 4, obt: 24, ..Player::default() },
        Player { player_id: 8, bt: 25, obt_mod: 4, obt: 29, ..Player::default() },
    ];
    assert_eq!(get_player_from_id(8, &players), Ok(1));
    assert_eq!(get_player_from_id(9, &players), Err(()));
    Future { change: FutureChange::BT(-3), player_id: 8 }.activate(&mut players);
    assert_eq!((players[1].bt, players[1].obt), (17, 21));
    assert_eq!((players[2].bt, players[2].obt), (25, 29));
    Future { change: FutureChange::PD(2), player_id: 3 }.activate(&mut players);
    assert_eq!(players[0].bt, 30);
    Future { change: FutureChange::BT(5), player_id: 99 }.activate(&mut players);
    assert_eq!(players.len(), 3);
}

#[test]
fn pools_take_their_category() {
    let batter = Player::default();
    let pitcher = Player { pd: Some(PD::D6), ..Player::default() };
    assert!(PlayerCategory::Batter.filter(&batter));
    assert!(!PlayerCategory::Batter.filter(&pitcher));
    assert!(PlayerCategory::Pitcher.filter(&pitcher));
    assert!(PlayerCategory::Both.filter(&batter));
    let mut pool = PlayerPool::new("Bullpen", PlayerCategory::Pitcher);
    assert_eq!(pool.desc(), "Bullpen");
    assert_eq!(pool.category(), PlayerCategory::Pitcher);
    assert!(pool.vec().is_empty());
    pool.add_player(pitcher);
    assert_eq!(pool.vec().len(), 1);
    assert_eq!(pool.vec()[0].pd, Some(PD::D6));
}

#[test]
fn minor_leaguers() {
    let mut t = rand::thread_rng();
    let mut prospect = MinorLeaguer {
        potential_quality: BatterQuality::Farmhand,
        name: "Kid".to_string(),
        hand: Hand::S,
        gender: PlayerGender::Male,
        era: Era::Modern,
    };
    prospect.upgrade();
    assert_eq!(prospect.potential_quality, BatterQuality::TopProspect);
    let p = prospect.unveil(&mut t);
    assert_eq!(p.name, "Kid");
    assert_eq!(p.hand, Hand::S);
    assert!(p.pd.is_none());
    let arm = MinorLeaguer {
        potential_quality: PitcherQuality::TopProspect,
        name: "Arm".to_string(),
        hand: Hand::L,
        gender: PlayerGender::Female,
        era: Era::Ancient,
    };
    let q = arm.unveil(&mut t);
    assert!(Era::Ancient.get_all_pd().contains(&q.pd.unwrap()));
}

#[test]
fn ranking_order() {
    assert!(text_less("abc", "abd"));
    assert!(text_less("ab", "abc"));
    assert!(!text_less("abc", "abc"));
    assert!(!text_less("b", "abc"));
    let key = |a: i32, b: i32, t: &str| RankKey { first: a, second: b, third: 0, text: t.to_string() };
    assert!(key_less(&key(1, 9, "z"), &key(2, 0, "a")));
    assert!(key_less(&key(2, 0, "a"), &key(2, 0, "b")));
    let keys = vec![key(1, 0, "x"), key(3, 0, "y"), key(2, 5, "z"), key(3, 0, "a")];
    assert_eq!(descending_order(&keys), vec![1, 3, 2, 0]);
    assert_eq!(ranked_text(&keys), "\ny\na\nz\nx");
    assert_eq!(ranked_text(&Vec::new()), "");
}

#[test]
fn pennant_standings_go_to_every_team() {
    let mut t = rand::thread_rng();
    let mut league = deadball::league::League::new(&"P".to_string(), PlayerGender::Male, Era::Modern, 1);
    for id in 1..=4 {
        league.teams.push(team_with_id(id, 0));
    }
    let standings = vec![
        PennantStanding { wins: 10, losses: 20 },
        PennantStanding { wins: 12, losses: 18 },
        PennantStanding { wins: 16, losses: 14 },
        PennantStanding { wins: 22, losses: 8 },
    ];
    let pairs = league.apply_pennant_standings(&standings, &mut t);
    let mut records: Vec<(i32, i32)> = league.teams.iter().map(|team| (team.wins, team.losses)).collect();
    records.sort();
    assert_eq!(records, vec![(10, 20), (12, 18), (16, 14), (22, 8)]);
    for (i, team) in league.teams.iter().enumerate() {
        assert_eq!(team.team_id, i as i64 + 1);
        assert_eq!(pairs[i], (team.team_id, PennantStanding { wins: team.wins, losses: team.losses }));
    }
}

#[test]
fn losers_come_from_the_first_try_that_completes() {
    let mut t = rand::thread_rng();
    // With 5 minimum wins no candidate adds up to the games; with 4 the pair
    // (4, 6) completes the race.
    let r = generate_losers(10, 20, 1, 16, 14, &mut t, 6, &vec![5, 4]);
    assert_eq!(r, Some(vec![PennantStanding { wins: 4, losses: 6 }]));
    assert_eq!(generate_losers(10, 20, 1, 16, 14, &mut t, 6, &vec![5]), None);
    assert_eq!(generate_losers(10, 20, 1, 16, 14, &mut t, 6, &vec![]), None);
}
