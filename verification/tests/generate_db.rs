use deadball::b_traits::BTraits;
use deadball::era::Era;
use deadball::league::League;
use deadball::league_template::{league_from_template, load_league_templates, template_league_name};
use deadball::pennant::{generate_pennant_standings, PennantLimits};
use deadball::player::Player;
use deadball::traits::{PlayerTrait, Power};

/// The win limits of a pennant race over `games` games, drawn from the same
/// percentages as the pennant generator: 60% to 70% for first place, and
/// 50%, 45%, ... down to 0% for the other teams.
fn limits_for(games: i32) -> PennantLimits {
    let g = games as f32;
    let mut loser_minimum_wins = Vec::new();
    let mut pct: f32 = 0.50;
    while pct >= 0.0 {
        loser_minimum_wins.push((g * pct).floor() as i32);
        pct += -0.05;
    }
    PennantLimits {
        first_place_min_wins: (0.60 * g).floor() as i32,
        first_place_max_wins: (0.70 * g).floor() as i32,
        loser_minimum_wins,
    }
}

fn player_pd_test(player: &Player) -> bool {
    player.pd.is_some()
}

fn player_pool_test(input: &[Player], team_id: i64, for_pitchers: bool) {
    for player in input.iter() {
        assert_eq!(player.bt + player.obt_mod, player.obt);
        assert_eq!(player.team_id, team_id);
        assert_eq!(player_pd_test(player), for_pitchers);
        let pd_int = match player.pd {
            Some(die) => die.to_int(),
            None => 0,
        };
        let player_err = player.get_player_error(pd_int);
        assert!(player_err.is_none());
    }
}

#[test]
fn generate_db() {
    let mut r_thread = rand::thread_rng();
    let templates = load_league_templates();
    let first = &templates[0];
    // Three leagues from the same template, each named after the leagues
    // already made.
    let mut taken_names: Vec<String> = Vec::new();
    let mut leagues: Vec<League> = Vec::new();
    for league_id in 1..=3i64 {
        let league_counts = vec![leagues.len() as i64];
        let league_name = template_league_name(&first.name, &league_counts, &taken_names);
        let league = league_from_template(first, &league_name, league_id, &mut r_thread);
        taken_names.push(league_name);
        leagues.push(league);
    }
    assert_eq!(leagues.len(), 3);
    for i in 1..=3 {
        let test_string = format!("PCL_{}", i);
        assert_eq!(leagues[i - 1].name, test_string);
    }
    let current_league = &mut leagues[0];
    assert_eq!(current_league.name, "PCL_1");
    assert_eq!(current_league.league_id, 1);
    assert_eq!(current_league.teams.len(), 8);
    let first_team = current_league.teams.get(0).unwrap();
    let first_team_id = first_team.team_id;
    assert_eq!(first_team.lineup.len(), 8);
    player_pool_test(&first_team.lineup, first_team_id, false);
    assert_eq!(first_team.bench.len(), 5);
    player_pool_test(&first_team.bench, first_team_id, false);
    assert_eq!(first_team.starting_pitching.len(), 5);
    player_pool_test(&first_team.starting_pitching, first_team_id, true);
    match &first_team.bullpen {
        Some(pen) => {
            assert_eq!(pen.len(), 7);
            player_pool_test(pen, first_team_id, true);
        }
        None => match current_league.era {
            Era::Ancient => {}
            Era::Modern => panic!("Expected a bullpen for a modern team"),
        },
    }
    // A league refuses a second team with a name or an abbreviation it has.
    let double_name_check = current_league.new_team(
        &"NY".to_string(),
        &"Los Angeles Angels".to_string(),
        &mut r_thread,
    );
    assert!(double_name_check.is_err());
    let double_abrv_check = current_league.new_team(
        &"LA".to_string(),
        &"Los Angeles Gladiators".to_string(),
        &mut r_thread,
    );
    assert!(double_abrv_check.is_err());
    // Traits are written as their symbols and read back from them.
    assert_eq!(Power::P2.to_display(), "P++");
    assert_eq!(Power::from_name("P++"), Some(Power::P2));
    let power = BTraits::from_string("P++").unwrap();
    assert_eq!(power.power, Power::P2);
    assert_eq!(BTraits::from_string("P+++++").is_err(), true);
    BTraits::from_string("C+").unwrap();
    BTraits::from_string(" C+").unwrap();
    BTraits::from_string("S+").unwrap();
    assert_eq!(BTraits::from_string("P +").is_err(), true);
    BTraits::from_string("C+,P--").unwrap();
    let limits = limits_for(144);
    let total_teams = current_league.teams.len() as i32;
    generate_pennant_standings(144, &mut r_thread, total_teams, &limits).unwrap();
}
