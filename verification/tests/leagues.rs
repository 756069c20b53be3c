use std::collections::HashMap;

use deadball::edit_league_error::{handle_inquire_error, handle_serde_error, handle_sql_error, inquire_check, prompt_error_outcome, EditLeagueError};
use deadball::era::Era;
use deadball::league::{name_taken, vec_to_hash, BatterPosType, League, LeagueWrapper};
use deadball::league_template::{league_from_template, load_league_templates, template_league_name};
use deadball::main_menu::{EditLeagueInput, LoadLeagueInput, MenuInput, RankingsChoice};
use deadball::pd::PD;
use deadball::player::{Hand, Player, PlayerGender};
use deadball::position::PlayerPosition;
use deadball::team::{Team, TeamSpot};

fn player(name: &str, bt: i32, pd: Option<PD>) -> Player {
    Player {
        name: name.to_string(),
        age: 30,
        pos: if pd.is_some() { PlayerPosition::SP } else { PlayerPosition::LF },
        hand: Hand::L,
        bt,
        obt_mod: 3,
        obt: bt + 3,
        pd,
        ..Player::default()
    }
}

fn empty_team(bullpen: bool) -> Team {
    Team {
        abrv: "TT".to_string(),
        name: "Test Team".to_string(),
        lineup: Vec::new(),
        bench: Vec::new(),
        starting_pitching: Vec::new(),
        bullpen: if bullpen { Some(Vec::new()) } else { None },
        team_score: 0,
        wins: 0,
        losses: 0,
        team_id: 4,
        note: None,
    }
}

#[test]
fn new_teams_have_full_rosters() {
    let mut t = rand::thread_rng();
    let modern = Team::new(&"SEA".to_string(), &"Seattle".to_string(), PlayerGender::Male, Era::Modern, &mut t);
    assert_eq!(modern.abrv, "SEA");
    assert_eq!(modern.name, "Seattle");
    assert_eq!(modern.lineup.len(), 8);
    assert_eq!(modern.bench.len(), 5);
    assert_eq!(modern.starting_pitching.len(), 5);
    assert_eq!(modern.bullpen.as_ref().unwrap().len(), 7);
    let positions: Vec<&str> = modern.lineup.iter().map(|p| p.pos.name_str()).collect();
    assert_eq!(positions, vec!["C", "1B", "2B", "3B", "SS", "LF", "CF", "RF"]);
    assert!(modern.starting_pitching.iter().all(|p| p.pos == PlayerPosition::SP));
    let ancient = Team::new(&"OAK".to_string(), &"Oakland".to_string(), PlayerGender::Coed, Era::Ancient, &mut t);
    assert_eq!(ancient.bench.len(), 4);
    assert!(ancient.bullpen.is_none());
    assert!(ancient.starting_pitching.iter().all(|p| p.pos == PlayerPosition::P));
    assert_eq!((ancient.wins, ancient.losses, ancient.team_id), (0, 0, 0));
}

#[test]
fn team_score_formula() {
    let mut team = empty_team(true);
    team.lineup.push(player("A", 30, None));
    team.lineup.push(player("B", 25, None));
    team.bench.push(player("C", 20, None));
    team.starting_pitching.push(player("D", 10, Some(PD::D12)));
    team.bullpen.as_mut().unwrap().push(player("E", 10, Some(PD::DM4)));
    assert!(team.team_score_check());
    team.calc_team_score();
    // (30 + 25 + 20 + 7 * (12 - 4)) / 10 = 131 / 10
    assert_eq!(team.team_score, 13);
    let mut low = empty_team(false);
    low.lineup.push(player("F", -50, None));
    low.calc_team_score();
    // Rust rounds toward zero.
    assert_eq!(low.team_score, -5);
    let mut huge = empty_team(false);
    huge.lineup.push(player("G", i32::MAX - 10, None));
    huge.lineup.push(player("H", 100, None));
    assert!(!huge.team_score_check());
}

#[test]
fn loaded_players_are_placed_by_spot() {
    let mut team = empty_team(false);
    let loaded = vec![
        (TeamSpot::StartingLineup, player("A", 30, None)),
        (TeamSpot::Bullpen, player("R", 10, Some(PD::D4))),
        (TeamSpot::BenchHitter, player("B", 20, None)),
        (TeamSpot::StartingPitcher, player("P", 10, Some(PD::D8))),
        (TeamSpot::StartingLineup, player("C", 28, None)),
    ];
    let moved = team.place_loaded_players(loaded);
    let names: Vec<&str> = team.lineup.iter().map(|p| p.name.as_str()).collect();
    assert_eq!(names, vec!["A", "C"]);
    assert_eq!(team.bench.len(), 1);
    let pitchers: Vec<&str> = team.starting_pitching.iter().map(|p| p.name.as_str()).collect();
    assert_eq!(pitchers, vec!["R", "P"]);
    assert_eq!(moved, vec![1]);
    let mut with_pen = empty_team(true);
    let moved = with_pen.place_loaded_players(vec![(TeamSpot::Bullpen, player("R", 10, Some(PD::D4)))]);
    assert!(moved.is_empty());
    assert!(with_pen.starting_pitching.is_empty());
    assert_eq!(with_pen.bullpen.unwrap().len(), 1);
    let mut single = empty_team(false);
    assert!(!single.add_loaded_player(TeamSpot::Bullpen, player("R", 10, Some(PD::D4))));
    assert_eq!(single.starting_pitching.len(), 1);
    assert!(single.bullpen.is_none());
    assert!(single.add_loaded_player(TeamSpot::BenchHitter, player("B", 10, None)));
}

#[test]
fn team_spots() {
    assert_eq!(TeamSpot::BenchHitter.to_display(), "Bench Hitter");
    assert_eq!(TeamSpot::StartingPitcher.to_name(), "StartingPitcher");
    for s in [TeamSpot::StartingLineup, TeamSpot::BenchHitter, TeamSpot::StartingPitcher, TeamSpot::Bullpen] {
        assert_eq!(TeamSpot::from_name(s.to_name()), Some(s));
    }
    assert_eq!(TeamSpot::from_name("Bench Hitter"), None);
}

#[test]
fn team_text_lists_players_best_first() {
    let mut team = empty_team(false);
    team.lineup.push(player("Low", 20, None));
    team.lineup.push(player("High", 35, None));
    team.starting_pitching.push(player("Weak", 10, Some(PD::D4)));
    team.starting_pitching.push(player("Ace", 10, Some(PD::D12)));
    team.calc_team_score();
    let text = team.to_display();
    let expected = "Name:Test Team, Abrv:TT, Team Score: 16\n\
Lineup:\nName Pos Age Hand BT OBT Traits\nHigh,\"LF\",30,L,35,38\nLow,\"LF\",30,L,20,23\n\
Bench:\nName Pos Age Hand BT OBT Traits\n\
Rotation:\nName Pos Age Hand PD Trait BT OBT\nAce,\"SP\",30,L,d12, 10,13\nWeak,\"SP\",30,L,d4, 10,13\n";
    assert_eq!(text, expected);
}

#[test]
fn team_text_orders_ties_by_text() {
    let mut team = empty_team(true);
    team.lineup.push(player("Abe", 30, None));
    team.lineup.push(player("Zed", 30, None));
    team.lineup.push(player("Moe", 30, None));
    let text = team.to_display();
    assert!(text.contains("\nZed,\"LF\",30,L,30,33\nMoe,\"LF\",30,L,30,33\nAbe,\"LF\",30,L,30,33\n"));
    assert!(text.ends_with("Bullpen:\nName Pos Age Hand PD Trait BT OBT\n"));
}

#[test]
fn team_text_ignores_player_order() {
    let mut a = empty_team(true);
    let mut b = empty_team(true);
    for name in ["Ann", "Bea", "Cal"] {
        a.lineup.push(player(name, 28, None));
    }
    for name in ["Cal", "Ann", "Bea"] {
        b.lineup.push(player(name, 28, None));
    }
    a.bullpen.as_mut().unwrap().push(player("R1", 10, Some(PD::D4)));
    a.bullpen.as_mut().unwrap().push(player("R2", 10, Some(PD::D8)));
    b.bullpen.as_mut().unwrap().push(player("R2", 10, Some(PD::D8)));
    b.bullpen.as_mut().unwrap().push(player("R1", 10, Some(PD::D4)));
    assert_eq!(a.to_display(), b.to_display());
    assert_eq!(a.to_display(), a.to_display());
}

#[test]
fn leagues_refuse_clashing_teams() {
    let mut t = rand::thread_rng();
    let mut league = League::new(&"Test".to_string(), PlayerGender::Female, Era::Ancient, 9);
    assert_eq!(league.name, "Test");
    assert_eq!(league.league_id, 9);
    assert!(league.teams.is_empty());
    league.new_team(&"AA".to_string(), &"Alpha".to_string(), &mut t).unwrap();
    league.new_team(&"BB".to_string(), &"Beta".to_string(), &mut t).unwrap();
    assert_eq!(league.teams.len(), 2);
    assert!(league.teams[1].bullpen.is_none());
    assert!(matches!(league.check_new_team(&"AA".to_string(), &"Gamma".to_string()), Err(EditLeagueError::AbrvTaken)));
    assert!(matches!(league.check_new_team(&"CC".to_string(), &"Beta".to_string()), Err(EditLeagueError::NameTaken)));
    assert!(matches!(league.check_new_team(&"BB".to_string(), &"Alpha".to_string()), Err(EditLeagueError::NameTaken)));
    assert!(league.check_new_team(&"CC".to_string(), &"Gamma".to_string()).is_ok());
    assert!(matches!(league.new_team(&"CC".to_string(), &"Alpha".to_string(), &mut t), Err(EditLeagueError::NameTaken)));
    assert_eq!(league.teams.len(), 2);
    assert_eq!(league.team_listing(), "\nAA Alpha\nBB Beta");
    league.teams[0].team_id = 5;
    league.teams[1].team_id = 6;
    let by_id = league.new_team_hash();
    assert_eq!(by_id.len(), 2);
    assert_eq!(by_id.get(&6).unwrap().name, "Beta");
}

#[test]
fn league_texts() {
    let league = League::new(&"Coast".to_string(), PlayerGender::Male, Era::Modern, 3);
    let wrapper = LeagueWrapper { league_id: 3, league };
    assert_eq!(wrapper.to_display(), "3_Coast");
    assert_eq!(BatterPosType::Catchers.get_sql_text(), "\n\t AND players.pos IN ('C')\n");
    assert_eq!(BatterPosType::All.get_sql_text(), "\n\t AND players.PD IS NULL\n");
    assert_eq!(BatterPosType::Outfielders.to_display(), "Outfielders");
    let taken = vec!["One".to_string(), "Two".to_string()];
    assert!(name_taken(&taken, &"Two".to_string()));
    assert!(!name_taken(&taken, &"Three".to_string()));
    let hash = vec_to_hash(&taken);
    assert_eq!(hash.len(), 2);
    assert_eq!(hash.get(&"One".to_string()), Some(&true));
}

#[test]
fn template_names() {
    let templates = load_league_templates();
    assert_eq!(templates.len(), 1);
    let pcl = &templates[0];
    assert_eq!(pcl.to_display(), "[ name:PCL, era:Modern, gender:Male]");
    assert_eq!(pcl.teams_templates.len(), 8);
    assert_eq!(pcl.teams_templates[1].abrv, "HWYD");
    let none: Vec<String> = Vec::new();
    assert_eq!(template_league_name(&pcl.name, &vec![], &none), "PCL_1");
    assert_eq!(template_league_name(&pcl.name, &vec![0], &none), "PCL_1");
    let taken = vec!["PCL_2".to_string(), "PCL_3".to_string()];
    assert_eq!(template_league_name(&pcl.name, &vec![1], &taken), "PCL_4");
    assert_eq!(template_league_name(&pcl.name, &vec![3], &taken), "PCL_4");
    assert!(pcl.teams_are_distinct());
}

#[test]
fn templates_with_clashing_teams_are_caught() {
    let mut templates = load_league_templates();
    let pcl = &mut templates[0];
    pcl.teams_templates[3].abrv = "LA".to_string();
    assert!(!pcl.teams_are_distinct());
    pcl.teams_templates[3].abrv = "SAC".to_string();
    pcl.teams_templates[6].name = "Oakland Oaks".to_string();
    assert!(!pcl.teams_are_distinct());
}

#[test]
fn leagues_from_templates() {
    let mut t = rand::thread_rng();
    let templates = load_league_templates();
    let league = league_from_template(&templates[0], &"PCL_7".to_string(), 7, &mut t);
    assert_eq!(league.name, "PCL_7");
    assert_eq!(league.era, Era::Modern);
    assert_eq!(league.teams.len(), 8);
    assert_eq!(league.teams[7].name, "Seattle Rainiers");
    assert_eq!(league.teams[7].abrv, "SEA");
}

#[test]
fn error_conversions() {
    assert_eq!(handle_sql_error::<i32>(Ok(3)).unwrap(), 3);
    assert!(matches!(
        handle_sql_error::<i32>(Err(rusqlite::Error::InvalidQuery)),
        Err(EditLeagueError::DatabaseError(_))
    ));
    let json_err = serde_json::from_str::<i32>("x").unwrap_err();
    assert!(matches!(handle_serde_error::<i32>(Err(json_err)), Err(EditLeagueError::SerdeError(_))));
    assert!(matches!(
        handle_inquire_error::<i32>(Err(inquire::InquireError::OperationInterrupted)),
        Err(EditLeagueError::Inquire(_))
    ));
    assert!(inquire_check(inquire::InquireError::OperationCanceled).is_ok());
    assert_eq!(EditLeagueError::AbrvTaken.to_display(), "Invalid Team and/or Abbreviation");
    assert_eq!(EditLeagueError::PennantError("x".to_string()).to_display(), "Invalid Team and/or Abbreviation");
    assert_eq!(
        EditLeagueError::Inquire(inquire::InquireError::OperationCanceled).to_display(),
        inquire::InquireError::OperationCanceled.to_string()
    );
    assert!(matches!(
        inquire_check(inquire::InquireError::OperationInterrupted),
        Err(EditLeagueError::Inquire(inquire::InquireError::OperationInterrupted))
    ));
}

#[test]
fn prompt_error_outcomes() {
    assert!(prompt_error_outcome(true, inquire::InquireError::OperationCanceled).is_ok());
    assert!(prompt_error_outcome(true, inquire::InquireError::OperationInterrupted).is_ok());
    assert!(matches!(
        prompt_error_outcome(false, inquire::InquireError::OperationCanceled),
        Err(EditLeagueError::Inquire(inquire::InquireError::OperationCanceled))
    ));
    assert!(matches!(
        prompt_error_outcome(false, inquire::InquireError::OperationInterrupted),
        Err(EditLeagueError::Inquire(inquire::InquireError::OperationInterrupted))
    ));
}

#[test]
fn menu_texts() {
    assert_eq!(MenuInput::CreateNewLeague.to_display(), "Create a new league.");
    assert_eq!(
        MenuInput::LoadExistingLeague(LoadLeagueInput::EditLeague(EditLeagueInput::GeneratePennant)).to_display(),
        "Generate a new pennant chase."
    );
    assert_eq!(MenuInput::LoadExistingLeague(LoadLeagueInput::ViewRankings).to_display(), "View the top 10 batter or pitchers for a league.");
    let options = MenuInput::starting_options();
    assert_eq!(options.len(), 8);
    assert_eq!(options[7], MenuInput::Exit);
    assert_eq!(RankingsChoice::Pitchers.to_display(), "View top 10 Pitchers");
    let map: HashMap<i64, bool> = HashMap::new();
    assert!(map.is_empty());
}
