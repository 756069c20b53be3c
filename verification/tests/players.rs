use deadball::b_traits::BTraits;
use deadball::era::Era;
use deadball::pd::PD;
use deadball::player::{AgeCat, Hand, Player, PlayerGender};
use deadball::player_quality::{hand_from_roll, pitcher_trait_from_roll, BatterQuality, PitcherQuality};
use deadball::position::{PlayerPosition, PositionCategory, TwoWayInfo};
use deadball::text::{int_to_string, nat_to_string, str_eq};
use deadball::tier::Tier;
use deadball::traits::{trait_to_sql_text, Contact, Defense, PitcherTrait, PlayerTrait, Power, Speed, Toughness};

fn batter(name: &str, bt: i32, obt_mod: i32) -> Player {
    Player {
        name: name.to_string(),
        age: 25,
        pos: PlayerPosition::C,
        hand: Hand::R,
        bt,
        obt_mod,
        obt: bt + obt_mod,
        ..Player::default()
    }
}

#[test]
fn numbers_are_written_in_decimal() {
    assert_eq!(nat_to_string(0), "0");
    assert_eq!(nat_to_string(1234), "1234");
    assert_eq!(int_to_string(-45), "-45");
    assert_eq!(int_to_string(i64::MIN), "-9223372036854775808");
    assert!(str_eq("abc", "abc"));
    assert!(!str_eq("abc", "abd"));
}

#[test]
fn trait_numbers_and_symbols() {
    assert_eq!(Power::P2.to_int(), 2);
    assert_eq!(Power::PM1.get_rbi_score(), -3);
    assert_eq!(Contact::C1.get_rbi_score(), 2);
    assert_eq!(Speed::SM1.to_display(), "S-");
    assert_eq!(Defense::D1.to_display(), "D+");
    assert_eq!(Toughness::T1.to_int(), 1);
    assert_eq!(Power::P0.to_display(), "");
    assert_eq!(trait_to_sql_text(&Power::P0), None);
    assert_eq!(trait_to_sql_text(&Speed::S2), Some("S++".to_string()));
    assert_eq!(PitcherTrait::CNM.to_name(), "CNM");
    assert_eq!(PitcherTrait::from_name("GB"), Some(PitcherTrait::GB));
    assert_eq!(PitcherTrait::from_name("XX"), None);
}

#[test]
fn trait_symbols_read_back() {
    for p in [Power::P2, Power::P1, Power::PM1, Power::PM2] {
        assert_eq!(Power::from_name(&p.to_display()), Some(p));
    }
    for s in [Speed::S2, Speed::S1, Speed::SM1] {
        assert_eq!(Speed::from_name(&s.to_display()), Some(s));
    }
    for c in [Contact::C1, Contact::CM1] {
        assert_eq!(Contact::from_name(&c.to_display()), Some(c));
    }
    for d in [Defense::D1, Defense::DM1] {
        assert_eq!(Defense::from_name(&d.to_display()), Some(d));
    }
    assert_eq!(Toughness::from_name(&Toughness::T1.to_display()), Some(Toughness::T1));
    assert_eq!(Power::from_name(""), None);
}

#[test]
fn traits_from_text() {
    let b = BTraits::from_string("C+, P--,S++ ,D-,T+").unwrap();
    assert_eq!(b.contact, Contact::C1);
    assert_eq!(b.power, Power::PM2);
    assert_eq!(b.speed, Speed::S2);
    assert_eq!(b.defense, Defense::DM1);
    assert_eq!(b.toughness, Toughness::T1);
    // A later trait of the same kind wins.
    let later = BTraits::from_string("P+,P--").unwrap();
    assert_eq!(later.power, Power::PM2);
    assert_eq!(later, BTraits::from_string("P--").unwrap());
    assert_eq!(BTraits::from_string("S+,S++").unwrap(), BTraits::from_string("S++").unwrap());
    assert_eq!(BTraits::from_string("C-,C+").unwrap(), BTraits::from_string("C+").unwrap());
    // Empty words are skipped.
    assert_eq!(BTraits::from_string(" , ,").unwrap(), BTraits::default());
    assert_eq!(
        BTraits::from_string("P +").unwrap_err(),
        "Warning: Attempted to parse invalid string '\"P +\"' as a trait"
    );
}

#[test]
fn each_trait_symbol_reads_back_alone() {
    for p in [Power::P2, Power::P1, Power::PM1, Power::PM2] {
        let b = BTraits::from_string(&p.to_display()).unwrap();
        assert_eq!(b, BTraits { power: p, ..BTraits::default() });
    }
    for s in [Speed::S2, Speed::S1, Speed::SM1] {
        let b = BTraits::from_string(&s.to_display()).unwrap();
        assert_eq!(b, BTraits { speed: s, ..BTraits::default() });
    }
    for c in [Contact::C1, Contact::CM1] {
        assert_eq!(BTraits::from_string(&c.to_display()).unwrap(), BTraits { contact: c, ..BTraits::default() });
    }
    for d in [Defense::D1, Defense::DM1] {
        assert_eq!(BTraits::from_string(&d.to_display()).unwrap(), BTraits { defense: d, ..BTraits::default() });
    }
    assert_eq!(
        BTraits::from_string("T+").unwrap(),
        BTraits { toughness: Toughness::T1, ..BTraits::default() }
    );
}

#[test]
fn trait_sums() {
    let b = BTraits {
        contact: Contact::C1,
        defense: Defense::DM1,
        power: Power::P2,
        speed: Speed::S1,
        toughness: Toughness::T0,
    };
    assert_eq!(b.to_int(), 3);
    assert_eq!(b.get_trade_value(), 15);
    assert_eq!(b.get_rbi_score(), 8);
    let a = b.get_above_average();
    assert!(a.contact && !a.defense && a.power && a.speed && !a.toughness);
    assert_eq!(b.to_display(), "C+D-P++S+");
}

#[test]
fn rolls_give_traits() {
    let mut b = BTraits::default();
    assert!(b.apply_roll(16));
    assert_eq!(b.power, Power::P1);
    // A weaker trait of the same direction does not replace a stronger one.
    assert!(b.apply_roll(20));
    assert_eq!(b.power, Power::P2);
    assert!(b.apply_roll(16));
    assert_eq!(b.power, Power::P2);
    assert!(!b.apply_roll(10));
    assert!(b.apply_roll(2));
    assert_eq!(b.power, Power::P2);
    let mut t = rand::thread_rng();
    let mut g = BTraits::default();
    let gave = g.generate(&mut t);
    assert_eq!(gave, g != BTraits::default());
}

#[test]
fn pitch_dice() {
    assert_eq!(PD::D12.to_int(), 12);
    assert_eq!(PD::DM8.to_int(), -8);
    assert_eq!(PD::new_custom_pd(7), PD::Custom(7));
    assert_eq!(PD::D4.get_range(), vec![1, 2, 3, 4]);
    assert_eq!(PD::DM4.get_range(), vec![-4, -3, -2, -1]);
    assert!(PD::D0.get_range().is_empty());
    assert_eq!(PD::D4.get_average_parts(), (10, 4));
    assert_eq!(PD::D20.to_display(), "d20");
    assert_eq!(PD::DM12.to_display(), "-d12");
    assert_eq!(PD::D0.to_display(), "-d0");
    assert_eq!(PD::D0.to_stored_name(), Some("No dice"));
    assert_eq!(PD::Custom(3).to_stored_name(), None);
    assert_eq!(PD::from_stored_name("-d6"), Some(PD::DM6));
    assert_eq!(PD::from_stored_name("d20"), Some(PD::D20));
    assert_eq!(PD::from_stored_name("d7"), None);
    assert_eq!(PD::D20.get_tier(), Tier::S(0));
    assert_eq!(PD::D8.get_tier(), Tier::B(0));
    assert_eq!(PD::DM4.get_tier(), Tier::F(0));
}

#[test]
fn dice_are_ordered_by_number() {
    assert!(PD::D12 > PD::D8);
    assert!(PD::DM4 < PD::D0);
    assert_eq!(PD::Custom(12).partial_cmp(&PD::D12), Some(std::cmp::Ordering::Equal));
    assert_eq!(PD::DM20.partial_cmp(&PD::D20), Some(std::cmp::Ordering::Less));
}

#[test]
fn stored_dice_names_read_back() {
    for pd in [PD::D20, PD::D12, PD::D8, PD::D6, PD::D4, PD::D0, PD::DM4, PD::DM6, PD::DM8, PD::DM12] {
        assert_eq!(PD::from_stored_name(pd.to_stored_name().unwrap()), Some(pd));
    }
}

#[test]
fn tiers() {
    assert_eq!(Tier::B(0).add(2), Tier::B(2));
    assert_eq!(Tier::C(1).add(-3), Tier::C(-2));
    assert_eq!(Tier::A(-1).get_letter_num(), ("A", -1));
    assert_eq!(Tier::S(3).to_display(), "S+++");
    assert_eq!(Tier::D(-2).to_display(), "D--");
    assert_eq!(Tier::F(0).to_display(), "F");
}

#[test]
fn eras() {
    assert_eq!(Era::Ancient.pd_from_roll(1), PD::D20);
    assert_eq!(Era::Ancient.pd_from_roll(7), PD::D6);
    assert_eq!(Era::Ancient.pd_from_roll(14), PD::DM8);
    assert_eq!(Era::Modern.pd_from_roll(1), PD::D12);
    assert_eq!(Era::Modern.pd_from_roll(5), PD::D4);
    assert_eq!(Era::Modern.pd_from_roll(9), PD::DM4);
    assert_eq!(Era::Modern.get_all_pd(), vec![PD::D12, PD::D8, PD::D4, PD::DM4]);
    assert_eq!(Era::Ancient.get_all_pd().len(), 8);
    let mut t = rand::thread_rng();
    for _ in 0..50 {
        let pd = Era::Modern.new_pd(&mut t, &PitcherQuality::TopProspect);
        assert!(Era::Modern.get_all_pd().contains(&pd));
    }
    assert_eq!(Era::Ancient.to_display(), "Ancient");
    assert_eq!(Era::from_name("Modern"), Some(Era::Modern));
    assert_eq!(Era::from_name("modern"), None);
    for e in [Era::Ancient, Era::Modern] {
        assert_eq!(Era::from_name(e.to_display()), Some(e));
    }
}

#[test]
fn positions() {
    assert!(PlayerPosition::SP.matches_cat(PositionCategory::Pitcher));
    assert!(PlayerPosition::SS.matches_cat(PositionCategory::Infielder));
    assert!(PlayerPosition::CF.matches_cat(PositionCategory::Outfielder));
    assert!(PlayerPosition::C.matches_cat(PositionCategory::Catcher));
    assert!(!PlayerPosition::C.matches_cat(PositionCategory::Pitcher));
    assert_eq!(PlayerPosition::FirstBase.name_str(), "1B");
    assert_eq!(PlayerPosition::FirstBase.to_json(), "\"1B\"");
    assert_eq!(PlayerPosition::from_name("INF"), Some(PlayerPosition::INF));
    assert_eq!(PlayerPosition::from_name("DH"), None);
    assert_eq!(PlayerPosition::get_all_batter_positions().len(), 12);
    assert_eq!(PlayerPosition::get_all_pitcher_positions(Era::Modern), vec![PlayerPosition::SP, PlayerPosition::RP]);
    let two_way = TwoWayInfo::new(PlayerPosition::SP, PlayerPosition::LF);
    assert!(two_way.is_valid().is_ok());
    assert_eq!(two_way.to_display(), "\"SP\"/\"LF\"");
    let pos = PlayerPosition::TwoWay(Box::new(two_way));
    assert_eq!(pos.get_pitcher_type(), Ok(&PlayerPosition::SP));
    assert!(pos.matches_cat(PositionCategory::Pitcher));
    assert!(pos.matches_cat(PositionCategory::Outfielder));
    let bad = TwoWayInfo::new(PlayerPosition::LF, PlayerPosition::CF);
    assert_eq!(
        bad.is_valid().unwrap_err(),
        "A two way player must have a valid pitcher and fielder type\n\"LF\"/\"CF\""
    );
    assert_eq!(PlayerPosition::C.get_pitcher_type().unwrap_err(), "Not a pitcher");
    let nested = TwoWayInfo::new(
        PlayerPosition::TwoWay(Box::new(TwoWayInfo::new(PlayerPosition::SP, PlayerPosition::LF))),
        PlayerPosition::CF,
    );
    assert_eq!(
        nested.is_valid().unwrap_err(),
        "A two way player can not have its pitcher or fielder type be a two way player\n{\"TwoWay\":{\"pitcher_type\":\"SP\",\"fielder_type\":\"LF\"}}/\"CF\""
    );
}

#[test]
fn position_names_read_back() {
    for p in PlayerPosition::get_all_batter_positions() {
        assert_eq!(PlayerPosition::from_name(p.name_str()), Some(p.clone()));
    }
    for p in [PlayerPosition::P, PlayerPosition::SP, PlayerPosition::RP, PlayerPosition::UT] {
        assert_eq!(PlayerPosition::from_name(p.name_str()), Some(p.clone()));
    }
}

#[test]
fn ages_and_hands() {
    assert_eq!(AgeCat::from_roll(1), AgeCat::Prospect);
    assert_eq!(AgeCat::from_roll(4), AgeCat::Rookie);
    assert_eq!(AgeCat::from_roll(5), AgeCat::Veteran);
    assert_eq!(AgeCat::from_roll(6), AgeCat::OldTimer);
    let mut t = rand::thread_rng();
    for _ in 0..30 {
        let age = AgeCat::OldTimer.new_age(&mut t);
        assert!((33..=38).contains(&age));
    }
    assert_eq!(hand_from_roll(3, false), Hand::R);
    assert_eq!(hand_from_roll(8, true), Hand::L);
    assert_eq!(hand_from_roll(10, false), Hand::S);
    assert_eq!(hand_from_roll(10, true), Hand::L);
    assert_eq!(Hand::options_for(Some(PD::D8)), vec![Hand::L, Hand::R]);
    assert_eq!(Hand::options_for(None), vec![Hand::L, Hand::R, Hand::S]);
    for h in [Hand::R, Hand::L, Hand::S] {
        assert_eq!(Hand::from_name(h.to_display()), Some(h));
    }
    for g in [PlayerGender::Male, PlayerGender::Female, PlayerGender::Coed] {
        assert_eq!(PlayerGender::from_name(g.to_display()), Some(g));
    }
    assert_eq!(PlayerGender::from_name("male"), None);
    assert_eq!(pitcher_trait_from_roll(15), Some(PitcherTrait::K));
    assert_eq!(pitcher_trait_from_roll(5), Some(PitcherTrait::CNM));
    assert_eq!(pitcher_trait_from_roll(10), None);
}

#[test]
fn new_names_join_first_and_last() {
    for g in [PlayerGender::Male, PlayerGender::Female, PlayerGender::Coed] {
        for _ in 0..20 {
            let name = g.new_name();
            assert!(name.contains(' '));
        }
    }
}

#[test]
fn generated_players() {
    let mut t = rand::thread_rng();
    for _ in 0..20 {
        let b = Player::new(PlayerPosition::SS, PlayerGender::Female, BatterQuality::TopProspect, &mut t, Era::Modern);
        assert_eq!(b.pos, PlayerPosition::SS);
        assert!(b.pd.is_none());
        assert!(b.pitcher_trait.is_none());
        assert_eq!(b.obt, b.bt + b.obt_mod);
        assert!((19..=38).contains(&b.age));
        assert_eq!(b.trade_value, b.bt + b.b_traits.get_trade_value());
        assert!(b.get_player_error(0).is_none());
        let p = Player::new(PlayerPosition::RP, PlayerGender::Male, PitcherQuality::TopProspect, &mut t, Era::Ancient);
        let pd = p.pd.unwrap();
        assert!(Era::Ancient.get_all_pd().contains(&pd));
        assert_eq!(p.b_traits, BTraits::default());
        assert_ne!(p.hand, Hand::S);
        assert!(p.get_player_error(pd.to_int()).is_none());
        let expected_trade = match p.pitcher_trait {
            Some(_) => (pd.to_int() + 1) * 5,
            None => pd.to_int() * 5,
        };
        assert_eq!(p.trade_value, expected_trade);
    }
}

#[test]
fn player_scores() {
    let mut p = batter("Ann", 30, 5);
    p.b_traits.speed = Speed::S1;
    assert_eq!(p.get_leadoff_score(), 37);
    p.b_traits.power = Power::P1;
    assert_eq!(p.get_leadoff_score(), 33);
    assert_eq!(p.get_rbi_score(), 33);
    let s = p.get_lineup_score();
    assert_eq!((s.leadoff_score, s.rbi_score, s.switch_hitter_bonus), (33, 33, 0));
    assert_eq!(p.get_team_score_contribution(), 30);
    assert!(!p.is_pitcher());
    assert_eq!(p.get_base_pd(), PD::DM20);
    let mut pitcher = batter("Bo", 10, 2);
    pitcher.pd = Some(PD::D8);
    pitcher.pitcher_trait = Some(PitcherTrait::K);
    assert_eq!(pitcher.get_team_score_contribution(), 8);
    let info = pitcher.get_pitcher_rank_info();
    assert_eq!((info.num, info.age), (9, 25));
}

#[test]
fn player_text_and_tier() {
    let mut p = batter("Ann", 30, 5);
    assert_eq!(p.to_display(), "Ann,\"C\",25,R,30,35");
    p.b_traits.contact = Contact::C1;
    p.note = Some("fast".to_string());
    assert_eq!(p.to_display(), "Ann,\"C\",25,R,30,35,C+ fast");
    assert_eq!(p.get_tier(), Tier::B(1));
    let mut pitcher = batter("Bo", 10, 2);
    pitcher.pos = PlayerPosition::SP;
    pitcher.pd = Some(PD::D8);
    pitcher.pitcher_trait = Some(PitcherTrait::K);
    assert_eq!(pitcher.to_display(), "Bo,\"SP\",25,R,d8,K+, 10,12");
    assert_eq!(pitcher.get_tier(), Tier::B(5));
}

#[test]
fn player_errors() {
    let mut p = batter("Cy", 0, 5);
    p.age = 0;
    p.obt = 7;
    p.player_id = 12;
    let e = p.get_player_error(0).unwrap();
    assert_eq!(e.valid_age, Some(0));
    assert_eq!(e.valid_bt, Some(0));
    assert_eq!(e.valid_obt, None);
    assert_eq!(e.id, 12);
    assert!(e.to_display().starts_with("Warning: Cy has errors in the database["));
    assert!(e.to_display().ends_with("\n]\n Player ID = 12"));
    let mut pitcher = batter("Di", 10, 2);
    pitcher.pd = Some(PD::D8);
    assert!(pitcher.get_player_error(8).is_none());
    assert!(pitcher.get_player_error(6).is_some());
}
