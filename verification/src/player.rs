//! Players: their attributes, their scores and their text form.

use vstd::prelude::*;
use rand::rngs::ThreadRng;
use crate::b_traits::{BTraitAboveAverage, BTraits, no_traits};
use crate::dice::roll;
use crate::era::Era;
use crate::lineup_score::LineupScore;
use crate::names::{is_full_name, name_of_any_gender, name_of_gender};
use crate::note::{Notable, Note};
use crate::pd::PD;
use crate::pitcher_rank_info::PitcherRankInfo;
use crate::player_error::{CompTable, PlayerError};
use crate::player_quality::{PlayerQuality, generated};
use crate::position::{PlayerPosition, position_text};
use crate::text::{int_text, int_to_string, str_eq};
use crate::tier::Tier;
use crate::traits::{PitcherTrait, PlayerTrait};

verus! {

/// The age bracket of a new player.
#[derive(Copy, Clone, Debug, PartialEq, Eq, Structural)]
pub enum AgeCat {
    Prospect,
    Rookie,
    Veteran,
    OldTimer,
}

impl AgeCat {
    /// The bracket a roll of a six-sided die gives: 1-2 prospect, 3-4 rookie,
    /// 5 veteran, 6 old timer.
    pub open spec fn for_roll(roll: int) -> AgeCat {
        if 1 <= roll <= 2 {
            AgeCat::Prospect
        } else if 3 <= roll <= 4 {
            AgeCat::Rookie
        } else if roll == 5 {
            AgeCat::Veteran
        } else if roll == 6 {
            AgeCat::OldTimer
        } else {
            AgeCat::Rookie
        }
    }

    pub fn from_roll(roll: i32) -> (r: AgeCat)
        ensures
            r == AgeCat::for_roll(roll as int),
    {
        if 1 <= roll && roll <= 2 {
            AgeCat::Prospect
        } else if 3 <= roll && roll <= 4 {
            AgeCat::Rookie
        } else if roll == 5 {
            AgeCat::Veteran
        } else if roll == 6 {
            AgeCat::OldTimer
        } else {
            AgeCat::Rookie
        }
    }

    /// A random bracket.
    pub fn random(thread: &mut ThreadRng) -> (r: AgeCat)
        ensures
            exists|roll: int| 1 <= roll <= 6 && r == AgeCat::for_roll(roll),
    {
        let roll = roll(thread, 1, 6);
        AgeCat::from_roll(roll)
    }

    /// The youngest age of a bracket, less one.
    pub open spec fn base_age(&self) -> int {
        match self {
            AgeCat::Prospect => 18,
            AgeCat::Rookie => 21,
            AgeCat::Veteran => 26,
            AgeCat::OldTimer => 32,
        }
    }

    /// A random age in the bracket: its base plus a roll of a six-sided die.
    pub fn new_age(&self, thread: &mut ThreadRng) -> (r: i32)
        ensures
            self.base_age() + 1 <= r <= self.base_age() + 6,
    {
        let roll = roll(thread, 1, 6);
        match self {
            AgeCat::Prospect => 18 + roll,
            AgeCat::Rookie => 21 + roll,
            AgeCat::Veteran => 26 + roll,
            AgeCat::OldTimer => 32 + roll,
        }
    }
}

/// Players bat or throw right handed or left handed; batters may also switch hit.
#[derive(Debug, Clone, Copy, PartialEq, Eq, Structural)]
pub enum Hand {
    R,
    L,
    S,
}

impl Hand {
    pub open spec fn name(&self) -> Seq<char> {
        match self {
            Hand::R => "R"@,
            Hand::L => "L"@,
            Hand::S => "S"@,
        }
    }

    pub fn to_display(&self) -> (r: &'static str)
        ensures
            r@ == self.name(),
    {
        match self {
            Hand::R => "R",
            Hand::L => "L",
            Hand::S => "S",
        }
    }


    /// The hand with a name, if any.
    pub open spec fn named(w: Seq<char>) -> Option<Hand> {
        if w == "R"@ {
            Some(Hand::R)
        } else if w == "L"@ {
            Some(Hand::L)
        } else if w == "S"@ {
            Some(Hand::S)
        } else {
            None
        }
    }

    pub fn from_name(w: &str) -> (r: Option<Hand>)
        ensures
            r == Hand::named(w@),
    {
        if str_eq(w, "R") {
            Some(Hand::R)
        } else if str_eq(w, "L") {
            Some(Hand::L)
        } else if str_eq(w, "S") {
            Some(Hand::S)
        } else {
            None
        }
    }

    /// The hands a player may be given: a pitcher throws left or right, a
    /// batter may also switch hit.
    pub fn options_for(pd: Option<PD>) -> (r: Vec<Hand>)
        ensures
            pd is Some ==> r@ == seq![Hand::L, Hand::R],
            pd is None ==> r@ == seq![Hand::L, Hand::R, Hand::S],
    {
        let r = match pd {
            Some(_) => vec![Hand::L, Hand::R],
            None => vec![Hand::L, Hand::R, Hand::S],
        };
        assert(pd is Some ==> r@ =~= seq![Hand::L, Hand::R]);
        assert(pd is None ==> r@ =~= seq![Hand::L, Hand::R, Hand::S]);
        r
    }
}

/// Player gender is cosmetic: it is only used to generate a name for the player.
#[derive(Copy, Clone, Debug, PartialEq, Eq, Structural)]
pub enum PlayerGender {
    Male,
    Female,
    Coed,
}

impl PlayerGender {
    /// A random name: with a male first name, a female one, or either, then a
    /// last name, with a space between them.
    pub fn new_name(&self) -> (r: String)
        ensures
            is_full_name(r@),
    {
        match self {
            PlayerGender::Male => name_of_gender(true),
            PlayerGender::Female => name_of_gender(false),
            PlayerGender::Coed => name_of_any_gender(),
        }
    }

    pub open spec fn name(&self) -> Seq<char> {
        match self {
            PlayerGender::Male => "Male"@,
            PlayerGender::Female => "Female"@,
            PlayerGender::Coed => "Coed"@,
        }
    }

    pub fn to_display(&self) -> (r: &'static str)
        ensures
            r@ == self.name(),
    {
        match self {
            PlayerGender::Male => "Male",
            PlayerGender::Female => "Female",
            PlayerGender::Coed => "Coed",
        }
    }


    /// The gender with a name, if any.
    pub open spec fn named(w: Seq<char>) -> Option<PlayerGender> {
        if w == "Male"@ {
            Some(PlayerGender::Male)
        } else if w == "Female"@ {
            Some(PlayerGender::Female)
        } else if w == "Coed"@ {
            Some(PlayerGender::Coed)
        } else {
            None
        }
    }

    pub fn from_name(w: &str) -> (r: Option<PlayerGender>)
        ensures
            r == PlayerGender::named(w@),
    {
        if str_eq(w, "Male") {
            Some(PlayerGender::Male)
        } else if str_eq(w, "Female") {
            Some(PlayerGender::Female)
        } else if str_eq(w, "Coed") {
            Some(PlayerGender::Coed)
        } else {
            None
        }
    }
}

/// `None` when `actual` is above `target`, otherwise `Some(actual)`.
fn get_greater(target: i32, actual: i32) -> (r: Option<i32>)
    ensures
        r == (if actual > target { None } else { Some(actual) }),
{
    if actual > target {
        None
    } else {
        Some(actual)
    }
}

#[derive(Debug)]
pub struct Player {
    pub name: String,
    pub age: i32,
    pub pos: PlayerPosition,
    pub hand: Hand,
    /// Batting target: essentially a player's batting average.
    pub bt: i32,
    /// Added to the batting target to give the on base target.
    pub obt_mod: i32,
    /// On base target: the batting target plus its modifier.
    pub obt: i32,
    /// Pitchers have a pitch die, batters do not.
    pub pd: Option<PD>,
    pub b_traits: BTraits,
    pub pitcher_trait: Option<PitcherTrait>,
    pub trade_value: i32,
    pub team_id: i64,
    pub player_id: i64,
    pub note: Note,
}

impl Default for Player {
    fn default() -> (r: Player)
        ensures
            r.name@ == Seq::<char>::empty(),
            r.age == 0,
            r.pos == PlayerPosition::UT,
            r.hand == Hand::R,
            r.bt == 0,
            r.obt_mod == 0,
            r.obt == 0,
            r.pd is None,
            r.b_traits == no_traits(),
            r.pitcher_trait is None,
            r.trade_value == 0,
            r.team_id == 0,
            r.player_id == 0,
            r.note is None,
    {
        let (age, pos, name, player_id, team_id, note) = Player::get_default_info();
        Player {
            name,
            age,
            pos,
            hand: Hand::R,
            bt: 0,
            obt_mod: 0,
            obt: 0,
            pd: None,
            b_traits: BTraits::default(),
            pitcher_trait: None,
            trade_value: 0,
            team_id,
            player_id,
            note,
        }
    }
}

/// The score of a batter for batting at the top of the lineup: the on base
/// target, two more for a fast batter without power or contact, two less for a
/// batter with power or contact.
pub open spec fn leadoff_score(obt: int, a: BTraitAboveAverage) -> int {
    if a.speed && !a.power && !a.contact {
        obt + 2
    } else if a.power || a.contact {
        obt - 2
    } else {
        obt
    }
}

/// The leadoff score of a batter: two less than the on base target for a
/// batter with an above-average power or contact trait; two more for a
/// batter with an above-average speed trait and neither of those; the on base
/// target otherwise.
pub proof fn law_leadoff_score(obt: int, b: BTraits)
    ensures
        (b.power.value() > 0 || b.contact.value() > 0) ==> leadoff_score(obt, b.get_above_average_spec()) == obt - 2,
        (b.speed.value() > 0 && b.power.value() <= 0 && b.contact.value() <= 0) ==> leadoff_score(
            obt,
            b.get_above_average_spec(),
        ) == obt + 2,
        (b.speed.value() <= 0 && b.power.value() <= 0 && b.contact.value() <= 0) ==> leadoff_score(
            obt,
            b.get_above_average_spec(),
        ) == obt,
{
}

/// What a player adds to the team score: the pitch die's number for a
/// pitcher, the batting target for a batter.
pub open spec fn team_score_contribution(p: Player) -> int {
    if p.pd is Some {
        p.pd->0.value()
    } else {
        p.bt as int
    }
}

/// The number a pitcher is ranked by: the pitch die's number, one more with a
/// pitcher trait.
pub open spec fn pitcher_rank(p: Player) -> int {
    p.base_pd().value() + (if p.pitcher_trait is Some { 1int } else { 0int })
}

/// The grade of a batter's on base target, before traits.
pub open spec fn obt_tier(obt: int) -> Tier {
    if obt >= 40 {
        Tier::S(0)
    } else if obt >= 37 {
        Tier::A(0)
    } else if obt >= 35 {
        Tier::B(0)
    } else if obt >= 31 {
        Tier::C(0)
    } else if obt >= 29 {
        Tier::D(0)
    } else {
        Tier::F(0)
    }
}

/// The grade of a player: a pitcher's die grade, five pluses more with a
/// pitcher trait; a batter's on base grade, moved by the sum of the traits.
pub open spec fn player_tier(p: Player) -> Tier {
    if p.pd is Some {
        let base = p.pd->0.tier();
        match p.pitcher_trait {
            None => base,
            Some(t) => base.with_num((base.num() + t.value()) as i32),
        }
    } else {
        let base = obt_tier(p.obt as int);
        if p.b_traits.value() == 0 {
            base
        } else {
            base.with_num((base.num() + p.b_traits.value()) as i32)
        }
    }
}

/// The grade of a batter whose traits add up to nothing: S for an on base
/// target of 40 or more, A for 37 to 39, B for 35 to 36, C for 31 to 34, D for
/// 29 to 30, F for 28 or less.
pub proof fn law_batter_tier_table(p: Player)
    requires
        p.pd is None,
        p.b_traits.value() == 0,
    ensures
        p.obt >= 40 ==> player_tier(p) == Tier::S(0),
        37 <= p.obt <= 39 ==> player_tier(p) == Tier::A(0),
        35 <= p.obt <= 36 ==> player_tier(p) == Tier::B(0),
        31 <= p.obt <= 34 ==> player_tier(p) == Tier::C(0),
        29 <= p.obt <= 30 ==> player_tier(p) == Tier::D(0),
        p.obt <= 28 ==> player_tier(p) == Tier::F(0),
{
}

/// A player written out. A batter: name, position, age, hand, batting target
/// and on base target, then the traits if there are any; a pitcher: name,
/// position, age, hand, pitch die, the pitcher trait followed by a comma,
/// then after a space the batting target and the on base target. A note
/// follows after a space.
pub open spec fn player_text(p: Player) -> Seq<char> {
    let head = p.name@ + ","@ + position_text(p.pos) + ","@ + int_text(p.age as int) + ","@
        + p.hand.name() + ","@;
    let chars = if p.pd is None {
        let base = head + int_text(p.bt as int) + ","@ + int_text(p.obt as int);
        if p.b_traits.symbols().len() == 0 {
            base
        } else {
            base + ","@ + p.b_traits.symbols()
        }
    } else {
        head + p.base_pd().notation() + ","@ + pitcher_trait_text(p.pitcher_trait) + " "@ + int_text(
            p.bt as int,
        ) + ","@ + int_text(p.obt as int)
    };
    match p.note {
        Some(text) => chars + " "@ + text@,
        None => chars,
    }
}

/// A pitcher trait followed by a comma, or nothing.
pub open spec fn pitcher_trait_text(t: Option<PitcherTrait>) -> Seq<char> {
    match t {
        Some(t) => t.symbol() + ","@,
        None => ""@,
    }
}

/// The error report of a player read back from the database: each field that
/// is not positive, the on base target when it is not the sum of the batting
/// target and its modifier, and the pitch die number when it is not the die's.
pub open spec fn error_free(p: Player, pd_int: int) -> bool {
    &&& p.age > 0
    &&& p.bt > 0
    &&& p.obt > 0
    &&& p.obt_mod > 0
    &&& p.obt == p.bt + p.obt_mod
    &&& (p.pd matches Some(d) ==> d.value() == pd_int)
}

impl Player {
    /// The pitch die of a player, -d20 for one without.
    pub open spec fn base_pd(&self) -> PD {
        match self.pd {
            Some(pd) => pd,
            None => PD::DM20,
        }
    }

    pub fn get_base_pd(&self) -> (r: PD)
        ensures
            r == self.base_pd(),
    {
        self.pd.unwrap_or(PD::DM20)
    }

    /// A player is a pitcher when it has a pitch die.
    pub fn is_pitcher(&self) -> (r: bool)
        ensures
            r == self.pd is Some,
    {
        self.pd.is_some()
    }

    /// How well suited a batter is to bat at the top of the lineup.
    pub fn get_leadoff_score(&self) -> (r: i32)
        requires
            i32::MIN <= leadoff_score(self.obt as int, self.b_traits.get_above_average_spec()) <= i32::MAX,
        ensures
            r == leadoff_score(self.obt as int, self.b_traits.get_above_average_spec()),
    {
        let a = self.b_traits.get_above_average();
        if a.speed && !a.power && !a.contact {
            self.obt + 2
        } else if a.power || a.contact {
            self.obt - 2
        } else {
            self.obt
        }
    }

    /// How good a batter would be at driving in runs: the batting target plus
    /// what the contact and power traits add.
    pub fn get_rbi_score(&self) -> (r: i32)
        requires
            i32::MIN <= self.bt + self.b_traits.contact.rbi_value() + self.b_traits.power.rbi_value() <= i32::MAX,
        ensures
            r == self.bt + self.b_traits.contact.rbi_value() + self.b_traits.power.rbi_value(),
    {
        self.bt + self.b_traits.get_rbi_score()
    }

    /// What decides a batter's place in the lineup.
    pub fn get_lineup_score(&self) -> (r: LineupScore)
        requires
            i32::MIN <= leadoff_score(self.obt as int, self.b_traits.get_above_average_spec()) <= i32::MAX,
            i32::MIN <= self.bt + self.b_traits.contact.rbi_value() + self.b_traits.power.rbi_value() <= i32::MAX,
            self.base_pd().value() != i32::MIN,
        ensures
            r.leadoff_score == leadoff_score(self.obt as int, self.b_traits.get_above_average_spec()),
            r.rbi_score == self.bt + self.b_traits.contact.rbi_value()
                + self.b_traits.power.rbi_value(),
            r.switch_hitter_bonus == (if self.hand == Hand::S { 1int } else { 0int }),
            r.string@ == player_text(*self),
    {
        LineupScore {
            leadoff_score: self.get_leadoff_score(),
            rbi_score: self.get_rbi_score(),
            switch_hitter_bonus: match self.hand {
                Hand::S => 1,
                _ => 0,
            },
            string: self.to_display(),
        }
    }

    fn get_pitcher_trait_string(&self) -> (r: String)
        ensures
            r@ == pitcher_trait_text(self.pitcher_trait),
    {
        match self.pitcher_trait {
            Some(pitcher_trait) => {
                let mut s = pitcher_trait.to_display();
                s.append(",");
                s
            },
            None => String::from_str(""),
        }
    }

    /// What the player contributes to the team score.
    pub fn get_team_score_contribution(&self) -> (r: i32)
        ensures
            r == team_score_contribution(*self),
    {
        if self.is_pitcher() {
            self.get_base_pd().to_int()
        } else {
            self.bt
        }
    }

    /// The problems of a player read back from the database, given the pitch
    /// die number stored with it; `None` when there are none.
    pub fn get_player_error(&self, pd_int: i32) -> (r: Option<PlayerError<'_>>)
        requires
            i32::MIN <= self.bt + self.obt_mod <= i32::MAX,
        ensures
            r is None <==> error_free(*self, pd_int as int),
            r matches Some(e) ==> {
                &&& e.valid_age == (if self.age > 0 { None } else { Some(self.age) })
                &&& e.valid_bt == (if self.bt > 0 { None } else { Some(self.bt) })
                &&& e.valid_obt == (if self.obt > 0 { None } else { Some(self.obt) })
                &&& e.valid_obt_mod == (if self.obt_mod > 0 { None } else { Some(self.obt_mod) })
                &&& e.valid_obt_sum == (if self.obt == self.bt + self.obt_mod {
                    None
                } else {
                    Some(CompTable { expected: (self.bt + self.obt_mod) as i32, actual: self.obt })
                })
                &&& e.valid_pd_int == (match self.pd {
                    None => None,
                    Some(die) => if die.value() == pd_int {
                        None
                    } else {
                        Some(CompTable { expected: die.value() as i32, actual: pd_int })
                    },
                })
                &&& e.name == &self.name
                &&& e.id == self.player_id
            },
    {
        let valid_obt_sum = {
            let expected = self.bt + self.obt_mod;
            if self.obt == expected {
                None
            } else {
                Some(CompTable { expected, actual: self.obt })
            }
        };
        let valid_pd_int = match self.pd {
            None => None,
            Some(die) => {
                let expected = die.to_int();
                if expected == pd_int {
                    None
                } else {
                    Some(CompTable { expected, actual: pd_int })
                }
            },
        };
        let result = PlayerError {
            valid_age: get_greater(0, self.age),
            valid_bt: get_greater(0, self.bt),
            valid_obt: get_greater(0, self.obt),
            valid_obt_mod: get_greater(0, self.obt_mod),
            valid_obt_sum,
            valid_pd_int,
            name: &self.name,
            id: self.player_id,
        };
        if result.valid_age.is_none() && result.valid_bt.is_none() && result.valid_obt_mod.is_none()
            && result.valid_obt.is_none() && result.valid_obt_sum.is_none()
            && result.valid_pd_int.is_none() {
            None
        } else {
            Some(result)
        }
    }

    /// What a pitcher is ranked by.
    pub fn get_pitcher_rank_info(&self) -> (r: PitcherRankInfo)
        requires
            self.base_pd().value() != i32::MIN,
            self.pitcher_trait is Some ==> self.base_pd().value() < i32::MAX,
        ensures
            r.num == pitcher_rank(*self),
            r.age == self.age,
            r.string@ == player_text(*self),
    {
        let pd_num = self.get_base_pd().to_int();
        PitcherRankInfo {
            num: match self.pitcher_trait {
                Some(_) => pd_num + 1,
                None => pd_num,
            },
            age: self.age,
            string: self.to_display(),
        }
    }

    /// The fields a new player starts with before they are filled in: age 0,
    /// a utility position, no name, no player or team id, no note.
    pub fn get_default_info() -> (r: (i32, PlayerPosition, String, i64, i64, Note))
        ensures
            r.0 == 0,
            r.1 == PlayerPosition::UT,
            r.2@ == Seq::<char>::empty(),
            r.3 == 0,
            r.4 == 0,
            r.5 is None,
    {
        let age: i32 = 0;
        let pos = PlayerPosition::default();
        let name = String::new();
        let player_id: i64 = 0;
        let team_id: i64 = 0;
        let note = None;
        (age, pos, name, player_id, team_id, note)
    }

    /// A new random player for a position: a random name of the gender, a
    /// random age, and the attributes the quality generates.
    pub fn new<Q: PlayerQuality>(
        pos: PlayerPosition,
        gender: PlayerGender,
        quality: Q,
        thread: &mut ThreadRng,
        era: Era,
    ) -> (r: Player)
        ensures
            r.pos == pos,
            19 <= r.age <= 38,
            generated(quality, r, era),
            error_free(r, r.base_pd().value()),
    {
        let name = gender.new_name();
        let age_cat = AgeCat::random(thread);
        let age = age_cat.new_age(thread);
        let generated_player = quality.gen_player(thread, era);
        Player { name, age, pos, ..generated_player }
    }

    /// The grade of a player.
    pub fn get_tier(&self) -> (r: Tier)
        ensures
            r == player_tier(*self),
    {
        if self.is_pitcher() {
            let base_tier = self.pd.unwrap().get_tier();
            match self.pitcher_trait {
                None => base_tier,
                Some(value) => base_tier.add(value.to_int()),
            }
        } else {
            let base_tier = if self.obt >= 40 {
                Tier::S(0)
            } else if self.obt >= 37 {
                Tier::A(0)
            } else if self.obt >= 35 {
                Tier::B(0)
            } else if self.obt >= 31 {
                Tier::C(0)
            } else if self.obt >= 29 {
                Tier::D(0)
            } else {
                Tier::F(0)
            };
            let b_trait_num = self.b_traits.to_int();
            if b_trait_num == 0 {
                base_tier
            } else {
                base_tier.add(b_trait_num)
            }
        }
    }

    /// The player written out.
    pub fn to_display(&self) -> (r: String)
        requires
            self.base_pd().value() != i32::MIN,
        ensures
            r@ == player_text(*self),
    {
        let mut chars = String::new();
        chars.append(self.name.as_str());
        chars.append(",");
        let pos_text = self.pos.to_display();
        chars.append(pos_text.as_str());
        chars.append(",");
        let age_text = int_to_string(self.age as i64);
        chars.append(age_text.as_str());
        chars.append(",");
        chars.append(self.hand.to_display());
        chars.append(",");
        let ghost head = self.name@ + ","@ + position_text(self.pos) + ","@ + int_text(self.age as int) + ","@
            + self.hand.name() + ","@;
        assert(chars@ =~= head);
        let bt_text = int_to_string(self.bt as i64);
        let obt_text = int_to_string(self.obt as i64);
        if !self.is_pitcher() {
            chars.append(bt_text.as_str());
            chars.append(",");
            chars.append(obt_text.as_str());
            let ghost base = head + int_text(self.bt as int) + ","@ + int_text(self.obt as int);
            assert(chars@ =~= base);
            let trait_string = self.b_traits.to_display();
            if trait_string.as_str().unicode_len() != 0 {
                chars.append(",");
                chars.append(trait_string.as_str());
                assert(chars@ =~= base + ","@ + self.b_traits.symbols());
            }
        } else {
            let pd_text = self.get_base_pd().to_display();
            chars.append(pd_text.as_str());
            chars.append(",");
            let trait_text = self.get_pitcher_trait_string();
            chars.append(trait_text.as_str());
            chars.append(" ");
            chars.append(bt_text.as_str());
            chars.append(",");
            chars.append(obt_text.as_str());
            assert(chars@ =~= head + self.base_pd().notation() + ","@ + pitcher_trait_text(self.pitcher_trait) + " "@ + int_text(
                self.bt as int) + ","@ + int_text(self.obt as int));
        }
        let ghost body = chars@;
        match &self.note {
            Some(text) => {
                chars.append(" ");
                chars.append(text.as_str());
                assert(chars@ =~= body + " "@ + text@);
            },
            None => {},
        }
        chars
    }
}

impl BTraits {
    pub open spec fn get_above_average_spec(&self) -> BTraitAboveAverage {
        BTraitAboveAverage {
            contact: self.contact.value() > 0,
            defense: self.defense.value() > 0,
            power: self.power.value() > 0,
            speed: self.speed.value() > 0,
            toughness: self.toughness.value() > 0,
        }
    }
}

impl Notable for Player {
    open spec fn note_view(&self) -> Note {
        self.note
    }

    open spec fn note_prompt(&self) -> Seq<char> {
        "Please enter the note for "@ + self.name@
    }

    fn get_note(&self) -> (r: &Note) {
        &self.note
    }

    fn get_note_input_string(&self) -> (r: String) {
        let mut s = String::from_str("Please enter the note for ");
        s.append(self.name.as_str());
        s
    }
}

/// A hand written by its name reads back as the same hand.
pub proof fn law_hand_name_round_trip(x: Hand)
    ensures
        Hand::named(x.name()) == Some(x),
{
    reveal_strlit("L");
    reveal_strlit("R");
    reveal_strlit("S");
    assert("L"@[0] != "R"@[0]);
    assert("L"@ != "R"@);
    assert("S"@[0] != "R"@[0]);
    assert("S"@ != "R"@);
    assert("S"@[0] != "L"@[0]);
    assert("S"@ != "L"@);
}

/// A gender written by its name reads back as the same gender.
pub proof fn law_gender_name_round_trip(x: PlayerGender)
    ensures
        PlayerGender::named(x.name()) == Some(x),
{
    reveal_strlit("Coed");
    reveal_strlit("Female");
    reveal_strlit("Male");
    assert("Female"@.len() != "Male"@.len());
    assert("Female"@ != "Male"@);
    assert("Coed"@[0] != "Male"@[0]);
    assert("Coed"@ != "Male"@);
    assert("Coed"@.len() != "Female"@.len());
    assert("Coed"@ != "Female"@);
}

} // verus!
