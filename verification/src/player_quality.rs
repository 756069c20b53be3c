//! The qualities that players are generated from.
//!
//! Several fields of a player are generated differently for batters and
//! pitchers; a quality says how, for a batter or for a pitcher.

use vstd::prelude::*;
use rand::rngs::ThreadRng;
use crate::b_traits::{BTraits, no_traits, rolled};
use crate::dice::{roll, roll_two};
use crate::era::Era;
use crate::pd::PD;
use crate::player::{Hand, Player};
use crate::position::PlayerPosition;
use crate::traits::{PitcherTrait, PlayerTrait};

verus! {

/// The hand a roll of a ten-sided die gives: 1-6 right, 7-9 left, 10 left for a
/// pitcher and switch for a batter.
pub open spec fn hand_for_roll(roll: int, pitcher: bool) -> Hand {
    if 1 <= roll <= 6 {
        Hand::R
    } else if 7 <= roll <= 9 {
        Hand::L
    } else if roll == 10 {
        if pitcher {
            Hand::L
        } else {
            Hand::S
        }
    } else {
        Hand::R
    }
}

pub fn hand_from_roll(roll: i32, pitcher: bool) -> (r: Hand)
    ensures
        r == hand_for_roll(roll as int, pitcher),
{
    if 1 <= roll && roll <= 6 {
        Hand::R
    } else if 7 <= roll && roll <= 9 {
        Hand::L
    } else if roll == 10 {
        if pitcher {
            Hand::L
        } else {
            Hand::S
        }
    } else {
        Hand::R
    }
}

/// The trade value of a generated player: a batter's batting target plus five
/// per trait step; a pitcher's die number (one more with a pitcher trait), times five.
pub open spec fn trade_value_of(bt: int, b_traits: BTraits, pd: Option<PD>, pitcher_trait: Option<PitcherTrait>) -> int {
    match pd {
        None => bt + b_traits.value() * 5,
        Some(pd) => match pitcher_trait {
            Some(_) => (pd.value() + 1) * 5,
            None => pd.value() * 5,
        },
    }
}

/// What a generated player is: the batting target and its modifier in the
/// quality's ranges and the on base target their sum; a pitch die from the
/// era's list for a pitcher and none for a batter; traits only for
/// batters; the trade value from those; no switch hitting pitcher; and the
/// default name, age, position, ids and note.
pub open spec fn generated<Q: PlayerQuality>(q: Q, p: Player, era: Era) -> bool {
    &&& q.bt_low() <= p.bt <= q.bt_high()
    &&& q.obt_mod_low() <= p.obt_mod <= q.obt_mod_high()
    &&& 0 < p.bt <= 1000
    &&& 0 < p.obt_mod <= 1000
    &&& p.obt == p.bt + p.obt_mod
    &&& (p.pd is None <==> !q.pitching())
    &&& (p.pd matches Some(pd) ==> era.all_pd().contains(pd))
    &&& (!q.pitching() ==> p.pitcher_trait is None)
    &&& (q.pitching() ==> p.b_traits == no_traits())
    &&& (q.pitching() ==> p.hand != Hand::S)
    &&& p.trade_value == trade_value_of(p.bt as int, p.b_traits, p.pd, p.pitcher_trait)
    &&& p.team_id == 0
    &&& p.player_id == 0
    &&& p.note is None
}

/// How players of a quality are generated.
pub trait PlayerQuality: Sized + Copy {
    /// Whether the quality is a pitcher's.
    spec fn pitching(&self) -> bool;

    spec fn bt_low(&self) -> int;

    spec fn bt_high(&self) -> int;

    spec fn obt_mod_low(&self) -> int;

    spec fn obt_mod_high(&self) -> int;

    fn get_bt(&self, thread: &mut ThreadRng) -> (r: i32)
        ensures
            self.bt_low() <= r <= self.bt_high(),
            0 < r <= 1000,
    ;

    fn get_obt_mod(&self, thread: &mut ThreadRng) -> (r: i32)
        ensures
            self.obt_mod_low() <= r <= self.obt_mod_high(),
            0 < r <= 1000,
    ;

    fn get_pd(&self, thread: &mut ThreadRng, era: Era) -> (r: Option<PD>)
        ensures
            r is None <==> !self.pitching(),
            r matches Some(pd) ==> era.all_pd().contains(pd),
    ;

    fn for_pitcher(&self) -> (r: bool)
        ensures
            r == self.pitching(),
    ;

    /// A random hand: a roll of a ten-sided die.
    fn get_hand(&self, thread: &mut ThreadRng) -> (r: Hand)
        ensures
            exists|roll: int| 1 <= roll <= 10 && r == hand_for_roll(roll, self.pitching()),
    {
        let roll = roll(thread, 1, 10);
        hand_from_roll(roll, self.for_pitcher())
    }

    /// Generates the batting traits; a pitcher gets none.
    fn calc_traits(&self, trait_struct: &mut BTraits, thread: &mut ThreadRng)
        ensures
            self.pitching() ==> *final(trait_struct) == *old(trait_struct),
    {
    }

    fn get_pitcher_trait(&self, thread: &mut ThreadRng) -> (r: Option<PitcherTrait>)
        ensures
            !self.pitching() ==> r is None,
    ;

    /// The quality a player reaches when promoted.
    spec fn upgraded(&self) -> Self;

    /// The better quality.
    fn upgrade(&self) -> (r: Self)
        ensures
            r == self.upgraded(),
    ;

    fn get_box_copy(&self) -> (r: Box<Self>)
        ensures
            *r == *self,
    ;

    /// Randomly generates a base player of the quality.
    fn gen_player(&self, thread: &mut ThreadRng, era: Era) -> (p: Player)
        ensures
            self.bt_low() <= p.bt <= self.bt_high(),
            self.obt_mod_low() <= p.obt_mod <= self.obt_mod_high(),
            0 < p.bt <= 1000,
            0 < p.obt_mod <= 1000,
            p.obt == p.bt + p.obt_mod,
            p.pd is None <==> !self.pitching(),
            p.pd matches Some(pd) ==> era.all_pd().contains(pd),
            !self.pitching() ==> p.pitcher_trait is None,
            self.pitching() ==> p.b_traits == no_traits(),
            self.pitching() ==> p.hand != Hand::S,
            p.trade_value == trade_value_of(p.bt as int, p.b_traits, p.pd, p.pitcher_trait),
            p.team_id == 0,
            p.player_id == 0,
            p.note is None,
            p.pos == PlayerPosition::UT,
            p.age == 0,
            p.name@ == Seq::<char>::empty(),
    {
        let bt = self.get_bt(thread);
        let obt_mod = self.get_obt_mod(thread);
        let obt = bt + obt_mod;
        let mut b_traits = BTraits::default();
        self.calc_traits(&mut b_traits, thread);
        let pd = self.get_pd(thread, era);
        let pitcher_trait = self.get_pitcher_trait(thread);
        let trade_value = match pd {
            None => {
                let t = b_traits.get_trade_value();
                proof {
                    assert(-50 <= t <= 50);
                }
                bt + t
            },
            Some(pd) => {
                assert(-20 <= pd.value() <= 20) by {
                    let k = choose|k: int| 0 <= k < era.all_pd().len() && era.all_pd()[k] == pd;
                }
                let base = pd.to_int();
                match pitcher_trait {
                    Some(_) => (base + 1) * 5,
                    None => base * 5,
                }
            },
        };
        let hand = self.get_hand(thread);
        let (age, pos, name, player_id, team_id, note) = Player::get_default_info();
        Player {
            name,
            age,
            pos,
            bt,
            obt_mod,
            obt,
            b_traits,
            pd,
            pitcher_trait,
            trade_value,
            hand,
            player_id,
            team_id,
            note,
        }
    }
}

/// The quality batters are generated from. Batters get no pitch die, but
/// better batting than pitchers. Top prospects start the lineup; farmhands
/// sit on the bench.
#[derive(Copy, Clone, Debug, PartialEq, Eq, Structural)]
pub enum BatterQuality {
    TopProspect,
    Farmhand,
}

/// A batter's traits after the rolls: a first roll, and for a top prospect
/// whose first roll gave a trait, a second one.
pub open spec fn batter_traits(q: BatterQuality, start: BTraits, r1: int, r2: int) -> BTraits {
    if q == BatterQuality::TopProspect && (2 <= r1 <= 6 || 15 <= r1 <= 20) {
        rolled(rolled(start, r1), r2)
    } else {
        rolled(start, r1)
    }
}

/// A base plus two rolls of a die.
fn new_bt(die: i32, base: i32, thread: &mut ThreadRng) -> (r: i32)
    requires
        1 <= die <= 100,
        0 <= base <= 100,
    ensures
        base + 2 <= r <= base + 2 * die,
{
    let mut result = base;
    result = result + roll(thread, 1, die);
    result = result + roll(thread, 1, die);
    result
}

impl PlayerQuality for BatterQuality {
    open spec fn pitching(&self) -> bool {
        false
    }

    open spec fn bt_low(&self) -> int {
        match self {
            BatterQuality::TopProspect => 17,
            BatterQuality::Farmhand => 14,
        }
    }

    open spec fn bt_high(&self) -> int {
        match self {
            BatterQuality::TopProspect => 35,
            BatterQuality::Farmhand => 32,
        }
    }

    open spec fn obt_mod_low(&self) -> int {
        2
    }

    open spec fn obt_mod_high(&self) -> int {
        8
    }

    /// Fifteen (top prospect) or twelve (farmhand) plus two ten-sided dice.
    fn get_bt(&self, thread: &mut ThreadRng) -> (r: i32) {
        match self {
            BatterQuality::TopProspect => new_bt(10, 15, thread),
            BatterQuality::Farmhand => new_bt(10, 12, thread),
        }
    }

    fn get_pitcher_trait(&self, _thread: &mut ThreadRng) -> (r: Option<PitcherTrait>) {
        None
    }

    /// Two four-sided dice.
    fn get_obt_mod(&self, thread: &mut ThreadRng) -> (r: i32) {
        roll_two(thread, 4)
    }

    fn get_pd(&self, _thread: &mut ThreadRng, _era: Era) -> (r: Option<PD>) {
        None
    }

    fn for_pitcher(&self) -> (r: bool) {
        false
    }

    /// One roll for a trait; a top prospect that got a trait rolls once more.
    fn calc_traits(&self, trait_struct: &mut BTraits, thread: &mut ThreadRng)
        ensures
            exists|r1: int, r2: int|
                2 <= r1 <= 20 && 2 <= r2 <= 20 && *final(trait_struct) == #[trigger] batter_traits(
                    *self,
                    *old(trait_struct),
                    r1,
                    r2,
                ),
    {
        let ghost start = *trait_struct;
        let first_calc = trait_struct.generate(thread);
        let ghost middle = *trait_struct;
        let ghost r1 = choose|roll: int|
            2 <= roll <= 20 && middle == rolled(start, roll) && first_calc == (2 <= roll <= 6
                || 15 <= roll <= 20);
        if first_calc {
            if let BatterQuality::TopProspect = self {
                trait_struct.generate(thread);
                let ghost r2 = choose|roll: int| 2 <= roll <= 20 && *trait_struct == rolled(middle, roll);
                assert(*trait_struct == batter_traits(*self, start, r1, r2));
            } else {
                assert(*trait_struct == batter_traits(*self, start, r1, 2));
            }
        } else {
            assert(*trait_struct == batter_traits(*self, start, r1, 2));
        }
    }

    open spec fn upgraded(&self) -> BatterQuality {
        BatterQuality::TopProspect
    }

    fn upgrade(&self) -> (r: BatterQuality)
        ensures
            r == BatterQuality::TopProspect,
    {
        BatterQuality::TopProspect
    }

    fn get_box_copy(&self) -> (r: Box<BatterQuality>) {
        Box::new(*self)
    }
}

/// The quality pitchers are generated from. Only top prospects are generated
/// for now; farmhands roll worse pitch dice.
#[derive(Copy, Clone, Debug, PartialEq, Eq, Structural)]
pub enum PitcherQuality {
    TopProspect,
    Farmhand,
}

/// The pitcher trait a roll of two ten-sided dice gives.
pub open spec fn pitcher_trait_for_roll(roll: int) -> Option<PitcherTrait> {
    if roll == 5 {
        Some(PitcherTrait::CNM)
    } else if roll == 15 {
        Some(PitcherTrait::K)
    } else if roll == 16 {
        Some(PitcherTrait::GB)
    } else if roll == 17 {
        Some(PitcherTrait::CN)
    } else if roll == 18 {
        Some(PitcherTrait::ST)
    } else {
        None
    }
}

pub fn pitcher_trait_from_roll(roll: i32) -> (r: Option<PitcherTrait>)
    ensures
        r == pitcher_trait_for_roll(roll as int),
{
    if roll == 5 {
        Some(PitcherTrait::CNM)
    } else if roll == 15 {
        Some(PitcherTrait::K)
    } else if roll == 16 {
        Some(PitcherTrait::GB)
    } else if roll == 17 {
        Some(PitcherTrait::CN)
    } else if roll == 18 {
        Some(PitcherTrait::ST)
    } else {
        None
    }
}

impl PlayerQuality for PitcherQuality {
    open spec fn pitching(&self) -> bool {
        true
    }

    open spec fn bt_low(&self) -> int {
        14
    }

    open spec fn bt_high(&self) -> int {
        24
    }

    open spec fn obt_mod_low(&self) -> int {
        1
    }

    open spec fn obt_mod_high(&self) -> int {
        8
    }

    /// Twelve plus two six-sided dice.
    fn get_bt(&self, thread: &mut ThreadRng) -> (r: i32) {
        new_bt(6, 12, thread)
    }

    /// One eight-sided die.
    fn get_obt_mod(&self, thread: &mut ThreadRng) -> (r: i32) {
        roll(thread, 1, 8)
    }

    /// A pitch die rolled in the era's table.
    fn get_pd(&self, thread: &mut ThreadRng, era: Era) -> (r: Option<PD>)
        ensures
            r matches Some(pd) && exists|die_roll: int|
                1 <= die_roll <= era.pd_die() && pd == #[trigger] era.pd_for_die_roll(die_roll, self.pd_modifier()),
    {
        let new_pd = era.new_pd(thread, self);
        proof {
            let die_roll = choose|die_roll: int|
                1 <= die_roll <= era.pd_die() && new_pd == #[trigger] era.pd_for_die_roll(die_roll, self.pd_modifier());
            crate::era::law_rolled_pd_is_listed(era, die_roll + self.pd_modifier());
        }
        Some(new_pd)
    }

    fn for_pitcher(&self) -> (r: bool) {
        true
    }

    /// Two ten-sided dice: 5 gives CN-, 15 K+, 16 GB, 17 CN+, 18 St+.
    fn get_pitcher_trait(&self, thread: &mut ThreadRng) -> (r: Option<PitcherTrait>)
        ensures
            exists|roll: int| 2 <= roll <= 20 && r == pitcher_trait_for_roll(roll),
    {
        let roll = roll_two(thread, 10);
        pitcher_trait_from_roll(roll)
    }

    open spec fn upgraded(&self) -> PitcherQuality {
        PitcherQuality::TopProspect
    }

    fn upgrade(&self) -> (r: PitcherQuality)
        ensures
            r == PitcherQuality::TopProspect,
    {
        PitcherQuality::TopProspect
    }

    fn get_box_copy(&self) -> (r: Box<PitcherQuality>) {
        Box::new(*self)
    }
}

impl PitcherQuality {
    /// What the quality adds to the pitch die roll: nothing for a top
    /// prospect, two for a farmhand.
    pub open spec fn pd_modifier(&self) -> int {
        match self {
            PitcherQuality::TopProspect => 0,
            PitcherQuality::Farmhand => 2,
        }
    }

    pub fn get_pd_modifier(&self) -> (r: i32)
        ensures
            r == self.pd_modifier(),
    {
        match self {
            PitcherQuality::TopProspect => 0,
            PitcherQuality::Farmhand => 2,
        }
    }
}

} // verus!
