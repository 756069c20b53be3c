//! The two eras of Deadball.
//!
//! The Ancient era simulates the low scoring baseball of the early 1900s, the
//! Modern era baseball since. The main difference is how pitch dice are
//! generated; the era also sets the roster and the positions of players.

use vstd::prelude::*;
use rand::rngs::ThreadRng;
use crate::dice::roll;
use crate::pd::PD;
use crate::player_quality::PitcherQuality;
use crate::text::str_eq;

verus! {

#[derive(Copy, Clone, Debug, PartialEq, Eq, Structural)]
pub enum Era {
    Ancient,
    Modern,
}

impl Era {
    /// The sides of the die rolled for a pitch die: twelve in the Ancient era,
    /// eight in the Modern era.
    pub open spec fn pd_die(&self) -> int {
        match self {
            Era::Ancient => 12,
            Era::Modern => 8,
        }
    }

    /// The pitch die that a roll (with the quality's modifier added) gives.
    /// Ancient pitchers can reach a d20, Modern ones a d12.
    pub open spec fn pd_for_roll(&self, roll: int) -> PD {
        match self {
            Era::Ancient => if roll == 1 {
                PD::D20
            } else if 2 <= roll <= 3 {
                PD::D12
            } else if 4 <= roll <= 5 {
                PD::D8
            } else if 6 <= roll <= 8 {
                PD::D6
            } else if 9 <= roll <= 10 {
                PD::D4
            } else if roll == 11 {
                PD::D0
            } else if 12 <= roll <= 13 {
                PD::DM4
            } else {
                PD::DM8
            },
            Era::Modern => if roll == 1 {
                PD::D12
            } else if 2 <= roll <= 3 {
                PD::D8
            } else if 4 <= roll <= 7 {
                PD::D4
            } else {
                PD::DM4
            },
        }
    }

    /// The pitch die a roll of the era's die gives, with a modifier added.
    pub open spec fn pd_for_die_roll(&self, die_roll: int, modifier: int) -> PD {
        self.pd_for_roll(die_roll + modifier)
    }

    /// The pitch die a roll gives.
    pub fn pd_from_roll(&self, roll: i32) -> (r: PD)
        ensures
            r == self.pd_for_roll(roll as int),
    {
        match self {
            Era::Ancient => if roll == 1 {
                PD::D20
            } else if 2 <= roll && roll <= 3 {
                PD::D12
            } else if 4 <= roll && roll <= 5 {
                PD::D8
            } else if 6 <= roll && roll <= 8 {
                PD::D6
            } else if 9 <= roll && roll <= 10 {
                PD::D4
            } else if roll == 11 {
                PD::D0
            } else if 12 <= roll && roll <= 13 {
                PD::DM4
            } else {
                PD::DM8
            },
            Era::Modern => if roll == 1 {
                PD::D12
            } else if 2 <= roll && roll <= 3 {
                PD::D8
            } else if 4 <= roll && roll <= 7 {
                PD::D4
            } else {
                PD::DM4
            },
        }
    }

    /// Rolls a new pitch die for a pitcher of the given quality: the era's die
    /// plus the quality's modifier, read in the era's table.
    pub fn new_pd(&self, thread: &mut ThreadRng, quality: &PitcherQuality) -> (r: PD)
        ensures
            exists|die_roll: int|
                1 <= die_roll <= self.pd_die() && r == #[trigger] self.pd_for_die_roll(
                    die_roll,
                    quality.pd_modifier(),
                ),
    {
        let sides: i32 = match self {
            Era::Ancient => 12,
            Era::Modern => 8,
        };
        let die_roll = roll(thread, 1, sides);
        let r = self.pd_from_roll(die_roll + quality.get_pd_modifier());
        assert(r == self.pd_for_die_roll(die_roll as int, quality.pd_modifier()));
        r
    }

    /// All pitch dice that pitchers in an era can be generated with.
    pub open spec fn all_pd(&self) -> Seq<PD> {
        match self {
            Era::Ancient => seq![PD::D20, PD::D12, PD::D8, PD::D6, PD::D4, PD::D0, PD::DM4, PD::DM8],
            Era::Modern => seq![PD::D12, PD::D8, PD::D4, PD::DM4],
        }
    }

    /// Returns a vector of all pitch dice that pitchers in this era can be
    /// generated to have.
    pub fn get_all_pd(&self) -> (r: Vec<PD>)
        ensures
            r@ == self.all_pd(),
    {
        match self {
            Era::Ancient => {
                let r = vec![PD::D20, PD::D12, PD::D8, PD::D6, PD::D4, PD::D0, PD::DM4, PD::DM8];
                assert(r@ =~= self.all_pd());
                r
            },
            Era::Modern => {
                let r = vec![PD::D12, PD::D8, PD::D4, PD::DM4];
                assert(r@ =~= self.all_pd());
                r
            },
        }
    }

    /// The name of an era.
    pub open spec fn name(&self) -> Seq<char> {
        match self {
            Era::Ancient => "Ancient"@,
            Era::Modern => "Modern"@,
        }
    }

    pub fn to_display(&self) -> (r: &'static str)
        ensures
            r@ == self.name(),
    {
        match self {
            Era::Ancient => "Ancient",
            Era::Modern => "Modern",
        }
    }


    /// The era with a name, if any.
    pub open spec fn named(w: Seq<char>) -> Option<Era> {
        if w == "Ancient"@ {
            Some(Era::Ancient)
        } else if w == "Modern"@ {
            Some(Era::Modern)
        } else {
            None
        }
    }

    pub fn from_name(w: &str) -> (r: Option<Era>)
        ensures
            r == Era::named(w@),
    {
        if str_eq(w, "Ancient") {
            Some(Era::Ancient)
        } else if str_eq(w, "Modern") {
            Some(Era::Modern)
        } else {
            None
        }
    }
}

/// The pitch die tables. Modern: a roll of 1 gives a d12, 2 to 3 a d8, 4 to 7
/// a d4, and any other roll a -d4. Ancient: 1 gives a d20, 2 to 3 a d12, 4 to 5
/// a d8, 6 to 8 a d6, 9 to 10 a d4, 11 no die, 12 to 13 a -d4, and any other
/// roll a -d8.
pub proof fn law_pd_table(roll: int)
    ensures
        roll == 1 ==> Era::Modern.pd_for_roll(roll) == PD::D12,
        2 <= roll <= 3 ==> Era::Modern.pd_for_roll(roll) == PD::D8,
        4 <= roll <= 7 ==> Era::Modern.pd_for_roll(roll) == PD::D4,
        (roll <= 0 || roll >= 8) ==> Era::Modern.pd_for_roll(roll) == PD::DM4,
        roll == 1 ==> Era::Ancient.pd_for_roll(roll) == PD::D20,
        2 <= roll <= 3 ==> Era::Ancient.pd_for_roll(roll) == PD::D12,
        4 <= roll <= 5 ==> Era::Ancient.pd_for_roll(roll) == PD::D8,
        6 <= roll <= 8 ==> Era::Ancient.pd_for_roll(roll) == PD::D6,
        9 <= roll <= 10 ==> Era::Ancient.pd_for_roll(roll) == PD::D4,
        roll == 11 ==> Era::Ancient.pd_for_roll(roll) == PD::D0,
        12 <= roll <= 13 ==> Era::Ancient.pd_for_roll(roll) == PD::DM4,
        (roll <= 0 || roll >= 14) ==> Era::Ancient.pd_for_roll(roll) == PD::DM8,
{
}

/// The pitch die a new pitcher can be rolled: a roll of a twelve-sided die in
/// the Ancient era and of an eight-sided die in the Modern era, two more for a
/// farmhand. So a top prospect can reach the era's best die (a d20, a d12),
/// while a farmhand's best is a d12 in the Ancient era and a d8 in the Modern
/// era; every roll gives at least the era's worst die (a -d8, a -d4).
pub proof fn law_new_pd_reach(era: Era, die_roll: int, quality: PitcherQuality)
    requires
        1 <= die_roll <= era.pd_die(),
    ensures
        era == Era::Ancient ==> era.pd_die() == 12,
        era == Era::Modern ==> era.pd_die() == 8,
        quality == PitcherQuality::TopProspect ==> era.pd_for_die_roll(1, quality.pd_modifier()) == (if era
            == Era::Ancient { PD::D20 } else { PD::D12 }),
        quality == PitcherQuality::Farmhand ==> era.pd_for_die_roll(die_roll, quality.pd_modifier()).value() <= (
        if era == Era::Ancient { 12int } else { 8int }),
        era.pd_for_die_roll(die_roll, quality.pd_modifier()).value() >= (if era == Era::Ancient { -8int } else { -4int }),
{
}

/// A higher roll never gives a better pitch die: from a roll of 1 on, the
/// die's number never grows as the roll grows.
pub proof fn law_pd_table_monotone(era: Era, low: int, high: int)
    requires
        1 <= low <= high,
    ensures
        era.pd_for_roll(high).value() <= era.pd_for_roll(low).value(),
{
}

/// Every pitch die a roll gives is one the era lists.
pub proof fn law_rolled_pd_is_listed(era: Era, roll: int)
    ensures
        era.all_pd().contains(era.pd_for_roll(roll)),
{
    let pd = era.pd_for_roll(roll);
    match era {
        Era::Ancient => {
            if roll == 1 {
                assert(era.all_pd()[0] == pd);
            } else if 2 <= roll <= 3 {
                assert(era.all_pd()[1] == pd);
            } else if 4 <= roll <= 5 {
                assert(era.all_pd()[2] == pd);
            } else if 6 <= roll <= 8 {
                assert(era.all_pd()[3] == pd);
            } else if 9 <= roll <= 10 {
                assert(era.all_pd()[4] == pd);
            } else if roll == 11 {
                assert(era.all_pd()[5] == pd);
            } else if 12 <= roll <= 13 {
                assert(era.all_pd()[6] == pd);
            } else {
                assert(era.all_pd()[7] == pd);
            }
        },
        Era::Modern => {
            if roll == 1 {
                assert(era.all_pd()[0] == pd);
            } else if 2 <= roll <= 3 {
                assert(era.all_pd()[1] == pd);
            } else if 4 <= roll <= 7 {
                assert(era.all_pd()[2] == pd);
            } else {
                assert(era.all_pd()[3] == pd);
            }
        },
    }
}

/// An era written by its name reads back as the same era.
pub proof fn law_era_name_round_trip(x: Era)
    ensures
        Era::named(x.name()) == Some(x),
{
    reveal_strlit("Ancient");
    reveal_strlit("Modern");
    assert("Modern"@.len() != "Ancient"@.len());
    assert("Modern"@ != "Ancient"@);
}

} // verus!
