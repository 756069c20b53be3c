//! Playing single games: outcomes of a plate appearance, dice helpers and a
//! game decided by the teams' scores.

use vstd::prelude::*;
use rand::rngs::ThreadRng;
use crate::dice::roll;
use crate::team::Team;
use crate::text::{int_text, int_to_string};

verus! {

/// What a plate appearance ends in.
#[allow(non_camel_case_types)]
pub enum Outcome {
    Out(i32),
    Walk,
    Hit(i32),
    Poss_Error(i32),
    Oddity,
}

impl Outcome {
    pub open spec fn text(&self) -> Seq<char> {
        match *self {
            Outcome::Out(num) => "Out "@ + int_text(num as int),
            Outcome::Walk => "Walk"@,
            Outcome::Hit(num) => "Hit "@ + int_text(num as int),
            Outcome::Poss_Error(num) => "Poss Error "@ + int_text(num as int),
            Outcome::Oddity => "Oddity"@,
        }
    }

    pub fn to_string(&self) -> (r: String)
        ensures
            r@ == self.text(),
    {
        match self {
            Outcome::Out(num) => {
                let mut s = String::from_str("Out ");
                s.append(int_to_string(*num as i64).as_str());
                s
            },
            Outcome::Walk => String::from_str("Walk"),
            Outcome::Hit(num) => {
                let mut s = String::from_str("Hit ");
                s.append(int_to_string(*num as i64).as_str());
                s
            },
            Outcome::Poss_Error(num) => {
                let mut s = String::from_str("Poss Error ");
                s.append(int_to_string(*num as i64).as_str());
                s
            },
            Outcome::Oddity => String::from_str("Oddity"),
        }
    }
}

/// Every number passes but those from 13 to 19.
pub fn match_check(num: i32) -> (r: bool)
    ensures
        r == !(13 <= num <= 19),
{
    match num {
        1 => true,
        2..=5 => true,
        13..=19 => false,
        _ => true,
    }
}

/// The last decimal digit of a number, without its sign.
pub fn last_digit(num: i32) -> (r: i32)
    requires
        num != i32::MIN,
    ensures
        r == (if num < 0 { -num } else { num as int }) % 10,
{
    let ab_num = if num < 0 { -num } else { num };
    if ab_num < 10 {
        ab_num
    } else {
        ab_num % 10
    }
}

/// Whether a swing roll reaches a target: it does when it is not above it.
pub fn less_than_target(mss: i32, target: i32) -> (r: bool)
    ensures
        r == (mss <= target),
{
    mss <= target
}

/// Twice the number.
pub fn form_check(num: i32) -> (r: i32)
    requires
        i32::MIN <= 2 * num <= i32::MAX,
    ensures
        r == 2 * num,
{
    num * 2
}

/// The chance, out of 99, that the team with the higher score wins: fifty
/// plus the difference in score, and never less than eighty.
pub open spec fn favorite_chance(favorite_score: int, underdog_score: int) -> int {
    let diff = favorite_score - underdog_score + 50;
    if diff <= 80 { 80 } else { diff }
}

/// Whether the home team wins on a roll of a hundred-less-one-sided die: the
/// favorite (the home team on equal scores) wins when the roll is at most its
/// chance.
pub open spec fn home_wins_on(home_score: int, away_score: int, roll: int) -> bool {
    if home_score >= away_score {
        roll <= favorite_chance(home_score, away_score)
    } else {
        roll > favorite_chance(away_score, home_score)
    }
}

/// How far apart two numbers are.
pub open spec fn abs_diff(a: int, b: int) -> int {
    if a >= b { a - b } else { b - a }
}

/// Plays a game between two teams, decided by one roll against their team
/// scores. The winner gets a win and the loser a loss, and nothing else of
/// either team changes; the result says whether the home team won.
pub fn play_game(home: &mut Team, away: &mut Team, thread: &mut ThreadRng) -> (home_won: bool)
    requires
        abs_diff(old(home).team_score as int, old(away).team_score as int) + 50 <= i32::MAX,
        old(home).wins < i32::MAX,
        old(home).losses < i32::MAX,
        old(away).wins < i32::MAX,
        old(away).losses < i32::MAX,
    ensures
        exists|roll: int|
            1 <= roll <= 99 && home_won == home_wins_on(
                old(home).team_score as int,
                old(away).team_score as int,
                roll,
            ),
        final(home).wins == old(home).wins + (if home_won { 1int } else { 0 }),
        final(home).losses == old(home).losses + (if home_won { 0int } else { 1 }),
        final(away).wins == old(away).wins + (if home_won { 0int } else { 1 }),
        final(away).losses == old(away).losses + (if home_won { 1int } else { 0 }),
        final(home).team_score == old(home).team_score,
        final(away).team_score == old(away).team_score,
        final(home).team_id == old(home).team_id,
        final(away).team_id == old(away).team_id,
        *final(home) == (Team { wins: final(home).wins, losses: final(home).losses, ..*old(home) }),
        *final(away) == (Team { wins: final(away).wins, losses: final(away).losses, ..*old(away) }),
{
    let home_favored = home.team_score >= away.team_score;
    let mut diff = if home_favored {
        home.team_score - away.team_score + 50
    } else {
        away.team_score - home.team_score + 50
    };
    if diff <= 80 {
        diff = 80;
    }
    let r = roll(thread, 1, 99);
    let favorite_won = r <= diff;
    let home_won = home_favored == favorite_won;
    assert(home_won == home_wins_on(home.team_score as int, away.team_score as int, r as int));
    if home_won {
        home.wins += 1;
        away.losses += 1;
    } else {
        away.wins += 1;
        home.losses += 1;
    }
    home_won
}

} // verus!
