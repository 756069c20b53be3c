//! Leagues: a set of teams of one era and one gender, with unique names and
//! abbreviations.

use vstd::prelude::*;
use std::collections::HashMap;
use rand::rngs::ThreadRng;
use crate::edit_league_error::EditLeagueError;
use crate::era::Era;
use crate::note::{Notable, Note};
use crate::player::PlayerGender;
use crate::team::{Team, generated_team, team_score_of};
use crate::text::{int_text, int_to_string};
use crate::pennant::PennantStanding;
use crate::dice::shuffle;

verus! {

/// Kinds of batters, to filter a ranking of batters by.
#[derive(Debug, Clone, Copy, PartialEq, Eq, Structural)]
pub enum BatterPosType {
    Catchers,
    Infielders,
    Outfielders,
    All,
}

impl BatterPosType {
    /// The positions of the kind, written as an SQL tuple.
    pub open spec fn tup_text(&self) -> Seq<char> {
        match self {
            BatterPosType::Catchers => "('C')"@,
            BatterPosType::Infielders => "('1B','2B','3B','SS','INF')"@,
            BatterPosType::Outfielders => "('LF','CF','RF','OF')"@,
            BatterPosType::All => "('C','1B','2B','3B','SS','INF','LF','CF','RF','OF')"@,
        }
    }

    fn get_tup_string(&self) -> (r: &'static str)
        ensures
            r@ == self.tup_text(),
    {
        match self {
            BatterPosType::Catchers => "('C')",
            BatterPosType::Infielders => "('1B','2B','3B','SS','INF')",
            BatterPosType::Outfielders => "('LF','CF','RF','OF')",
            BatterPosType::All => "('C','1B','2B','3B','SS','INF','LF','CF','RF','OF')",
        }
    }

    /// The SQL condition that keeps the batters of the kind: every batter (a
    /// player without a pitch die) for `All`, the batters at the kind's
    /// positions otherwise.
    pub open spec fn sql_text(&self) -> Seq<char> {
        match self {
            BatterPosType::All => "\n\t AND players.PD IS NULL\n"@,
            _ => "\n\t AND players.pos IN "@ + self.tup_text() + "\n"@,
        }
    }

    pub fn get_sql_text(&self) -> (r: String)
        ensures
            r@ == self.sql_text(),
    {
        match self {
            BatterPosType::All => String::from_str("\n\t AND players.PD IS NULL\n"),
            _ => {
                let mut s = String::from_str("\n\t AND players.pos IN ");
                s.append(self.get_tup_string());
                s.append("\n");
                s
            },
        }
    }

    pub open spec fn text(&self) -> Seq<char> {
        match self {
            BatterPosType::Catchers => "Catchers"@,
            BatterPosType::Infielders => "Infielders"@,
            BatterPosType::Outfielders => "Outfielders"@,
            BatterPosType::All => "All"@,
        }
    }

    pub fn to_display(&self) -> (r: &'static str)
        ensures
            r@ == self.text(),
    {
        match self {
            BatterPosType::Catchers => "Catchers",
            BatterPosType::Infielders => "Infielders",
            BatterPosType::Outfielders => "Outfielders",
            BatterPosType::All => "All",
        }
    }
}

/// A league holds its teams, and the gender and era that every team follows.
#[derive(Debug)]
pub struct League {
    pub name: String,
    pub teams: Vec<Team>,
    pub gender: PlayerGender,
    pub era: Era,
    pub league_id: i64,
    pub note: Note,
}

impl Notable for League {
    open spec fn note_view(&self) -> Note {
        self.note
    }

    open spec fn note_prompt(&self) -> Seq<char> {
        "Please enter the note for "@ + self.name@
    }

    fn get_note(&self) -> (r: &Note) {
        &self.note
    }

    fn get_note_input_string(&self) -> (r: String) {
        let mut s = String::from_str("Please enter the note for ");
        s.append(self.name.as_str());
        s
    }
}

/// A league together with its id in the database.
pub struct LeagueWrapper {
    pub league_id: i64,
    pub league: League,
}

impl LeagueWrapper {
    /// The league's id and name, joined by an underscore.
    pub open spec fn text(&self) -> Seq<char> {
        int_text(self.league_id as int) + "_"@ + self.league.name@
    }

    pub fn to_display(&self) -> (r: String)
        ensures
            r@ == self.text(),
    {
        let mut s = int_to_string(self.league_id);
        s.append("_");
        s.append(self.league.name.as_str());
        s
    }
}

/// A team together with its id in the database.
#[derive(Debug)]
pub struct TeamWrapper {
    pub team_id: i64,
    pub team: Team,
}

/// The wins and losses of the teams, in order.
pub open spec fn records(teams: Seq<Team>) -> Seq<PennantStanding> {
    teams.map_values(|t: Team| PennantStanding { wins: t.wins, losses: t.losses })
}

impl League {
    /// Hands the standings of a pennant race out to the teams, in a random
    /// order: each team's wins and losses become those of one standing, and
    /// nothing else of the teams changes. The result pairs each team's id
    /// with its standing, in the order of the teams.
    pub fn apply_pennant_standings(&mut self, standings: &Vec<PennantStanding>, thread: &mut ThreadRng) -> (r: Vec<(i64, PennantStanding)>)
        requires
            old(self).teams.len() == standings.len(),
        ensures
            final(self).teams.len() == old(self).teams.len(),
            records(final(self).teams@).to_multiset() == standings@.to_multiset(),
            forall|i: int| 0 <= i < final(self).teams.len() ==> #[trigger] final(self).teams@[i] == (Team {
                wins: final(self).teams@[i].wins,
                losses: final(self).teams@[i].losses,
                ..old(self).teams@[i]
            }),
            r.len() == final(self).teams.len(),
            forall|i: int| 0 <= i < r.len() ==> #[trigger] r@[i] == (final(self).teams@[i].team_id, records(final(self).teams@)[i]),
            final(self).name == old(self).name,
            final(self).gender == old(self).gender,
            final(self).era == old(self).era,
            final(self).league_id == old(self).league_id,
            final(self).note == old(self).note,
    {
        let mut order: Vec<PennantStanding> = Vec::new();
        let n = standings.len();
        for i in 0..n
            invariant
                n == standings.len(),
                order@ == standings@.subrange(0, i as int),
        {
            order.push(standings[i]);
        }
        assert(order@ == standings@);
        let ghost unshuffled = order@;
        shuffle(&mut order, thread);
        proof {
            vstd::seq_lib::to_multiset_len(unshuffled);
            vstd::seq_lib::to_multiset_len(order@);
        }
        let ghost start = self.teams@;
        let mut pairs: Vec<(i64, PennantStanding)> = Vec::new();
        for i in 0..n
            invariant
                n == order.len(),
                n == self.teams.len(),
                start.len() == n,
                forall|k: int| 0 <= k < i ==> #[trigger] self.teams@[k] == (Team {
                    wins: order@[k].wins,
                    losses: order@[k].losses,
                    ..start[k]
                }),
                forall|k: int| i <= k < n ==> #[trigger] self.teams@[k] == start[k],
                pairs.len() == i,
                forall|k: int| 0 <= k < i ==> #[trigger] pairs@[k] == (self.teams@[k].team_id, order@[k]),
                self.name == old(self).name,
                self.gender == old(self).gender,
                self.era == old(self).era,
                self.league_id == old(self).league_id,
                self.note == old(self).note,
                start == old(self).teams@,
        {
            let ghost before = self.teams@;
            let mut team = self.teams.remove(i);
            team.wins = order[i].wins;
            team.losses = order[i].losses;
            pairs.push((team.team_id, order[i]));
            self.teams.insert(i, team);
            proof {
                assert forall|k: int| 0 <= k < n && k != i implies #[trigger] self.teams@[k] == before[k] by {
                    if k < i {
                        assert(self.teams@[k] == before.remove(i as int)[k]);
                    } else {
                        assert(self.teams@[k] == before.remove(i as int)[k - 1]);
                    }
                }
            }
        }
        assert(records(self.teams@) =~= order@);
        pairs
    }
}

/// Which name a new team clashes with, looking at the teams from `i` on: the
/// first team with the same abbreviation or the same name decides, and a
/// same abbreviation is reported first.
pub open spec fn clash_from(teams: Seq<Team>, i: int, abrv: Seq<char>, name: Seq<char>) -> Option<bool>
    decreases teams.len() - i,
{
    if i < 0 || i >= teams.len() {
        None
    } else if teams[i].abrv@ == abrv {
        Some(true)
    } else if teams[i].name@ == name {
        Some(false)
    } else {
        clash_from(teams, i + 1, abrv, name)
    }
}

/// No two teams share an abbreviation or a name.
pub open spec fn names_unique(teams: Seq<Team>) -> bool {
    forall|i: int, j: int|
        0 <= i < teams.len() && 0 <= j < teams.len() && i != j ==> #[trigger] teams[i].abrv@
            != #[trigger] teams[j].abrv@ && teams[i].name@ != teams[j].name@
}

pub proof fn lemma_clash_from(teams: Seq<Team>, i: int, abrv: Seq<char>, name: Seq<char>)
    requires
        0 <= i <= teams.len(),
    ensures
        clash_from(teams, i, abrv, name) is None <==> forall|j: int|
            i <= j < teams.len() ==> #[trigger] teams[j].abrv@ != abrv && teams[j].name@ != name,
    decreases teams.len() - i,
{
    if i < teams.len() {
        lemma_clash_from(teams, i + 1, abrv, name);
    }
}

/// The teams, one per line: a line break, the abbreviation, a space and the
/// name.
pub open spec fn team_listing_text(teams: Seq<Team>) -> Seq<char>
    decreases teams.len(),
{
    if teams.len() == 0 {
        Seq::empty()
    } else {
        team_listing_text(teams.drop_last()) + "\n"@ + teams.last().abrv@ + " "@ + teams.last().name@
    }
}

impl League {
    /// The league's teams listed, for a user about to add one.
    pub fn team_listing(&self) -> (r: String)
        ensures
            r@ == team_listing_text(self.teams@),
    {
        let mut names = String::new();
        let n = self.teams.len();
        for i in 0..n
            invariant
                n == self.teams.len(),
                names@ == team_listing_text(self.teams@.subrange(0, i as int)),
        {
            names.append("\n");
            names.append(self.teams[i].abrv.as_str());
            names.append(" ");
            names.append(self.teams[i].name.as_str());
            assert(self.teams@.subrange(0, i + 1).drop_last() =~= self.teams@.subrange(0, i as int));
        }
        assert(self.teams@.subrange(0, n as int) =~= self.teams@);
        names
    }
    pub fn new(name: &String, gender: PlayerGender, era: Era, league_id: i64) -> (r: League)
        ensures
            r.name@ == name@,
            r.teams@ == Seq::<Team>::empty(),
            r.gender == gender,
            r.era == era,
            r.league_id == league_id,
            r.note is None,
    {
        League {
            name: String::from_str(name.as_str()),
            teams: Vec::new(),
            gender,
            era,
            league_id,
            note: None,
        }
    }

    /// Checks that a new team would take neither an abbreviation nor a name
    /// that a team of the league already has.
    pub fn check_new_team(&self, new_abrv: &String, new_name: &String) -> (r: Result<(), EditLeagueError>)
        ensures
            clash_from(self.teams@, 0, new_abrv@, new_name@) is None <==> r is Ok,
            clash_from(self.teams@, 0, new_abrv@, new_name@) == Some(true) ==> r matches Err(EditLeagueError::AbrvTaken),
            clash_from(self.teams@, 0, new_abrv@, new_name@) == Some(false) ==> r matches Err(EditLeagueError::NameTaken),
    {
        let n = self.teams.len();
        for i in 0..n
            invariant
                n == self.teams.len(),
                clash_from(self.teams@, 0, new_abrv@, new_name@) == clash_from(self.teams@, i as int, new_abrv@, new_name@),
        {
            let team = &self.teams[i];
            if *new_abrv == team.abrv {
                return Err(EditLeagueError::AbrvTaken);
            } else if *new_name == team.name {
                return Err(EditLeagueError::NameTaken);
            }
        }
        Ok(())
    }

    /// Adds a new team with the abbreviation and the name, its players
    /// generated for the league's era and gender, unless a team of the league
    /// already has the abbreviation or the name.
    pub fn new_team(&mut self, new_abrv: &String, new_name: &String, thread: &mut ThreadRng) -> (r: Result<(), EditLeagueError>)
        ensures
            clash_from(old(self).teams@, 0, new_abrv@, new_name@) == Some(true) ==> r matches Err(EditLeagueError::AbrvTaken),
            clash_from(old(self).teams@, 0, new_abrv@, new_name@) == Some(false) ==> r matches Err(EditLeagueError::NameTaken),
            clash_from(old(self).teams@, 0, new_abrv@, new_name@) is None ==> r is Ok,
            r is Err ==> final(self).teams@ == old(self).teams@,
            r is Ok ==> {
                &&& final(self).teams.len() == old(self).teams.len() + 1
                &&& final(self).teams@.drop_last() == old(self).teams@
                &&& final(self).teams@.last().abrv@ == new_abrv@
                &&& final(self).teams@.last().name@ == new_name@
                &&& generated_team(final(self).teams@.last(), old(self).era)
                &&& final(self).teams@.last().team_score == team_score_of(final(self).teams@.last())
            },
            names_unique(old(self).teams@) ==> names_unique(final(self).teams@),
            final(self).name == old(self).name,
            final(self).gender == old(self).gender,
            final(self).era == old(self).era,
            final(self).league_id == old(self).league_id,
            final(self).note == old(self).note,
    {
        self.check_new_team(new_abrv, new_name)?;
        let new_team = Team::new(new_abrv, new_name, self.gender, self.era, thread);
        self.teams.push(new_team);
        proof {
            assert(self.teams@.drop_last() =~= old(self).teams@);
            if names_unique(old(self).teams@) {
                law_new_team_keeps_names_unique(old(self).teams@, self.teams@, new_abrv@, new_name@);
            }
        }
        Ok(())
    }

    /// The teams of the league by their ids.
    pub fn new_team_hash(&self) -> (r: HashMap<i64, &Team>)
        ensures
            forall|id: i64| r@.contains_key(id) <==> exists|i: int| 0 <= i < self.teams.len() && #[trigger] self.teams@[i].team_id == id,
            forall|i: int| 0 <= i < self.teams.len() ==> {
                let id = #[trigger] self.teams@[i].team_id;
                r@.contains_key(id) && (forall|j: int| i < j < self.teams.len() ==> self.teams@[j].team_id != id) ==> r@[id] == &self.teams@[i]
            },
    {
        broadcast use vstd::std_specs::hash::group_hash_axioms;
        let mut result: HashMap<i64, &Team> = HashMap::new();
        let n = self.teams.len();
        for i in 0..n
            invariant
                n == self.teams.len(),
                forall|id: i64| result@.contains_key(id) <==> exists|k: int| 0 <= k < i && #[trigger] self.teams@[k].team_id == id,
                forall|k: int| 0 <= k < i ==> {
                    let id = #[trigger] self.teams@[k].team_id;
                    (forall|j: int| k < j < i ==> self.teams@[j].team_id != id) ==> result@[id] == &self.teams@[k]
                },
        {
            let team = &self.teams[i];
            result.insert(team.team_id, team);
            proof {
                assert forall|id: i64| result@.contains_key(id) <==> exists|k: int| 0 <= k < i + 1 && #[trigger] self.teams@[k].team_id == id by {
                    if id == self.teams@[i as int].team_id {
                        assert(self.teams@[i as int].team_id == id);
                    }
                }
            }
        }
        result
    }
}

/// Every item of the slice as a key mapped to `true`. What the map holds is
/// known where the keys follow vstd's model of hash keys.
pub fn vec_to_hash<E: std::hash::Hash + Eq>(vec: &[E]) -> (r: HashMap<&E, bool>)
    ensures
        vstd::std_specs::hash::obeys_key_model::<&E>() ==> forall|e: &E|
            #[trigger] r@.contains_key(e) <==> exists|i: int| 0 <= i < vec@.len() && vec@[i] == *e,
        vstd::std_specs::hash::obeys_key_model::<&E>() ==> forall|e: &E| #[trigger] r@.contains_key(e) ==> r@[e],
{
    broadcast use vstd::std_specs::hash::group_hash_axioms;
    let mut result: HashMap<&E, bool> = HashMap::new();
    let n = vec.len();
    for i in 0..n
        invariant
            n == vec@.len(),
            vstd::std_specs::hash::obeys_key_model::<&E>() ==> forall|e: &E|
                #[trigger] result@.contains_key(e) <==> exists|k: int| 0 <= k < i && vec@[k] == *e,
            vstd::std_specs::hash::obeys_key_model::<&E>() ==> forall|e: &E| #[trigger] result@.contains_key(e) ==> result@[e],
    {
        let value = &vec[i];
        result.insert(value, true);
        proof {
            if vstd::std_specs::hash::obeys_key_model::<&E>() {
                assert forall|e: &E| #[trigger] result@.contains_key(e) <==> exists|k: int| 0 <= k < i + 1 && vec@[k] == *e by {
                    if *e == vec@[i as int] {
                        assert(vec@[i as int] == *e);
                    }
                }
            }
        }
    }
    result
}

/// Whether a name is among the names taken.
pub fn name_taken(taken_names: &Vec<String>, name: &String) -> (r: bool)
    ensures
        r == exists|i: int| 0 <= i < taken_names.len() && #[trigger] taken_names@[i]@ == name@,
{
    let n = taken_names.len();
    for i in 0..n
        invariant
            n == taken_names.len(),
            forall|k: int| 0 <= k < i ==> #[trigger] taken_names@[k]@ != name@,
    {
        if taken_names[i] == *name {
            return true;
        }
    }
    false
}

/// Adding a team keeps the names and the abbreviations of a league's teams
/// unique: a team is only added when neither its abbreviation nor its name is
/// taken.
pub proof fn law_new_team_keeps_names_unique(before: Seq<Team>, after: Seq<Team>, abrv: Seq<char>, name: Seq<char>)
    requires
        names_unique(before),
        clash_from(before, 0, abrv, name) is None,
        after.len() == before.len() + 1,
        after.drop_last() == before,
        after.last().abrv@ == abrv,
        after.last().name@ == name,
    ensures
        names_unique(after),
{
    lemma_clash_from(before, 0, abrv, name);
    assert forall|i: int, j: int|
        0 <= i < after.len() && 0 <= j < after.len() && i != j implies #[trigger] after[i].abrv@
            != #[trigger] after[j].abrv@ && after[i].name@ != after[j].name@ by {
        let n = before.len() as int;
        if i < n && j < n {
            assert(after[i] == before[i]);
            assert(after[j] == before[j]);
        } else if i == n {
            assert(after[j] == before[j]);
        } else {
            assert(after[i] == before[i]);
        }
    }
}


/// Once a team is added, its abbreviation and its name are taken: a later
/// team with either is refused, whatever the other one is.
pub proof fn law_added_team_takes_its_names(before: Seq<Team>, after: Seq<Team>, abrv: Seq<char>, name: Seq<char>, other: Seq<char>)
    requires
        after.len() == before.len() + 1,
        after.drop_last() == before,
        after.last().abrv@ == abrv,
        after.last().name@ == name,
    ensures
        clash_from(after, 0, abrv, other) is Some,
        clash_from(after, 0, other, name) is Some,
{
    let n = before.len() as int;
    lemma_clash_from(after, 0, abrv, other);
    lemma_clash_from(after, 0, other, name);
    assert(after[n].abrv@ == abrv);
    assert(after[n].name@ == name);
}

} // verus!
