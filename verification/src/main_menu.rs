//! The choices of the main menu.

use vstd::prelude::*;

verus! {

/// What can be done with a league that is loaded.
#[derive(Copy, Clone, Debug, PartialEq, Eq, Structural)]
pub enum LoadLeagueInput {
    EditLeague(EditLeagueInput),
    RefreshLeague,
    ViewSchedule,
    ViewRankings,
}

/// The edits that can be made to a league.
#[derive(Copy, Clone, Debug, PartialEq, Eq, Structural)]
pub enum EditLeagueInput {
    CreateNewTeam,
    CreateSchedule,
    GeneratePennant,
    CreateArchive,
}

/// The choices of the main menu.
#[derive(Copy, Clone, Debug, PartialEq, Eq, Structural)]
pub enum MenuInput {
    CreateNewLeague,
    LoadExistingLeague(LoadLeagueInput),
    LoadLeagueFromTemplate,
    Exit,
}

impl MenuInput {
    pub open spec fn text(&self) -> Seq<char> {
        match *self {
            MenuInput::CreateNewLeague => "Create a new league."@,
            MenuInput::LoadExistingLeague(input) => match input {
                LoadLeagueInput::RefreshLeague => "Refresh an existing league."@,
                LoadLeagueInput::EditLeague(edit_input) => match edit_input {
                    EditLeagueInput::CreateNewTeam => "Create a new team."@,
                    EditLeagueInput::CreateSchedule => "Generate a schedule for an existing league"@,
                    EditLeagueInput::GeneratePennant => "Generate a new pennant chase."@,
                    EditLeagueInput::CreateArchive => "Archive a copy of a league in it's current state in the database as well as a text file."@,
                },
                LoadLeagueInput::ViewSchedule => "View schedule."@,
                LoadLeagueInput::ViewRankings => "View the top 10 batter or pitchers for a league."@,
            },
            MenuInput::LoadLeagueFromTemplate => "Create a new league from a template."@,
            MenuInput::Exit => "Exit"@,
        }
    }

    /// The text shown for the choice in the menu.
    pub fn to_display(&self) -> (r: &'static str)
        ensures
            r@ == self.text(),
    {
        match self {
            MenuInput::CreateNewLeague => "Create a new league.",
            MenuInput::LoadExistingLeague(input) => match input {
                LoadLeagueInput::RefreshLeague => "Refresh an existing league.",
                LoadLeagueInput::EditLeague(edit_input) => match edit_input {
                    EditLeagueInput::CreateNewTeam => "Create a new team.",
                    EditLeagueInput::CreateSchedule => "Generate a schedule for an existing league",
                    EditLeagueInput::GeneratePennant => "Generate a new pennant chase.",
                    EditLeagueInput::CreateArchive => "Archive a copy of a league in it's current state in the database as well as a text file.",
                },
                LoadLeagueInput::ViewSchedule => "View schedule.",
                LoadLeagueInput::ViewRankings => "View the top 10 batter or pitchers for a league.",
            },
            MenuInput::LoadLeagueFromTemplate => "Create a new league from a template.",
            MenuInput::Exit => "Exit",
        }
    }

    /// The choices offered at the main menu, in order. Schedules are not
    /// offered yet.
    pub fn starting_options() -> (r: Vec<MenuInput>)
        ensures
            r@ == seq![
                MenuInput::CreateNewLeague,
                MenuInput::LoadExistingLeague(LoadLeagueInput::EditLeague(EditLeagueInput::CreateNewTeam)),
                MenuInput::LoadExistingLeague(LoadLeagueInput::EditLeague(EditLeagueInput::GeneratePennant)),
                MenuInput::LoadExistingLeague(LoadLeagueInput::RefreshLeague),
                MenuInput::LoadExistingLeague(LoadLeagueInput::ViewRankings),
                MenuInput::LoadExistingLeague(LoadLeagueInput::EditLeague(EditLeagueInput::CreateArchive)),
                MenuInput::LoadLeagueFromTemplate,
                MenuInput::Exit,
            ],
    {
        vec![
            MenuInput::CreateNewLeague,
            MenuInput::LoadExistingLeague(LoadLeagueInput::EditLeague(EditLeagueInput::CreateNewTeam)),
            MenuInput::LoadExistingLeague(LoadLeagueInput::EditLeague(EditLeagueInput::GeneratePennant)),
            MenuInput::LoadExistingLeague(LoadLeagueInput::RefreshLeague),
            MenuInput::LoadExistingLeague(LoadLeagueInput::ViewRankings),
            MenuInput::LoadExistingLeague(LoadLeagueInput::EditLeague(EditLeagueInput::CreateArchive)),
            MenuInput::LoadLeagueFromTemplate,
            MenuInput::Exit,
        ]
    }
}

/// Which player rankings to view.
#[derive(Copy, Clone, Debug, PartialEq, Eq, Structural)]
pub enum RankingsChoice {
    Batters,
    Pitchers,
}

impl RankingsChoice {
    pub open spec fn text(&self) -> Seq<char> {
        match *self {
            RankingsChoice::Batters => "View top 10 Batters"@,
            RankingsChoice::Pitchers => "View top 10 Pitchers"@,
        }
    }

    pub fn to_display(&self) -> (r: &'static str)
        ensures
            r@ == self.text(),
    {
        match self {
            RankingsChoice::Batters => "View top 10 Batters",
            RankingsChoice::Pitchers => "View top 10 Pitchers",
        }
    }
}

} // verus!
