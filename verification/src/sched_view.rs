//! What is shown of a saved schedule: its rounds and series.

use vstd::prelude::*;
use crate::text::{nat_text, nat_to_string};

verus! {

/// A saved series with the names of its teams.
#[derive(Debug)]
pub struct SeriesWrapper {
    pub series_id: i64,
    pub home_team_name: String,
    pub home_team_id: i64,
    pub away_team_name: String,
    pub away_team_id: i64,
}

impl SeriesWrapper {
    /// The away team at the home team.
    pub open spec fn text(&self) -> Seq<char> {
        self.away_team_name@ + " @ "@ + self.home_team_name@
    }

    pub fn to_display(&self) -> (r: String)
        ensures
            r@ == self.text(),
    {
        let mut s = String::from_str(self.away_team_name.as_str());
        s.append(" @ ");
        s.append(self.home_team_name.as_str());
        s
    }
}

/// A round of a season, by its place in the season and its id.
pub struct RoundChoiceListing {
    pub index: usize,
    pub value: i64,
}

impl RoundChoiceListing {
    /// The round's number in the season, counting from one.
    pub open spec fn text(&self) -> Seq<char> {
        nat_text((self.index + 1) as nat)
    }

    pub fn to_display(&self) -> (r: String)
        requires
            self.index < u64::MAX,
        ensures
            r@ == self.text(),
    {
        nat_to_string(self.index as u64 + 1)
    }
}

} // verus!
