//! What decides where a batter bats in the lineup.

use vstd::prelude::*;

verus! {

/// A batter's scores for the lineup, with the batter written out. Batters are
/// ordered by their leadoff score, then their RBI score, then whether they
/// switch hit, then their text.
#[derive(Debug, Clone, PartialEq, Eq, PartialOrd, Ord)]
pub struct LineupScore {
    pub leadoff_score: i32,
    pub rbi_score: i32,
    pub switch_hitter_bonus: i32,
    pub string: String,
}

} // verus!
