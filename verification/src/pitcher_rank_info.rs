//! What a pitcher is ranked by.

use vstd::prelude::*;

verus! {

/// A pitcher's rank number and age, with the pitcher written out. Pitchers are
/// ordered by their number, then their age, then their text.
#[derive(Debug, Clone, PartialEq, Eq, PartialOrd, Ord)]
pub struct PitcherRankInfo {
    pub num: i32,
    pub age: i32,
    pub string: String,
}

} // verus!
