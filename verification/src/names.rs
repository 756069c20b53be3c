//! Random player names, through `name_maker`.

use vstd::prelude::*;
use name_maker::{Gender, RandomNameGenerator};

verus! {

/// A first name and a last name written with a space between them: the text
/// holds a space.
pub open spec fn is_full_name(s: Seq<char>) -> bool {
    exists|i: int| 0 <= i < s.len() && #[trigger] s[i] == ' '
}

/// `RandomNameGenerator::generate_specific`: a random first name of the given
/// gender (male when `male`, female otherwise) and a random last name, written
/// by `RandomName`'s `Display` as `"{first} {last}"`. The claim: the text holds
/// that space. Which names are drawn depends on the generator and is not stated.
#[verifier::external_body]
pub(crate) fn name_of_gender(male: bool) -> (r: String)
    ensures
        is_full_name(r@),
{
    let gender = if male { Gender::Male } else { Gender::Female };
    RandomNameGenerator::init().generate_specific(gender).to_string()
}

/// `RandomNameGenerator::generate`: a random name of a random gender, written
/// as `"{first} {last}"` like `name_of_gender`. The claim: the text holds that
/// space. Which names are drawn depends on the generator and is not stated.
#[verifier::external_body]
pub(crate) fn name_of_any_gender() -> (r: String)
    ensures
        is_full_name(r@),
{
    RandomNameGenerator::init().generate().to_string()
}

} // verus!
