//! Problems found in a player read back from the database, which the user may
//! have edited by hand.

use vstd::prelude::*;
use crate::text::{int_text, int_to_string};

verus! {

/// An expected value beside the value found.
#[derive(Debug, Copy, Clone, PartialEq, Eq)]
pub struct CompTable<T> {
    pub expected: T,
    pub actual: T,
}

impl CompTable<i32> {
    pub open spec fn text(&self) -> Seq<char> {
        "Expected: "@ + int_text(self.expected as int) + ", Actual:"@ + int_text(self.actual as int)
    }

    pub fn to_display(&self) -> (r: String)
        ensures
            r@ == self.text(),
    {
        let mut s = String::from_str("Expected: ");
        s.append(int_to_string(self.expected as i64).as_str());
        s.append(", Actual:");
        s.append(int_to_string(self.actual as i64).as_str());
        s
    }
}

/// Appends the text of an addition, if there is one.
fn append_opt(s: &mut String, addition: Option<String>)
    ensures
        final(s)@ == old(s)@ + (match addition {
            Some(a) => a@,
            None => Seq::<char>::empty(),
        }),
{
    match addition {
        Some(a) => s.append(a.as_str()),
        None => {
            assert(s@ =~= s@ + Seq::<char>::empty());
        },
    }
}

/// The line that reports a field with a value that is not valid.
pub open spec fn option_text(opt: Option<i32>, field_name: Seq<char>) -> Seq<char> {
    match opt {
        Some(value) => "\n"@ + int_text(value as int) + " is invalid for "@ + field_name,
        None => Seq::empty(),
    }
}

fn option_string(opt: Option<i32>, field_name: &str) -> (r: Option<String>)
    ensures
        opt is None ==> r is None,
        opt is Some ==> (r matches Some(s) && s@ == option_text(opt, field_name@)),
{
    if let Some(value) = opt {
        let mut s = String::from_str("\n");
        s.append(int_to_string(value as i64).as_str());
        s.append(" is invalid for ");
        s.append(field_name);
        Some(s)
    } else {
        None
    }
}

/// The line that reports a field that differs from what was expected.
pub open spec fn comp_table_text(opt: Option<CompTable<i32>>, field_name: Seq<char>) -> Seq<char> {
    match opt {
        Some(table) => "\n"@ + field_name + " is invalid."@ + table.text(),
        None => Seq::empty(),
    }
}

fn add_comp_table_string(opt: Option<CompTable<i32>>, field_name: &str) -> (r: Option<String>)
    ensures
        opt is None ==> r is None,
        opt is Some ==> (r matches Some(s) && s@ == comp_table_text(opt, field_name@)),
{
    if let Some(table) = opt {
        let mut s = String::from_str("\n");
        s.append(field_name);
        s.append(" is invalid.");
        s.append(table.to_display().as_str());
        Some(s)
    } else {
        None
    }
}

/// For each field of a player that holds a wrong value, what was found (and
/// what was expected). Used to warn the user when a player is loaded.
#[derive(Debug)]
pub struct PlayerError<'a> {
    pub valid_age: Option<i32>,
    pub valid_bt: Option<i32>,
    pub valid_obt_mod: Option<i32>,
    pub valid_obt: Option<i32>,
    pub valid_obt_sum: Option<CompTable<i32>>,
    pub valid_pd_int: Option<CompTable<i32>>,
    pub name: &'a String,
    pub id: i64,
}

impl<'a> PlayerError<'a> {
    /// The warning written out: the player's name, one line per problem, and
    /// the player's id.
    pub open spec fn text(&self) -> Seq<char> {
        "Warning: "@ + self.name@ + " has errors in the database["@ + option_text(self.valid_age, "age"@)
            + option_text(self.valid_bt, "bt"@) + option_text(self.valid_obt_mod, "obt_mod"@)
            + option_text(self.valid_obt, "obt"@) + comp_table_text(self.valid_obt_sum, "obt"@)
            + comp_table_text(self.valid_pd_int, "pd_int"@) + "\n]\n Player ID = "@ + int_text(
            self.id as int,
        )
    }

    pub fn to_display(&self) -> (r: String)
        ensures
            r@ == self.text(),
    {
        let mut result = String::from_str("Warning: ");
        result.append(self.name.as_str());
        result.append(" has errors in the database[");
        append_opt(&mut result, option_string(self.valid_age, "age"));
        append_opt(&mut result, option_string(self.valid_bt, "bt"));
        append_opt(&mut result, option_string(self.valid_obt_mod, "obt_mod"));
        append_opt(&mut result, option_string(self.valid_obt, "obt"));
        append_opt(&mut result, add_comp_table_string(self.valid_obt_sum, "obt"));
        append_opt(&mut result, add_comp_table_string(self.valid_pd_int, "pd_int"));
        result.append("\n]\n Player ID = ");
        result.append(int_to_string(self.id).as_str());
        assert(result@ =~= self.text());
        result
    }
}

} // verus!
