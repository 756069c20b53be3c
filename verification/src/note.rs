//! Notes: users may attach a note to leagues, teams and players.

use vstd::prelude::*;

verus! {

/// A note, if one has been written.
pub type Note = Option<String>;

/// Things that carry a note.
pub trait Notable {
    spec fn note_view(&self) -> Note;

    spec fn note_prompt(&self) -> Seq<char>;

    fn get_note(&self) -> (r: &Note)
        ensures
            *r == self.note_view(),
    ;

    /// The question put to the user when a note is written.
    fn get_note_input_string(&self) -> (r: String)
        ensures
            r@ == self.note_prompt(),
    ;
}

} // verus!
