//! Changes to a player that are planned to happen later.

use vstd::prelude::*;
use crate::player::Player;

verus! {

/// A planned change: to the batting target, or to the pitch die.
pub enum FutureChange {
    BT(i32),
    PD(i32),
}

/// A change planned for the player with the given id.
pub struct Future {
    pub change: FutureChange,
    pub player_id: i64,
}

/// Whether the player at `i` is the first one with the id.
pub open spec fn first_with_id(players: Seq<Player>, id: i64, i: int) -> bool {
    &&& 0 <= i < players.len()
    &&& players[i].player_id == id
    &&& forall|k: int| 0 <= k < i ==> (#[trigger] players[k]).player_id != id
}

/// The position of the first player with the id, or an error when none has it.
pub fn get_player_from_id(id: i64, vec: &Vec<Player>) -> (r: Result<usize, ()>)
    ensures
        r matches Ok(i) ==> first_with_id(vec@, id, i as int),
        r is Err <==> forall|k: int| 0 <= k < vec.len() ==> (#[trigger] vec@[k]).player_id != id,
{
    let n = vec.len();
    for i in 0..n
        invariant
            n == vec.len(),
            forall|k: int| 0 <= k < i ==> (#[trigger] vec@[k]).player_id != id,
    {
        if vec[i].player_id == id {
            return Ok(i);
        }
    }
    Err(())
}

impl Future {
    /// Applies the change to the first player with the id, if there is one. A
    /// change to the batting target moves the on base target with it; a change
    /// to the pitch die does nothing yet.
    pub fn activate(&self, vec: &mut Vec<Player>)
        requires
            forall|k: int|
                #[trigger] first_with_id(old(vec)@, self.player_id, k) ==> (
                self.change matches FutureChange::BT(diff) ==> {
                    &&& i32::MIN <= old(vec)@[k].bt + diff <= i32::MAX
                    &&& i32::MIN <= old(vec)@[k].bt + diff + old(vec)@[k].obt_mod <= i32::MAX
                }),
        ensures
            final(vec).len() == old(vec).len(),
            forall|k: int|
                0 <= k < old(vec).len() ==> #[trigger] final(vec)@[k] == (if first_with_id(old(vec)@, self.player_id, k) && self.change is BT {
                    let p = old(vec)@[k];
                    let bt = p.bt + self.change->BT_0;
                    Player { bt: bt as i32, obt: (bt + p.obt_mod) as i32, ..p }
                } else {
                    old(vec)@[k]
                }),
    {
        match get_player_from_id(self.player_id, vec) {
            Ok(i) => {
                match self.change {
                    FutureChange::BT(diff) => {
                        let mut player = vec.remove(i);
                        player.bt = player.bt + diff;
                        player.obt = player.bt + player.obt_mod;
                        vec.insert(i, player);
                    },
                    FutureChange::PD(_diff) => {},
                }
            },
            Err(()) => {},
        }
    }
}

} // verus!
