//! Players in the farm system: only a few of their fields are known until
//! they are promoted.

use vstd::prelude::*;
use rand::rngs::ThreadRng;
use crate::era::Era;
use crate::player::{Hand, Player, PlayerGender};
use crate::player_quality::{PlayerQuality, generated};

verus! {

/// What is known of a player in the farm system, including the quality the
/// rest of the player is generated from once promoted.
pub struct MinorLeaguer<PotentialQuality: PlayerQuality> {
    pub potential_quality: PotentialQuality,
    pub name: String,
    pub hand: Hand,
    pub gender: PlayerGender,
    pub era: Era,
}

impl<T: PlayerQuality> MinorLeaguer<T> {
    /// Raises the player's potential quality.
    pub fn upgrade(&mut self)
        ensures
            final(self).potential_quality == old(self).potential_quality.upgraded(),
            final(self).name == old(self).name,
            final(self).hand == old(self).hand,
            final(self).gender == old(self).gender,
            final(self).era == old(self).era,
    {
        self.potential_quality = self.potential_quality.upgrade()
    }

    /// Generates the promoted player from the potential quality, keeping the
    /// name and hand already known.
    pub fn unveil(&self, thread: &mut ThreadRng) -> (r: Player)
        ensures
            r.name@ == self.name@,
            r.hand == self.hand,
            exists|g: Player|
                generated(self.potential_quality, g, self.era) && r == (Player { name: r.name, hand: self.hand, ..g }),
    {
        let gen_player = self.potential_quality.gen_player(thread, self.era);
        assert(generated(self.potential_quality, gen_player, self.era));
        let r = Player { name: self.name.clone(), hand: self.hand, ..gen_player };
        assert(r == (Player { name: r.name, hand: self.hand, ..gen_player }));
        r
    }
}

} // verus!
