//! Pools of players of one category.

use vstd::prelude::*;
use crate::player::Player;

verus! {

/// Which players a pool takes.
#[derive(Clone, Copy, Debug, PartialEq, Eq, Structural)]
pub enum PlayerCategory {
    Batter,
    Pitcher,
    Both,
}

impl PlayerCategory {
    pub open spec fn admits(&self, player: Player) -> bool {
        match *self {
            PlayerCategory::Both => true,
            PlayerCategory::Batter => player.pd is None,
            PlayerCategory::Pitcher => player.pd is Some,
        }
    }

    /// Whether a player belongs in a pool of this category: batters have no
    /// pitch die, pitchers have one.
    pub fn filter(&self, player: &Player) -> (r: bool)
        ensures
            r == self.admits(*player),
    {
        match self {
            PlayerCategory::Both => true,
            PlayerCategory::Batter => !player.is_pitcher(),
            PlayerCategory::Pitcher => player.is_pitcher(),
        }
    }
}

/// A described pool of players of one category. Every player of the pool is
/// of its category.
pub struct PlayerPool {
    vec: Vec<Player>,
    category: PlayerCategory,
    desc: String,
}

impl PlayerPool {
    /// Every player of the pool is of its category.
    #[verifier::type_invariant]
    spec fn well_formed(&self) -> bool {
        forall|i: int| 0 <= i < self.vec.len() ==> self.category.admits(#[trigger] self.vec@[i])
    }

    /// The players of the pool, in the order they were added.
    pub closed spec fn players(&self) -> Seq<Player> {
        self.vec@
    }

    /// The category of the pool.
    pub closed spec fn pool_category(&self) -> PlayerCategory {
        self.category
    }

    /// The description of the pool.
    pub closed spec fn description(&self) -> Seq<char> {
        self.desc@
    }

    /// An empty pool.
    pub fn new(desc: &str, category: PlayerCategory) -> (r: PlayerPool)
        ensures
            r.players().len() == 0,
            r.pool_category() == category,
            r.description() == desc@,
    {
        PlayerPool { vec: Vec::new(), category, desc: String::from_str(desc) }
    }

    /// Adds a player of the pool's category at the end of the pool.
    pub fn add_player(&mut self, player: Player)
        requires
            old(self).pool_category().admits(player),
        ensures
            final(self).players() == old(self).players().push(player),
            final(self).pool_category() == old(self).pool_category(),
            final(self).description() == old(self).description(),
    {
        proof {
            use_type_invariant(&*self);
        }
        let mut players: Vec<Player> = Vec::new();
        std::mem::swap(&mut players, &mut self.vec);
        players.push(player);
        self.vec = players;
    }

    /// The players of the pool, each of the pool's category.
    pub fn vec(&self) -> (r: &Vec<Player>)
        ensures
            r@ == self.players(),
            forall|i: int| 0 <= i < r.len() ==> self.pool_category().admits(#[trigger] r@[i]),
    {
        proof {
            use_type_invariant(self);
        }
        &self.vec
    }

    pub fn category(&self) -> (r: PlayerCategory)
        ensures
            r == self.pool_category(),
    {
        self.category
    }

    pub fn desc(&self) -> (r: &String)
        ensures
            r@ == self.description(),
    {
        &self.desc
    }
}

} // verus!
