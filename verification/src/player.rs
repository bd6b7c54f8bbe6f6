//! The two players and their display names.

use vstd::prelude::*;

verus! {

/// The player a spawned entity or a HUD element belongs to.
#[derive(Clone, Copy, Debug, PartialEq, Eq, Structural)]
pub enum Player {
    Player1,
    Player2,
}

impl Player {
    /// The display name of the player.
    pub open spec fn id_spec(self) -> Seq<char> {
        match self {
            Player::Player1 => "Player 1"@,
            Player::Player2 => "Player 2"@,
        }
    }

    /// The display name of the player, shown in the HUD and used as the
    /// entity name of the player's UI node.
    pub fn id(&self) -> (r: &'static str)
        ensures
            r@ == self.id_spec(),
    {
        match self {
            Player::Player1 => "Player 1",
            Player::Player2 => "Player 2",
        }
    }
}

} // verus!
