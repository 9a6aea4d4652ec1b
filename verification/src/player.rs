use vstd::prelude::*;

verus! {

/// One of the two players. Only a cyclic "next player" operation is defined;
/// there is no meaningful ordering between the players.
#[derive(Debug, Clone, Copy, PartialEq, Eq, Structural)]
pub enum Player {
    A,
    B,
}

impl Player {
    /// The player whose turn follows this player's.
    pub fn next(self) -> (r: Player)
        ensures
            r == self.spec_next(),
            r != self,
    {
        match self {
            Player::A => Player::B,
            Player::B => Player::A,
        }
    }

    pub open spec fn spec_next(self) -> Player {
        match self {
            Player::A => Player::B,
            Player::B => Player::A,
        }
    }
}

} // verus!
