use vstd::prelude::*;

use crate::game_state::{GameState, Move};
use crate::rng::random_below;

verus! {

/// A decision policy: given a state, it picks the move to play. The
/// engine does not trust policies to be honest; an illegal pick is
/// rejected by `apply_move` with the ordinary error taxonomy.
pub trait Bot {
    fn make_move(&self, game_state: &GameState) -> (m: Move)
        requires
            game_state.wf(),
    ;
}

/// A policy that plays a uniformly random legal move, or passes when no
/// move is legal at all.
pub struct RandomBot;

impl Bot for RandomBot {
    fn make_move(&self, game_state: &GameState) -> (m: Move) {
        let moves = game_state.legal_moves();
        if moves.len() == 0 {
            return Move::Pass;
        }
        let i = random_below(moves.len());
        moves[i]
    }
}

impl Default for RandomBot {
    fn default() -> (r: RandomBot)
        ensures
            r == RandomBot,
    {
        RandomBot
    }
}

} // verus!
