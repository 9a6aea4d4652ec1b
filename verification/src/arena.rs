use vstd::prelude::*;

use crate::game::GameResult;
use crate::player::Player;

verus! {

/// How many of the first `n` recorded results equal `target`.
pub open spec fn count_results_to(results: Seq<GameResult>, target: GameResult, n: int) -> int
    decreases n,
{
    if n <= 0 {
        0
    } else {
        count_results_to(results, target, n - 1) + if results[n - 1] == target {
            1int
        } else {
            0int
        }
    }
}

/// The collected outcomes of a batch of games: the result of each game
/// and how many rounds it ran.
pub struct ArenaResult {
    pub results: Vec<GameResult>,
    pub rounds_played: Vec<u16>,
}

impl ArenaResult {
    pub fn new(results: Vec<GameResult>, rounds_played: Vec<u16>) -> (r: ArenaResult)
        ensures
            r.results@ == results@,
            r.rounds_played@ == rounds_played@,
    {
        ArenaResult { results, rounds_played }
    }

    /// How many of the games `player` won.
    pub fn wins(&self, player: Player) -> (w: u32)
        requires
            self.results@.len() <= u32::MAX,
        ensures
            w == count_results_to(
                self.results@,
                GameResult::Win(player),
                self.results@.len() as int,
            ),
    {
        let mut w: u32 = 0;
        let mut k: usize = 0;
        while k < self.results.len()
            invariant
                self.results@.len() <= u32::MAX,
                k <= self.results@.len(),
                w == count_results_to(self.results@, GameResult::Win(player), k as int),
                w <= k,
            decreases self.results@.len() - k,
        {
            if self.results[k] == GameResult::Win(player) {
                w = w + 1;
            }
            k = k + 1;
        }
        w
    }

    /// How many of the games ended in a draw.
    pub fn draws(&self) -> (d: u32)
        requires
            self.results@.len() <= u32::MAX,
        ensures
            d == count_results_to(self.results@, GameResult::Draw, self.results@.len() as int),
    {
        let mut d: u32 = 0;
        let mut k: usize = 0;
        while k < self.results.len()
            invariant
                self.results@.len() <= u32::MAX,
                k <= self.results@.len(),
                d == count_results_to(self.results@, GameResult::Draw, k as int),
                d <= k,
            decreases self.results@.len() - k,
        {
            if self.results[k] == GameResult::Draw {
                d = d + 1;
            }
            k = k + 1;
        }
        d
    }

    /// The player with strictly more wins, if either has any edge.
    pub fn winner(&self) -> (w: Option<Player>)
        requires
            self.results@.len() <= u32::MAX,
        ensures
            ({
                let wa = count_results_to(
                    self.results@,
                    GameResult::Win(Player::A),
                    self.results@.len() as int,
                );
                let wb = count_results_to(
                    self.results@,
                    GameResult::Win(Player::B),
                    self.results@.len() as int,
                );
                w == if wa > wb {
                    Some(Player::A)
                } else if wb > wa {
                    Some(Player::B)
                } else {
                    None::<Player>
                }
            }),
    {
        let wa = self.wins(Player::A);
        let wb = self.wins(Player::B);
        if wa > wb {
            Some(Player::A)
        } else if wb > wa {
            Some(Player::B)
        } else {
            None
        }
    }
}

} // verus!
