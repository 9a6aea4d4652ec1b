use vstd::prelude::*;

use crate::bots::Bot;
use crate::game_state::{GameState, Move, MoveApplyErr};
use crate::initial_placement::GameStateDuringInitialPlacement;
use crate::player::Player;

verus! {

/// How one finished game ended.
#[derive(Debug, Clone, Copy, PartialEq, Eq, Structural)]
pub enum GameResult {
    Win(Player),
    Draw,
}

/// Options for a game driver: where to save per-round map images, and
/// whether to narrate moves. The engine itself performs no I/O; these
/// options are carried for the surrounding tooling to read.
#[derive(Clone)]
pub struct PlayOptions {
    pub filename: Option<String>,
    pub debug_output: bool,
}

impl Default for PlayOptions {
    fn default() -> (r: PlayOptions)
        ensures
            r.filename is None,
            !r.debug_output,
    {
        PlayOptions { filename: None, debug_output: false }
    }
}

impl PlayOptions {
    /// Asks drivers to save a map image per round under the given folder.
    pub fn save_map_images(self, folder: &str) -> (r: PlayOptions)
        ensures
            r.filename matches Some(f) && f@ == folder@,
            r.debug_output == self.debug_output,
    {
        PlayOptions { filename: Some(folder.to_owned()), debug_output: self.debug_output }
    }

    /// Asks drivers to narrate each move.
    pub fn verbose(self) -> (r: PlayOptions)
        ensures
            r.debug_output,
            r.filename == self.filename,
    {
        PlayOptions { filename: self.filename, debug_output: true }
    }
}

/// A running game between two policies: the round counter and the current
/// state. Rounds are capped at 2000 and each player's turn at just over
/// 100 moves, so a runaway policy surfaces as a draw or an error rather
/// than an endless game.
pub struct Game<BotA: Bot, BotB: Bot> {
    pub round: u32,
    pub bot_a: BotA,
    pub bot_b: BotB,
    pub game_state: GameState,
}

impl<BotA: Bot, BotB: Bot> Game<BotA, BotB> {
    /// A fresh game on a randomly placed board.
    pub fn new(bot_a: BotA, bot_b: BotB) -> (g: Game<BotA, BotB>)
        ensures
            g.round == 0,
            g.game_state.wf(),
    {
        let placed = GameStateDuringInitialPlacement::new().place_random();
        let state = placed.start();
        Game { round: 0, bot_a, bot_b, game_state: state }
    }

    /// Plays one full turn of the player to move: their policy keeps
    /// picking moves until the turn passes to the other player or the game
    /// ends. Reports a win as soon as the state is terminal, a draw past
    /// the round cap, and `TooManyMoves` when one turn exceeds its cap.
    pub fn play_round(&mut self, _options: PlayOptions) -> (r: Result<
        (Option<GameResult>, Vec<Move>),
        MoveApplyErr,
    >)
        requires
            old(self).game_state.wf(),
        ensures
            final(self).game_state.wf(),
            old(self).game_state.spec_finished() ==> (r matches Ok(p) && p.0 == Some(
                GameResult::Win(old(self).game_state.current_player),
            ) && *final(self) == *old(self)),
            !old(self).game_state.spec_finished() && old(self).round >= 2000 ==> (r matches Ok(p)
                && p.0 == Some(GameResult::Draw) && *final(self) == *old(self)),
            !old(self).game_state.spec_finished() && old(self).round < 2000 && r is Ok ==> (
            r matches Ok(p) && p.0 is None) && final(self).round == old(self).round + 1,
    {
        if self.game_state.is_finished() {
            return Ok((Some(GameResult::Win(self.game_state.current_player())), Vec::new()));
        }
        if self.round >= 2000 {
            return Ok((Some(GameResult::Draw), Vec::new()));
        }
        let player = self.game_state.current_player();
        let mut moves_played: Vec<Move> = Vec::new();
        let mut done = false;
        while !done
            invariant
                self.game_state.wf(),
                self.round == old(self).round,
                !old(self).game_state.spec_finished(),
                old(self).round < 2000,
                moves_played@.len() <= 100,
            decreases 100 - moves_played@.len(), if done {
                0int
            } else {
                1int
            },
        {
            let move_to_play = if player == Player::A {
                self.bot_a.make_move(&self.game_state)
            } else {
                self.bot_b.make_move(&self.game_state)
            };
            let outcome = match self.game_state.apply_move(&move_to_play) {
                Ok(o) => o,
                Err(e) => {
                    return Err(e);
                },
            };
            proof {
                if self.game_state.spec_apply_err(move_to_play) is Some {
                    assert(false);
                }
                assert(outcome.states_with_count@.len() >= 1);
                assert(outcome.states_with_count@[0].state.territories@.len() == 42);
            }
            let next_state = outcome.states_with_count[0].state.duplicate();
            self.game_state = next_state;
            moves_played.push(move_to_play);
            if moves_played.len() > 100 {
                return Err(MoveApplyErr::TooManyMoves);
            }
            done = self.game_state.is_finished() || self.game_state.current_player() != player;
        }
        self.round = self.round + 1;
        Ok((None, moves_played))
    }

    /// Plays rounds until the game ends in a win or hits the round cap.
    pub fn play_until_end(&mut self, options: &PlayOptions) -> (r: Result<
        GameResult,
        MoveApplyErr,
    >)
        requires
            old(self).game_state.wf(),
        ensures
            final(self).game_state.wf(),
    {
        loop
            invariant
                self.game_state.wf(),
            decreases (if self.round <= 2001 {
                2001 - self.round as int
            } else {
                0int
            }),
        {
            match self.play_round(options.clone()) {
                Ok((Some(result), _)) => {
                    return Ok(result);
                },
                Ok((None, _)) => {},
                Err(e) => {
                    return Err(e);
                },
            }
        }
    }

    /// How many full rounds have been played.
    pub fn round(&self) -> (r: u32)
        ensures
            r == self.round,
    {
        self.round
    }
}

/// Scores an unfinished game by territory majority: the player holding
/// more territories is declared the winner, equal holdings a draw; a
/// finished game is won by its sole owner.
pub fn eval_territory(game_state: &GameState) -> (r: GameResult)
    requires
        game_state.wf(),
    ensures
        game_state.spec_finished() ==> r == GameResult::Win(game_state.current_player),
        !game_state.spec_finished() ==> ({
            let a = game_state.spec_count_owned(Player::A);
            let b = game_state.spec_count_owned(Player::B);
            r == if a > b {
                GameResult::Win(Player::A)
            } else if b > a {
                GameResult::Win(Player::B)
            } else {
                GameResult::Draw
            }
        }),
{
    if game_state.is_finished() {
        return GameResult::Win(game_state.current_player());
    }
    let mut count_a: usize = 0;
    let mut count_b: usize = 0;
    let mut i: usize = 0;
    while i < 42
        invariant
            game_state.wf(),
            i <= 42,
            count_a == game_state.count_owned_to(Player::A, i as int),
            count_b == game_state.count_owned_to(Player::B, i as int),
            count_a <= i,
            count_b <= i,
        decreases 42 - i,
    {
        if game_state.territory_states()[i].player() == Player::A {
            count_a = count_a + 1;
        } else {
            count_b = count_b + 1;
        }
        i = i + 1;
    }
    if count_a > count_b {
        GameResult::Win(Player::A)
    } else if count_b > count_a {
        GameResult::Win(Player::B)
    } else {
        GameResult::Draw
    }
}

} // verus!
