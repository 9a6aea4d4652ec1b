use vstd::prelude::*;

use crate::player::Player;
use crate::territories::Territory;

verus! {

/// The state of a single territory: its owner and the armies standing on it.
/// Army counts are 8-bit; every arithmetic update that would leave `0..=255`
/// fails rather than wrapping.
#[derive(Debug, Clone, Copy, PartialEq, Eq, Structural)]
pub struct TerritoryState {
    pub player: Player,
    pub armies: u8,
}

impl TerritoryState {
    pub fn new(player: Player, armies: u8) -> (r: TerritoryState)
        ensures
            r.player == player,
            r.armies == armies,
    {
        TerritoryState { player, armies }
    }

    pub fn player(&self) -> (p: Player)
        ensures
            p == self.player,
    {
        self.player
    }

    pub fn armies(&self) -> (a: u8)
        ensures
            a == self.armies,
    {
        self.armies
    }
}

/// A territory paired with its state, as handed out by the iteration
/// accessors.
#[derive(Debug, Clone, Copy, PartialEq, Eq, Structural)]
pub struct NamedTerritoryState {
    pub territory: Territory,
    pub state: TerritoryState,
}

impl NamedTerritoryState {
    pub fn new(territory: Territory, state: TerritoryState) -> (r: NamedTerritoryState)
        ensures
            r.territory == territory,
            r.state == state,
    {
        NamedTerritoryState { territory, state }
    }

    pub fn territory(&self) -> (t: Territory)
        ensures
            t == self.territory,
    {
        self.territory
    }

    pub fn state(&self) -> (s: TerritoryState)
        ensures
            s == self.state,
    {
        self.state
    }
}

/// The phase of the current player's turn. `Reinforce(n)` holds the
/// remaining reinforcement allotment; it decreases to 0, at which point the
/// phase becomes `Attack`. `Fortify` is defined and handled symmetrically to
/// `Attack` in move generation, but no transition of the move applier ever
/// produces it in the current rules.
#[derive(Debug, Clone, Copy, PartialEq, Eq, Structural)]
pub enum GamePhase {
    Reinforce(u8),
    Attack,
    Fortify,
}

/// A move requested by a player, validated against the current state before
/// it is applied.
#[derive(Debug, Clone, Copy, PartialEq, Eq, Structural)]
pub enum Move {
    Pass,
    Reinforce { territory: Territory, armies: u8 },
    Fortify { from: Territory, to: Territory, armies: u8 },
    Attack { from: Territory, to: Territory, attacking: u8 },
}

/// Why a move could not be applied. Every error is a local validation
/// failure reported to the immediate caller; applying a move never panics.
#[derive(Debug, Clone, Copy, PartialEq, Eq, Structural)]
pub enum MoveApplyErr {
    MoveNotInPhase(Move, GamePhase),
    TooManyReinforcements,
    TooManyMoves,
    TooManyUnitsMoved,
    TooManyUnitsDefended,
    FromTerritoryNotOwned,
    ToTerritoryNotOwned,
    ToTerritoryOwned,
    NonAdjacentTerritories,
    ZeroUnitsInAttack,
    GameFinished,
}

/// The full immutable game state: whose turn it is, the state of each of the
/// 42 territories (indexed by `Territory::index`), and the turn phase.
/// Applying a move never mutates a state; it produces new ones.
#[derive(Debug)]
pub struct GameState {
    pub current_player: Player,
    pub territories: Vec<TerritoryState>,
    pub phase: GamePhase,
}

impl GameState {
    /// A game state always holds exactly one entry per territory.
    pub open spec fn wf(self) -> bool {
        self.territories@.len() == 42
    }

    /// The owner of the territory at index `i`.
    pub open spec fn spec_owner(self, i: int) -> Player {
        self.territories@[i].player
    }

    /// The army count of the territory at index `i`.
    pub open spec fn spec_armies(self, i: int) -> u8 {
        self.territories@[i].armies
    }

    pub fn new(current_player: Player, territories: Vec<TerritoryState>, phase: GamePhase) -> (r:
        GameState)
        requires
            territories@.len() == 42,
        ensures
            r.wf(),
            r.current_player == current_player,
            r.territories@ == territories@,
            r.phase == phase,
    {
        GameState { current_player, territories, phase }
    }

    /// A structural copy of this state, with the same owner, army count and
    /// phase everywhere.
    pub fn duplicate(&self) -> (r: GameState)
        ensures
            r.current_player == self.current_player,
            r.phase == self.phase,
            r.territories@ == self.territories@,
    {
        let mut v: Vec<TerritoryState> = Vec::new();
        let mut i: usize = 0;
        while i < self.territories.len()
            invariant
                i <= self.territories@.len(),
                v@ == self.territories@.subrange(0, i as int),
            decreases self.territories@.len() - i,
        {
            v.push(self.territories[i]);
            assert(v@ =~= self.territories@.subrange(0, i + 1));
            i = i + 1;
        }
        assert(v@ =~= self.territories@);
        GameState { current_player: self.current_player, territories: v, phase: self.phase }
    }
}

/// A sequence of territory states with one state's armies replaced; the
/// owner there is unchanged.
pub open spec fn with_armies(ts: Seq<TerritoryState>, i: int, armies: u8) -> Seq<TerritoryState> {
    ts.update(i, TerritoryState { player: ts[i].player, armies })
}

/// A sequence of territory states with one territory handed to a new owner
/// holding a new army count.
pub open spec fn with_owner_armies(
    ts: Seq<TerritoryState>,
    i: int,
    player: Player,
    armies: u8,
) -> Seq<TerritoryState> {
    ts.update(i, TerritoryState { player, armies })
}

} // verus!
