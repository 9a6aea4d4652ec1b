use vstd::prelude::*;

use crate::apply_move_result::{spec_total_count, ApplyMoveResult, GameStateWithCount};
use crate::combat::{attack_scenario_counts, pow6, scen_count, scen_count_sum, lemma_scen_partition};
use crate::game_state::{
    with_armies, with_owner_armies, GamePhase, GameState, Move, MoveApplyErr, NamedTerritoryState,
    TerritoryState,
};
use crate::player::Player;
use crate::seq_facts::lemma_push_contains;
use crate::territories::{spec_adjacent, spec_territory_of, Continent, Territory};

verus! {

/// The smaller of two integers.
pub open spec fn min_int(a: int, b: int) -> int {
    if a <= b {
        a
    } else {
        b
    }
}

impl GameState {
    /// The game is finished when one player owns every territory.
    pub open spec fn spec_finished(self) -> bool {
        forall|i: int| 0 <= i < 42 ==> #[trigger] self.spec_owner(i) == self.spec_owner(0)
    }

    /// A player controls a continent when they own every territory in it.
    pub open spec fn spec_controls(self, player: Player, continent: Continent) -> bool {
        forall|i: int|
            0 <= i < 42 && (#[trigger] spec_territory_of(i)).spec_continent() == continent
                ==> self.spec_owner(i) == player
    }

    /// How many territories a player owns among the first `n`.
    pub open spec fn count_owned_to(self, player: Player, n: int) -> int
        decreases n,
    {
        if n <= 0 {
            0
        } else {
            self.count_owned_to(player, n - 1) + if self.spec_owner(n - 1) == player {
                1int
            } else {
                0int
            }
        }
    }

    /// How many territories a player owns.
    pub open spec fn spec_count_owned(self, player: Player) -> int {
        self.count_owned_to(player, 42)
    }

    /// The sum of the continent bonuses of every continent the player fully
    /// controls.
    pub open spec fn spec_continent_bonus_sum(self, player: Player) -> int {
        (if self.spec_controls(player, Continent::NorthAmerica) {
            5int
        } else {
            0int
        }) + (if self.spec_controls(player, Continent::SouthAmerica) {
            2int
        } else {
            0int
        }) + (if self.spec_controls(player, Continent::Europe) {
            5int
        } else {
            0int
        }) + (if self.spec_controls(player, Continent::Africa) {
            3int
        } else {
            0int
        }) + (if self.spec_controls(player, Continent::Asia) {
            7int
        } else {
            0int
        }) + (if self.spec_controls(player, Continent::Oceania) {
            2int
        } else {
            0int
        })
    }

    /// The reinforcement allotment: a base from the owned-territory count
    /// plus a bonus for every fully controlled continent.
    pub open spec fn spec_reinforcements(self, player: Player) -> int {
        base_reinforcements(self.spec_count_owned(player)) + self.spec_continent_bonus_sum(player)
    }
}

/// The base reinforcement tier from the owned-territory count:
/// up to 13 territories give 3, 14 to 16 give 4, 17 or more give 5.
pub open spec fn base_reinforcements(territory_count: int) -> int {
    if territory_count <= 13 {
        3
    } else if territory_count <= 16 {
        4
    } else {
        5
    }
}

/// The fixed reinforcement bonus for fully controlling a continent.
pub open spec fn spec_continent_bonus(continent: Continent) -> int {
    match continent {
        Continent::NorthAmerica => 5,
        Continent::SouthAmerica => 2,
        Continent::Europe => 5,
        Continent::Africa => 3,
        Continent::Asia => 7,
        Continent::Oceania => 2,
    }
}

/// The base reinforcement tier is non-decreasing in the territory count and
/// steps up exactly twice: at 14 and at 17 territories.
pub proof fn lemma_reinforcement_tiers()
    ensures
        forall|n1: int, n2: int|
            n1 <= n2 ==> #[trigger] base_reinforcements(n1) <= #[trigger] base_reinforcements(n2),
        forall|n: int|
            0 <= n ==> (#[trigger] base_reinforcements(n + 1) != base_reinforcements(n) <==> (n + 1
                == 14 || n + 1 == 17)),
{
}

impl GameState {
    fn continent_bonus(continent: Continent) -> (b: u8)
        ensures
            b == spec_continent_bonus(continent),
    {
        match continent {
            Continent::NorthAmerica => 5,
            Continent::SouthAmerica => 2,
            Continent::Europe => 5,
            Continent::Africa => 3,
            Continent::Asia => 7,
            Continent::Oceania => 2,
        }
    }

    /// Whether `player` owns every territory of `continent`.
    fn controls_continent(&self, player: Player, continent: Continent) -> (r: bool)
        requires
            self.wf(),
        ensures
            r == self.spec_controls(player, continent),
    {
        let mut i: usize = 0;
        while i < 42
            invariant
                self.wf(),
                i <= 42,
                forall|j: int|
                    0 <= j < i && (#[trigger] spec_territory_of(j)).spec_continent() == continent
                        ==> self.spec_owner(j) == player,
            decreases 42 - i,
        {
            let t = Territory::from_index(i);
            proof {
                crate::territories::lemma_territory_of_index(i as int);
            }
            if t.continent() == continent && self.territories[i].player != player {
                return false;
            }
            i = i + 1;
        }
        true
    }

    /// Every continent the player fully controls.
    pub fn continents_for_player(&self, player: Player) -> (v: Vec<Continent>)
        requires
            self.wf(),
        ensures
            forall|c: Continent| #[trigger] v@.contains(c) <==> self.spec_controls(player, c),
    {
        let mut v: Vec<Continent> = Vec::new();
        if self.controls_continent(player, Continent::NorthAmerica) {
            proof {
                lemma_push_contains(v@, Continent::NorthAmerica);
            }
            v.push(Continent::NorthAmerica);
        }
        if self.controls_continent(player, Continent::SouthAmerica) {
            proof {
                lemma_push_contains(v@, Continent::SouthAmerica);
            }
            v.push(Continent::SouthAmerica);
        }
        if self.controls_continent(player, Continent::Europe) {
            proof {
                lemma_push_contains(v@, Continent::Europe);
            }
            v.push(Continent::Europe);
        }
        if self.controls_continent(player, Continent::Asia) {
            proof {
                lemma_push_contains(v@, Continent::Asia);
            }
            v.push(Continent::Asia);
        }
        if self.controls_continent(player, Continent::Africa) {
            proof {
                lemma_push_contains(v@, Continent::Africa);
            }
            v.push(Continent::Africa);
        }
        if self.controls_continent(player, Continent::Oceania) {
            proof {
                lemma_push_contains(v@, Continent::Oceania);
            }
            v.push(Continent::Oceania);
        }
        proof {
            assert forall|c: Continent| #[trigger] v@.contains(c) <==> self.spec_controls(
                player,
                c,
            ) by {
                match c {
                    Continent::NorthAmerica => {},
                    Continent::SouthAmerica => {},
                    Continent::Europe => {},
                    Continent::Asia => {},
                    Continent::Africa => {},
                    Continent::Oceania => {},
                }
            }
        }
        v
    }

    /// The reinforcement allotment for `player` in this state: the tier base
    /// for the owned-territory count plus every controlled continent's bonus.
    pub fn number_of_reinforcements(&self, player: Player) -> (r: u8)
        requires
            self.wf(),
        ensures
            r == self.spec_reinforcements(player),
            3 <= r <= 29,
    {
        let mut owned: usize = 0;
        let mut i: usize = 0;
        while i < 42
            invariant
                self.wf(),
                i <= 42,
                owned == self.count_owned_to(player, i as int),
                owned <= i,
            decreases 42 - i,
        {
            if self.territories[i].player == player {
                owned = owned + 1;
            }
            i = i + 1;
        }
        let mut total: u8 = if owned <= 13 {
            3
        } else if owned <= 16 {
            4
        } else {
            5
        };
        if self.controls_continent(player, Continent::NorthAmerica) {
            total = total + GameState::continent_bonus(Continent::NorthAmerica);
        }
        if self.controls_continent(player, Continent::SouthAmerica) {
            total = total + GameState::continent_bonus(Continent::SouthAmerica);
        }
        if self.controls_continent(player, Continent::Europe) {
            total = total + GameState::continent_bonus(Continent::Europe);
        }
        if self.controls_continent(player, Continent::Africa) {
            total = total + GameState::continent_bonus(Continent::Africa);
        }
        if self.controls_continent(player, Continent::Asia) {
            total = total + GameState::continent_bonus(Continent::Asia);
        }
        if self.controls_continent(player, Continent::Oceania) {
            total = total + GameState::continent_bonus(Continent::Oceania);
        }
        total
    }

    /// The state of one territory.
    pub fn territory_state(&self, territory: Territory) -> (r: &TerritoryState)
        requires
            self.wf(),
        ensures
            *r == self.territories@[territory.spec_index()],
    {
        &self.territories[territory.index()]
    }

    /// Every territory paired with its state, in index order.
    pub fn named_territories_iter(&self) -> (v: Vec<NamedTerritoryState>)
        requires
            self.wf(),
        ensures
            v@.len() == 42,
            forall|k: int|
                0 <= k < 42 ==> (#[trigger] v@[k]).territory.spec_index() == k && v@[k].state
                    == self.territories@[k],
    {
        let mut v: Vec<NamedTerritoryState> = Vec::new();
        let mut i: usize = 0;
        while i < 42
            invariant
                self.wf(),
                i <= 42,
                v@.len() == i,
                forall|k: int|
                    0 <= k < i ==> (#[trigger] v@[k]).territory.spec_index() == k && v@[k].state
                        == self.territories@[k],
            decreases 42 - i,
        {
            let t = Territory::from_index(i);
            v.push(NamedTerritoryState { territory: t, state: self.territories[i] });
            i = i + 1;
        }
        v
    }

    /// Every territory the player owns, paired with its state, in strictly
    /// increasing index order.
    #[verifier::rlimit(100)]
    pub fn territories_states_of_player(&self, player: Player) -> (v: Vec<NamedTerritoryState>)
        requires
            self.wf(),
        ensures
            forall|k: int|
                0 <= k < v@.len() ==> self.spec_owner((#[trigger] v@[k]).territory.spec_index())
                    == player && v@[k].state == self.territories@[v@[k].territory.spec_index()],
            forall|i: int|
                0 <= i < 42 && self.spec_owner(i) == player ==> exists|k: int|
                    0 <= k < v@.len() && (#[trigger] v@[k]).territory.spec_index() == i,
            v@.len() == self.spec_count_owned(player),
    {
        let mut v: Vec<NamedTerritoryState> = Vec::new();
        let mut i: usize = 0;
        while i < 42
            invariant
                self.wf(),
                i <= 42,
                forall|k: int|
                    0 <= k < v@.len() ==> self.spec_owner(
                        (#[trigger] v@[k]).territory.spec_index(),
                    ) == player && v@[k].state == self.territories@[v@[k].territory.spec_index()]
                        && v@[k].territory.spec_index() < i,
                forall|j: int|
                    0 <= j < i && self.spec_owner(j) == player ==> exists|k: int|
                        0 <= k < v@.len() && (#[trigger] v@[k]).territory.spec_index() == j,
                v@.len() == self.count_owned_to(player, i as int),
            decreases 42 - i,
        {
            let t = Territory::from_index(i);
            if self.territories[i].player == player {
                let ghost v0 = v@;
                let entry = NamedTerritoryState { territory: t, state: self.territories[i] };
                v.push(entry);
                proof {
                    assert(v@[v@.len() - 1] == entry);
                    assert forall|j: int| 0 <= j < i + 1 && self.spec_owner(j) == player
                        implies exists|k: int|
                        0 <= k < v@.len() && (#[trigger] v@[k]).territory.spec_index() == j by {
                        if j < i {
                            let k = choose|k: int|
                                0 <= k < v0.len() && (#[trigger] v0[k]).territory.spec_index()
                                    == j;
                            assert(v@[k].territory.spec_index() == j);
                        } else {
                            assert(v@[v@.len() - 1].territory.spec_index() == j);
                        }
                    }
                }
            }
            i = i + 1;
        }
        v
    }

    /// Whether one player owns all 42 territories.
    pub fn is_finished(&self) -> (r: bool)
        requires
            self.wf(),
        ensures
            r == self.spec_finished(),
    {
        let first = self.territories[0].player;
        let mut i: usize = 0;
        while i < 42
            invariant
                self.wf(),
                i <= 42,
                first == self.spec_owner(0),
                forall|j: int| 0 <= j < i ==> self.spec_owner(j) == first,
            decreases 42 - i,
        {
            if self.territories[i].player != first {
                assert(self.spec_owner(i as int) != self.spec_owner(0));
                return false;
            }
            i = i + 1;
        }
        true
    }

    pub fn current_player(&self) -> (p: Player)
        ensures
            p == self.current_player,
    {
        self.current_player
    }

    pub fn phase(&self) -> (p: crate::game_state::GamePhase)
        ensures
            p == self.phase,
    {
        self.phase
    }

    pub fn territory_states(&self) -> (r: &[TerritoryState])
        ensures
            r@ == self.territories@,
    {
        self.territories.as_slice()
    }
}

} // verus!

verus! {

/// A successful single-outcome application: the result holds exactly one
/// successor state, with weight 1, made of the given parts.
pub open spec fn single_outcome_ok(
    r: Result<ApplyMoveResult, MoveApplyErr>,
    player: Player,
    terr: Seq<TerritoryState>,
    phase: GamePhase,
) -> bool {
    r matches Ok(amr) && {
        &&& amr.states_with_count@.len() == 1
        &&& amr.states_with_count@[0].count == 1
        &&& amr.states_with_count@[0].state.current_player == player
        &&& amr.states_with_count@[0].state.territories@ == terr
        &&& amr.states_with_count@[0].state.phase == phase
    }
}

impl GameState {
    /// The phase that opens the next player's turn: their reinforcement
    /// allotment, computed on this state's territory holdings.
    pub open spec fn spec_end_turn_phase(self) -> GamePhase {
        GamePhase::Reinforce(self.spec_reinforcements(self.current_player.spec_next()) as u8)
    }

    /// The phase after spending `armies` reinforcements: the remaining
    /// allotment, or `Attack` once it reaches zero.
    pub open spec fn spec_reinforce_phase(self, armies: u8) -> GamePhase {
        match self.phase {
            GamePhase::Reinforce(n) => if n == armies {
                GamePhase::Attack
            } else {
                GamePhase::Reinforce((n - armies) as u8)
            },
            _ => self.phase,
        }
    }

    /// The territories after a fortify: `armies` leave `from`, then join
    /// `to`.
    pub open spec fn spec_fortify_terr(self, from: Territory, to: Territory, armies: u8) -> Seq<
        TerritoryState,
    > {
        let fi = from.spec_index();
        let ti = to.spec_index();
        let ts1 = with_armies(self.territories@, fi, (self.spec_armies(fi) - armies) as u8);
        with_armies(ts1, ti, (ts1[ti].armies + armies) as u8)
    }

    /// The territories after the attack outcome in which the defender
    /// loses `dl` armies. If that wipes the defender out, the territory is
    /// captured: it changes owner and the whole committed attacking force
    /// moves in. Otherwise each side bears its losses where it stands.
    pub open spec fn spec_attack_outcome_terr(
        self,
        from: Territory,
        to: Territory,
        attacking: u8,
        dl: int,
    ) -> Seq<TerritoryState> {
        let fi = from.spec_index();
        let ti = to.spec_index();
        let a_dice = min_int(attacking as int, 3);
        let d_dice = min_int(self.spec_armies(ti) as int, 2);
        let pairs = min_int(a_dice, d_dice);
        if dl > 0 && dl == self.spec_armies(ti) {
            with_armies(
                with_owner_armies(self.territories@, ti, self.current_player, attacking),
                fi,
                (self.spec_armies(fi) - attacking) as u8,
            )
        } else {
            with_armies(
                with_armies(self.territories@, ti, (self.spec_armies(ti) - dl) as u8),
                fi,
                (self.spec_armies(fi) - (pairs - dl)) as u8,
            )
        }
    }

    /// A successful attack resolution: one entry per defender-loss value,
    /// in that order, each weighted by its exact number of ordered dice
    /// roll pairs; the weights sum to the number of all roll pairs.
    pub open spec fn spec_attack_entries_ok(
        self,
        entries: Seq<GameStateWithCount>,
        from: Territory,
        to: Territory,
        attacking: u8,
    ) -> bool {
        let ti = to.spec_index();
        let a_dice = min_int(attacking as int, 3);
        let d_dice = min_int(self.spec_armies(ti) as int, 2);
        let pairs = min_int(a_dice, d_dice);
        let total = pow6(a_dice as nat) * pow6(d_dice as nat);
        &&& entries.len() == pairs + 1
        &&& forall|dl: int|
            0 <= dl <= pairs ==> {
                &&& (#[trigger] entries[dl]).count == scen_count(
                    a_dice as nat,
                    d_dice as nat,
                    dl,
                    total as int,
                )
                &&& entries[dl].state.current_player == self.current_player
                &&& entries[dl].state.phase == GamePhase::Attack
                &&& entries[dl].state.territories@ == self.spec_attack_outcome_terr(
                    from,
                    to,
                    attacking,
                    dl,
                )
            }
        &&& spec_total_count(entries, pairs + 1) == total
    }

    /// The first validation failure `apply_move` reports for this move, if
    /// any; `None` when the move is accepted.
    pub open spec fn spec_apply_err(self, m: Move) -> Option<MoveApplyErr> {
        if self.spec_finished() {
            Some(MoveApplyErr::GameFinished)
        } else {
            match m {
                Move::Pass => match self.phase {
                    GamePhase::Reinforce(_) => Some(
                        MoveApplyErr::MoveNotInPhase(Move::Pass, self.phase),
                    ),
                    _ => None,
                },
                Move::Reinforce { territory, armies } => match self.phase {
                    GamePhase::Reinforce(n) => {
                        let ti = territory.spec_index();
                        if armies > n {
                            Some(MoveApplyErr::TooManyReinforcements)
                        } else if self.spec_owner(ti) != self.current_player {
                            Some(MoveApplyErr::ToTerritoryNotOwned)
                        } else if self.spec_armies(ti) + armies <= 255 {
                            None
                        } else {
                            Some(MoveApplyErr::TooManyUnitsMoved)
                        }
                    },
                    _ => Some(MoveApplyErr::MoveNotInPhase(m, self.phase)),
                },
                Move::Fortify { from, to, armies } => {
                    if !(self.phase is Attack || self.phase is Fortify) {
                        Some(MoveApplyErr::MoveNotInPhase(m, self.phase))
                    } else if !spec_adjacent(from, to) {
                        Some(MoveApplyErr::NonAdjacentTerritories)
                    } else {
                        let fi = from.spec_index();
                        let ti = to.spec_index();
                        if self.spec_owner(fi) != self.current_player {
                            if armies == 0 {
                                Some(MoveApplyErr::ToTerritoryNotOwned)
                            } else {
                                Some(MoveApplyErr::FromTerritoryNotOwned)
                            }
                        } else if self.spec_armies(fi) < armies {
                            Some(MoveApplyErr::TooManyUnitsMoved)
                        } else {
                            let ts1 = with_armies(
                                self.territories@,
                                fi,
                                (self.spec_armies(fi) - armies) as u8,
                            );
                            if self.spec_owner(ti) != self.current_player {
                                Some(MoveApplyErr::ToTerritoryNotOwned)
                            } else if ts1[ti].armies + armies <= 255 {
                                None
                            } else {
                                Some(MoveApplyErr::TooManyUnitsMoved)
                            }
                        }
                    }
                },
                Move::Attack { from, to, attacking } => {
                    if !(self.phase is Attack) {
                        Some(MoveApplyErr::MoveNotInPhase(m, self.phase))
                    } else if attacking == 0 {
                        Some(MoveApplyErr::ZeroUnitsInAttack)
                    } else if !spec_adjacent(from, to) {
                        Some(MoveApplyErr::NonAdjacentTerritories)
                    } else {
                        let fi = from.spec_index();
                        let ti = to.spec_index();
                        if self.spec_owner(ti) == self.current_player {
                            Some(MoveApplyErr::ToTerritoryOwned)
                        } else if self.spec_owner(fi) != self.current_player {
                            Some(MoveApplyErr::FromTerritoryNotOwned)
                        } else if self.spec_armies(fi) < attacking + 1 {
                            Some(MoveApplyErr::TooManyUnitsMoved)
                        } else {
                            None
                        }
                    }
                },
            }
        }
    }

    /// What a successful application returns, move by move.
    pub open spec fn spec_ok_result(self, m: Move, r: Result<ApplyMoveResult, MoveApplyErr>) -> bool {
        match m {
            Move::Pass => single_outcome_ok(
                r,
                self.current_player.spec_next(),
                self.territories@,
                self.spec_end_turn_phase(),
            ),
            Move::Reinforce { territory, armies } => single_outcome_ok(
                r,
                self.current_player,
                with_armies(
                    self.territories@,
                    territory.spec_index(),
                    (self.spec_armies(territory.spec_index()) + armies) as u8,
                ),
                self.spec_reinforce_phase(armies),
            ),
            Move::Fortify { from, to, armies } => single_outcome_ok(
                r,
                self.current_player.spec_next(),
                self.spec_fortify_terr(from, to, armies),
                self.spec_end_turn_phase(),
            ),
            Move::Attack { from, to, attacking } => r matches Ok(amr)
                && self.spec_attack_entries_ok(amr.states_with_count@, from, to, attacking),
        }
    }

    /// Adds `delta` armies (negative to remove) to a territory the current
    /// player must own, failing without any change when the territory is
    /// not owned or the army count would leave `0..=255`.
    fn add_armies(&mut self, territory: Territory, delta: i32) -> (r: Result<(), MoveApplyErr>)
        requires
            old(self).wf(),
            -256 < delta < 256,
        ensures
            final(self).wf(),
            final(self).current_player == old(self).current_player,
            final(self).phase == old(self).phase,
            ({
                let i = territory.spec_index();
                if old(self).spec_owner(i) != old(self).current_player {
                    &&& r == Err::<(), MoveApplyErr>(
                        if delta < 0 {
                            MoveApplyErr::FromTerritoryNotOwned
                        } else {
                            MoveApplyErr::ToTerritoryNotOwned
                        },
                    )
                    &&& final(self).territories@ == old(self).territories@
                } else if 0 <= old(self).spec_armies(i) + delta <= 255 {
                    &&& r == Ok::<(), MoveApplyErr>(())
                    &&& final(self).territories@ == with_armies(
                        old(self).territories@,
                        i,
                        (old(self).spec_armies(i) + delta) as u8,
                    )
                } else {
                    &&& r == Err::<(), MoveApplyErr>(MoveApplyErr::TooManyUnitsMoved)
                    &&& final(self).territories@ == old(self).territories@
                }
            }),
    {
        let i = territory.index();
        if self.territories[i].player != self.current_player {
            return Err(
                if delta < 0 {
                    MoveApplyErr::FromTerritoryNotOwned
                } else {
                    MoveApplyErr::ToTerritoryNotOwned
                },
            );
        }
        if delta == 0 {
            proof {
                assert(self.territories@ =~= with_armies(
                    self.territories@,
                    i as int,
                    self.spec_armies(i as int),
                ));
            }
            return Ok(());
        }
        let cur = self.territories[i].armies as i32;
        let newv = cur + delta;
        if newv < 0 || newv > 255 {
            return Err(MoveApplyErr::TooManyUnitsMoved);
        }
        let owner = self.territories[i].player;
        self.territories.set(i, TerritoryState { player: owner, armies: newv as u8 });
        Ok(())
    }

    /// Applies a move to this state, producing either the complete weighted
    /// outcome set or the first validation failure, exactly as
    /// `spec_apply_err` classifies it. The state itself is never changed.
    pub fn apply_move(&self, move_to_play: &Move) -> (r: Result<ApplyMoveResult, MoveApplyErr>)
        requires
            self.wf(),
        ensures
            self.spec_apply_err(*move_to_play) matches Some(e) ==> r == Result::<
                ApplyMoveResult,
                MoveApplyErr,
            >::Err(e),
            self.spec_apply_err(*move_to_play) is None ==> self.spec_ok_result(*move_to_play, r),
    {
        if self.is_finished() {
            return Err(MoveApplyErr::GameFinished);
        }
        match move_to_play {
            Move::Pass => {
                match self.phase {
                    GamePhase::Reinforce(_) => Err(
                        MoveApplyErr::MoveNotInPhase(Move::Pass, self.phase),
                    ),
                    _ => {
                        let next_player = self.current_player.next();
                        let n = self.number_of_reinforcements(next_player);
                        let mut s2 = self.duplicate();
                        s2.current_player = next_player;
                        s2.phase = GamePhase::Reinforce(n);
                        Ok(ApplyMoveResult::single(s2))
                    },
                }
            },
            Move::Reinforce { territory, armies } => {
                let n = match self.phase {
                    GamePhase::Reinforce(n) => n,
                    _ => {
                        return Err(MoveApplyErr::MoveNotInPhase(*move_to_play, self.phase));
                    },
                };
                if *armies > n {
                    return Err(MoveApplyErr::TooManyReinforcements);
                }
                let remaining = n - *armies;
                let mut s2 = self.duplicate();
                s2.phase = if remaining == 0 {
                    GamePhase::Attack
                } else {
                    GamePhase::Reinforce(remaining)
                };
                match s2.add_armies(*territory, *armies as i32) {
                    Ok(()) => Ok(ApplyMoveResult::single(s2)),
                    Err(e) => Err(e),
                }
            },
            Move::Fortify { from, to, armies } => {
                if !(matches!(self.phase, GamePhase::Attack) || matches!(
                    self.phase,
                    GamePhase::Fortify,
                )) {
                    return Err(MoveApplyErr::MoveNotInPhase(*move_to_play, self.phase));
                }
                if !from.neighboring(*to) {
                    return Err(MoveApplyErr::NonAdjacentTerritories);
                }
                let mut s2 = self.duplicate();
                match s2.add_armies(*from, -(*armies as i32)) {
                    Ok(()) => (),
                    Err(e) => {
                        return Err(e);
                    },
                }
                match s2.add_armies(*to, *armies as i32) {
                    Ok(()) => (),
                    Err(e) => {
                        return Err(e);
                    },
                }
                let next_player = self.current_player.next();
                let n = self.number_of_reinforcements(next_player);
                s2.current_player = next_player;
                s2.phase = GamePhase::Reinforce(n);
                Ok(ApplyMoveResult::single(s2))
            },
            Move::Attack { from, to, attacking } => {
                if !(matches!(self.phase, GamePhase::Attack)) {
                    return Err(MoveApplyErr::MoveNotInPhase(*move_to_play, self.phase));
                }
                if *attacking == 0 {
                    return Err(MoveApplyErr::ZeroUnitsInAttack);
                }
                if !from.neighboring(*to) {
                    return Err(MoveApplyErr::NonAdjacentTerritories);
                }
                let fi = from.index();
                let ti = to.index();
                if self.territories[ti].player == self.current_player {
                    return Err(MoveApplyErr::ToTerritoryOwned);
                }
                if self.territories[fi].player != self.current_player {
                    return Err(MoveApplyErr::FromTerritoryNotOwned);
                }
                if self.territories[fi].armies < 1 || self.territories[fi].armies - 1 < *attacking {
                    return Err(MoveApplyErr::TooManyUnitsMoved);
                }
                Ok(self.resolve_attack(*from, *to, *attacking))
            },
        }
    }

    /// Resolves a validated attack: enumerates every ordered roll pair,
    /// groups them by the defender's losses, and builds one weighted
    /// successor state per group.
    fn resolve_attack(&self, from: Territory, to: Territory, attacking: u8) -> (r: ApplyMoveResult)
        requires
            self.wf(),
            self.phase is Attack,
            attacking >= 1,
            self.spec_owner(to.spec_index()) != self.current_player,
            self.spec_owner(from.spec_index()) == self.current_player,
            self.spec_armies(from.spec_index()) >= attacking + 1,
        ensures
            self.spec_attack_entries_ok(r.states_with_count@, from, to, attacking),
    {
        let fi = from.index();
        let ti = to.index();
        let defender_armies = self.territories[ti].armies;
        let defender_owner = self.territories[ti].player;
        let from_armies = self.territories[fi].armies;
        let a_dice: usize = if attacking < 3 {
            attacking as usize
        } else {
            3
        };
        let d_dice: usize = if defender_armies < 2 {
            defender_armies as usize
        } else {
            2
        };
        let pairs: usize = if a_dice <= d_dice {
            a_dice
        } else {
            d_dice
        };
        let counts = attack_scenario_counts(a_dice, d_dice);
        let ghost total = pow6(a_dice as nat) * pow6(d_dice as nat);
        let mut result = ApplyMoveResult::new();
        let mut dl: usize = 0;
        while dl < pairs + 1
            invariant
                self.wf(),
                self.phase is Attack,
                attacking >= 1,
                self.spec_owner(to.spec_index()) != self.current_player,
                self.spec_owner(from.spec_index()) == self.current_player,
                self.spec_armies(from.spec_index()) >= attacking + 1,
                fi == from.spec_index(),
                ti == to.spec_index(),
                defender_armies == self.spec_armies(ti as int),
                defender_owner == self.spec_owner(ti as int),
                from_armies == self.spec_armies(fi as int),
                a_dice == min_int(attacking as int, 3),
                d_dice == min_int(defender_armies as int, 2),
                pairs == min_int(a_dice as int, d_dice as int),
                counts@.len() == pairs + 1,
                forall|j: int|
                    0 <= j < counts@.len() ==> counts@[j] == scen_count(
                        a_dice as nat,
                        d_dice as nat,
                        j,
                        total as int,
                    ),
                dl <= pairs + 1,
                result.states_with_count@.len() == dl,
                forall|j: int|
                    0 <= j < dl ==> {
                        &&& (#[trigger] result.states_with_count@[j]).count == scen_count(
                            a_dice as nat,
                            d_dice as nat,
                            j,
                            total as int,
                        )
                        &&& result.states_with_count@[j].state.current_player
                            == self.current_player
                        &&& result.states_with_count@[j].state.phase == GamePhase::Attack
                        &&& result.states_with_count@[j].state.territories@
                            == self.spec_attack_outcome_terr(from, to, attacking, j)
                    },
            decreases pairs + 1 - dl,
        {
            let mut s2 = self.duplicate();
            if dl > 0 && dl == defender_armies as usize {
                s2.territories.set(
                    ti,
                    TerritoryState { player: self.current_player, armies: attacking },
                );
                s2.territories.set(
                    fi,
                    TerritoryState {
                        player: self.current_player,
                        armies: from_armies - attacking,
                    },
                );
            } else {
                s2.territories.set(
                    ti,
                    TerritoryState { player: defender_owner, armies: defender_armies - dl as u8 },
                );
                s2.territories.set(
                    fi,
                    TerritoryState {
                        player: self.current_player,
                        armies: from_armies - (pairs - dl) as u8,
                    },
                );
            }
            proof {
                assert(s2.territories@ =~= self.spec_attack_outcome_terr(
                    from,
                    to,
                    attacking,
                    dl as int,
                ));
            }
            let weight = counts[dl];
            result.push(s2, weight);
            dl = dl + 1;
        }
        proof {
            lemma_attack_entries_sum(
                result.states_with_count@,
                a_dice as nat,
                d_dice as nat,
                total as int,
                pairs as int,
            );
            lemma_scen_partition(a_dice as nat, d_dice as nat, total as int);
        }
        result
    }
}

/// When each entry's weight is the count of its defender-loss group, the
/// weights of the entries up to `k` sum to the group sizes' sum.
proof fn lemma_attack_entries_sum(
    entries: Seq<GameStateWithCount>,
    a_dice: nat,
    d_dice: nat,
    n: int,
    k: int,
)
    requires
        0 <= k,
        k < entries.len(),
        forall|j: int|
            0 <= j <= k ==> (#[trigger] entries[j]).count == scen_count(a_dice, d_dice, j, n),
    ensures
        spec_total_count(entries, k + 1) == scen_count_sum(a_dice, d_dice, k, n),
    decreases k,
{
    if k == 0 {
        assert(spec_total_count(entries, 0) == 0);
        assert(scen_count_sum(a_dice, d_dice, -1, n) == 0);
    } else {
        lemma_attack_entries_sum(entries, a_dice, d_dice, n, k - 1);
    }
    assert(spec_total_count(entries, k + 1) == spec_total_count(entries, k) + entries[k].count);
    assert(entries[k].count == scen_count(a_dice, d_dice, k, n));
    assert(scen_count_sum(a_dice, d_dice, k, n) == scen_count_sum(a_dice, d_dice, k - 1, n)
        + scen_count(a_dice, d_dice, k, n));
}

} // verus!

verus! {

impl GameState {
    /// Whether a move is legal in this state, as the legal move generator
    /// defines it. No legal move is ever rejected by `apply_move`.
    pub open spec fn spec_move_legal(self, m: Move) -> bool {
        &&& !self.spec_finished()
        &&& match m {
            Move::Pass => self.phase is Attack || self.phase is Fortify,
            Move::Reinforce { territory, armies } => {
                let ti = territory.spec_index();
                &&& self.phase matches GamePhase::Reinforce(n) && 1 <= armies <= n
                &&& self.spec_owner(ti) == self.current_player
                &&& self.spec_armies(ti) + armies <= 255
            },
            Move::Fortify { from, to, armies } => {
                let fi = from.spec_index();
                let ti = to.spec_index();
                &&& self.phase is Attack || self.phase is Fortify
                &&& self.spec_owner(fi) == self.current_player
                &&& spec_adjacent(from, to)
                &&& self.spec_owner(ti) == self.current_player
                &&& 1 <= armies < self.spec_armies(fi)
                &&& self.spec_armies(ti) + armies <= 255
            },
            Move::Attack { from, to, attacking } => {
                let fi = from.spec_index();
                let ti = to.spec_index();
                &&& self.phase is Attack
                &&& self.spec_owner(fi) == self.current_player
                &&& spec_adjacent(from, to)
                &&& self.spec_owner(ti) != self.current_player
                &&& 1 <= attacking < self.spec_armies(fi)
                &&& attacking <= 3
            },
        }
    }

    /// The exhaustive, order-insensitive set of moves legal in this state:
    /// the result holds a move exactly when `spec_move_legal` accepts it,
    /// and is empty when the game is finished.
    pub fn legal_moves(&self) -> (v: Vec<Move>)
        requires
            self.wf(),
        ensures
            forall|m: Move| #[trigger] v@.contains(m) <==> self.spec_move_legal(m),
    {
        let mut v: Vec<Move> = Vec::new();
        if self.is_finished() {
            return v;
        }
        match self.phase {
            GamePhase::Reinforce(n) => {
                let mut a: u16 = 1;
                while a <= n as u16
                    invariant
                        self.wf(),
                        !self.spec_finished(),
                        self.phase == GamePhase::Reinforce(n),
                        1 <= a <= n as u16 + 1,
                        forall|m: Move|
                            #[trigger] v@.contains(m) <==> (self.spec_move_legal(m)
                                && (m matches Move::Reinforce { territory: t0, armies: a0 } && (
                            a0 as u16) < a)),
                    decreases n as u16 + 1 - a,
                {
                    let armies = a as u8;
                    let mut ti: usize = 0;
                    while ti < 42
                        invariant
                            self.wf(),
                            !self.spec_finished(),
                            self.phase == GamePhase::Reinforce(n),
                            ti <= 42,
                            1 <= a <= n as u16,
                            armies == a as u8,
                            forall|m: Move|
                                #[trigger] v@.contains(m) <==> (self.spec_move_legal(m)
                                    && (m matches Move::Reinforce { territory: t0, armies: a0 }
                                    && ((a0 as u16) < a || (a0 as u16 == a && t0.spec_index()
                                    < ti)))),
                        decreases 42 - ti,
                    {
                        let t = Territory::from_index(ti);
                        if self.territories[ti].player == self.current_player && (
                        self.territories[ti].armies as u16) + (armies as u16) <= 255 {
                            let mv = Move::Reinforce { territory: t, armies };
                            proof {
                                lemma_push_contains(v@, mv);
                                assert(self.spec_move_legal(mv));
                            }
                            v.push(mv);
                        }
                        ti = ti + 1;
                    }
                    a = a + 1;
                }
            },
            _ => {
                let mut ti: usize = 0;
                while ti < 42
                    invariant
                        self.wf(),
                        !self.spec_finished(),
                        self.phase is Attack || self.phase is Fortify,
                        ti <= 42,
                        forall|m: Move|
                            #[trigger] v@.contains(m) <==> (self.spec_move_legal(m) && match m {
                                Move::Fortify { from, to, armies } => from.spec_index() < ti,
                                Move::Attack { from, to, attacking } => from.spec_index() < ti,
                                _ => false,
                            }),
                    decreases 42 - ti,
                {
                    let t = Territory::from_index(ti);
                    let own_armies = self.territories[ti].armies;
                    if self.territories[ti].player == self.current_player && own_armies >= 2 {
                        let nb = t.neighbors();
                        let mut ni: usize = 0;
                        while ni < nb.len()
                            invariant
                                self.wf(),
                                !self.spec_finished(),
                                self.phase is Attack || self.phase is Fortify,
                                ti < 42,
                                t.spec_index() == ti,
                                self.spec_owner(ti as int) == self.current_player,
                                own_armies == self.spec_armies(ti as int),
                                own_armies >= 2,
                                ni <= nb.len(),
                                forall|b: Territory| #[trigger]
                                    nb@.contains(b) <==> spec_adjacent(t, b),
                                forall|m: Move|
                                    #[trigger] v@.contains(m) <==> (self.spec_move_legal(m)
                                        && match m {
                                        Move::Fortify { from, to, armies } => from.spec_index()
                                            < ti || (from == t && (exists|q: int|
                                            0 <= q < ni && nb@[q] == to)),
                                        Move::Attack { from, to, attacking } => from.spec_index()
                                            < ti || (from == t && (exists|q: int|
                                            0 <= q < ni && nb@[q] == to)),
                                        _ => false,
                                    }),
                            decreases nb@.len() - ni,
                        {
                            let neighbor = nb[ni];
                            let neighbor_state = self.territories[neighbor.index()];
                            let mut a: u8 = 1;
                            while a < own_armies
                                invariant
                                    self.wf(),
                                    !self.spec_finished(),
                                    self.phase is Attack || self.phase is Fortify,
                                    ti < 42,
                                    t.spec_index() == ti,
                                    self.spec_owner(ti as int) == self.current_player,
                                    own_armies == self.spec_armies(ti as int),
                                    own_armies >= 2,
                                    ni < nb.len(),
                                    neighbor == nb@[ni as int],
                                    neighbor_state == self.territories@[neighbor.spec_index()],
                                    forall|b: Territory| #[trigger]
                                        nb@.contains(b) <==> spec_adjacent(t, b),
                                    1 <= a <= own_armies,
                                    forall|m: Move|
                                        #[trigger] v@.contains(m) <==> (self.spec_move_legal(m)
                                            && match m {
                                            Move::Fortify { from, to, armies } => from.spec_index()
                                                < ti || (from == t && ((exists|q: int|
                                                0 <= q < ni && nb@[q] == to) || (to == neighbor
                                                && armies < a))),
                                            Move::Attack { from, to, attacking } =>
                                                from.spec_index() < ti || (from == t && ((exists|
                                                q: int|
                                                0 <= q < ni && nb@[q] == to) || (to == neighbor
                                                && attacking < a))),
                                            _ => false,
                                        }),
                                decreases own_armies - a,
                            {
                                proof {
                                    assert(nb@.contains(nb@[ni as int]));
                                    assert(spec_adjacent(t, neighbor));
                                }
                                if neighbor_state.player == self.current_player {
                                    if (neighbor_state.armies as u16) + (a as u16) <= 255 {
                                        let mv = Move::Fortify { from: t, to: neighbor, armies: a };
                                        proof {
                                            lemma_push_contains(v@, mv);
                                            assert(self.spec_move_legal(mv));
                                        }
                                        v.push(mv);
                                    }
                                } else if matches!(self.phase, GamePhase::Attack) && a <= 3 {
                                    let mv = Move::Attack { from: t, to: neighbor, attacking: a };
                                    proof {
                                        lemma_push_contains(v@, mv);
                                        assert(self.spec_move_legal(mv));
                                    }
                                    v.push(mv);
                                }
                                a = a + 1;
                            }
                            proof {
                                assert forall|m: Move| #[trigger] v@.contains(m) <==> (
                                self.spec_move_legal(m) && match m {
                                    Move::Fortify { from, to, armies } => from.spec_index() < ti
                                        || (from == t && (exists|q: int|
                                        0 <= q < ni + 1 && nb@[q] == to)),
                                    Move::Attack { from, to, attacking } => from.spec_index() < ti
                                        || (from == t && (exists|q: int|
                                        0 <= q < ni + 1 && nb@[q] == to)),
                                    _ => false,
                                }) by {
                                    if self.spec_move_legal(m) {
                                        match m {
                                            Move::Fortify { from, to, armies } => {
                                                if from == t && to == neighbor {
                                                    assert(nb@[ni as int] == to);
                                                }
                                            },
                                            Move::Attack { from, to, attacking } => {
                                                if from == t && to == neighbor {
                                                    assert(nb@[ni as int] == to);
                                                }
                                            },
                                            _ => {},
                                        }
                                    }
                                }
                            }
                            ni = ni + 1;
                        }
                        proof {
                            assert forall|m: Move| #[trigger] v@.contains(m) <==> (
                            self.spec_move_legal(m) && match m {
                                Move::Fortify { from, to, armies } => from.spec_index() < ti + 1,
                                Move::Attack { from, to, attacking } => from.spec_index() < ti + 1,
                                _ => false,
                            }) by {
                                if self.spec_move_legal(m) {
                                    match m {
                                        Move::Fortify { from, to, armies } => {
                                            if from.spec_index() == ti {
                                                assert(from == t) by {
                                                    crate::territories::lemma_territory_index_bijective();
                                                }
                                                assert(nb@.contains(to));
                                            }
                                        },
                                        Move::Attack { from, to, attacking } => {
                                            if from.spec_index() == ti {
                                                assert(from == t) by {
                                                    crate::territories::lemma_territory_index_bijective();
                                                }
                                                assert(nb@.contains(to));
                                            }
                                        },
                                        _ => {},
                                    }
                                }
                            }
                        }
                    } else {
                        proof {
                            assert forall|m: Move| self.spec_move_legal(m) && (match m {
                                Move::Fortify { from, to, armies } => from.spec_index() == ti,
                                Move::Attack { from, to, attacking } => from.spec_index() == ti,
                                _ => false,
                            }) implies false by {
                                match m {
                                    Move::Fortify { from, to, armies } => {
                                        assert(self.spec_owner(ti as int) == self.current_player
                                            && self.spec_armies(ti as int) >= 2);
                                    },
                                    Move::Attack { from, to, attacking } => {
                                        assert(self.spec_owner(ti as int) == self.current_player
                                            && self.spec_armies(ti as int) >= 2);
                                    },
                                    _ => {},
                                }
                            }
                        }
                    }
                    ti = ti + 1;
                }
                proof {
                    lemma_push_contains(v@, Move::Pass);
                }
                v.push(Move::Pass);
            },
        }
        v
    }
}

/// Generating legal moves never mutates the state (it only borrows it),
/// and the legal set is a function of the state alone: any two results of
/// the generator on the same state hold exactly the same moves.
pub proof fn lemma_legal_moves_deterministic(s: GameState, v1: Seq<Move>, v2: Seq<Move>)
    requires
        forall|m: Move| #[trigger] v1.contains(m) <==> s.spec_move_legal(m),
        forall|m: Move| #[trigger] v2.contains(m) <==> s.spec_move_legal(m),
    ensures
        forall|m: Move| #[trigger] v1.contains(m) <==> v2.contains(m),
{
}

/// Army conservation under fortify: a legal fortify only moves armies, so
/// the two territories' combined army count is unchanged.
pub proof fn lemma_fortify_conserves_armies(
    s: GameState,
    from: Territory,
    to: Territory,
    armies: u8,
)
    requires
        s.wf(),
        s.spec_move_legal(Move::Fortify { from, to, armies }),
    ensures
        ({
            let ts2 = s.spec_fortify_terr(from, to, armies);
            ts2[from.spec_index()].armies + ts2[to.spec_index()].armies == s.spec_armies(
                from.spec_index(),
            ) + s.spec_armies(to.spec_index())
        }),
{
}

/// Combat weight conservation: the outcome weights of a resolved attack
/// sum to exactly `6^a_dice * 6^d_dice`, the number of equally likely
/// ordered roll pairs.
pub proof fn lemma_attack_weight_conservation(
    s: GameState,
    entries: Seq<GameStateWithCount>,
    from: Territory,
    to: Territory,
    attacking: u8,
)
    requires
        s.spec_attack_entries_ok(entries, from, to, attacking),
    ensures
        spec_total_count(entries, entries.len() as int) == pow6(
            min_int(attacking as int, 3) as nat,
        ) * pow6(min_int(s.spec_armies(to.spec_index()) as int, 2) as nat),
{
}

/// Capture invariant: in the outcome of a legal attack in which the
/// defender's post-loss armies reach zero, the territory's owner becomes
/// the attacker and its army count becomes the committed attacking force;
/// in every other outcome its ownership and the defender's remaining
/// armies follow the losses alone.
pub proof fn lemma_capture_invariant(
    s: GameState,
    from: Territory,
    to: Territory,
    attacking: u8,
    dl: int,
)
    requires
        s.wf(),
        s.spec_move_legal(Move::Attack { from, to, attacking }),
        s.spec_armies(to.spec_index()) >= 1,
        0 <= dl <= min_int(
            min_int(attacking as int, 3),
            min_int(s.spec_armies(to.spec_index()) as int, 2),
        ),
    ensures
        ({
            let ts2 = s.spec_attack_outcome_terr(from, to, attacking, dl);
            let ti = to.spec_index();
            &&& (s.spec_armies(ti) - dl == 0 ==> ts2[ti].player == s.current_player
                && ts2[ti].armies == attacking)
            &&& (s.spec_armies(ti) - dl != 0 ==> ts2[ti].player == s.spec_owner(ti)
                && ts2[ti].armies == s.spec_armies(ti) - dl)
        }),
{
    let fi = from.spec_index();
    let ti = to.spec_index();
    assert(fi != ti);
}

} // verus!

verus! {

/// The owned-territory count reads the territories alone.
proof fn lemma_count_owned_congruent(s1: GameState, s2: GameState, player: Player, n: int)
    requires
        s1.territories@ == s2.territories@,
    ensures
        s1.count_owned_to(player, n) == s2.count_owned_to(player, n),
    decreases n,
{
    if n > 0 {
        lemma_count_owned_congruent(s1, s2, player, n - 1);
    }
}

/// The reinforcement allotment reads the territories alone: two states
/// with the same territories grant the same allotment, whatever their
/// phase or player to move.
pub proof fn lemma_reinforcements_congruent(s1: GameState, s2: GameState, player: Player)
    requires
        s1.territories@ == s2.territories@,
    ensures
        s1.spec_reinforcements(player) == s2.spec_reinforcements(player),
{
    lemma_count_owned_congruent(s1, s2, player, 42);
    assert forall|c: Continent| #[trigger] s1.spec_controls(player, c) <==> s2.spec_controls(
        player,
        c,
    ) by {
        if s1.spec_controls(player, c) {
            assert forall|i: int|
                0 <= i < 42 && (#[trigger] spec_territory_of(i)).spec_continent() == c implies
                s2.spec_owner(i) == player by {
                assert(s1.spec_owner(i) == player);
            }
        }
        if s2.spec_controls(player, c) {
            assert forall|i: int|
                0 <= i < 42 && (#[trigger] spec_territory_of(i)).spec_continent() == c implies
                s1.spec_owner(i) == player by {
                assert(s2.spec_owner(i) == player);
            }
        }
    }
}

} // verus!

verus! {

/// No move the generator offers is ever rejected: a legal move always
/// applies without error.
pub proof fn lemma_legal_moves_accepted(s: GameState, m: Move)
    requires
        s.wf(),
        s.spec_move_legal(m),
    ensures
        s.spec_apply_err(m) is None,
{
    match m {
        Move::Fortify { from, to, armies } => {
            crate::territories::lemma_no_self_adjacency();
            assert(from != to);
            crate::territories::lemma_territory_index_bijective();
            assert(from.spec_index() != to.spec_index());
        },
        _ => {},
    }
}

} // verus!

verus! {

/// Every entry of a resolved attack carries a positive weight: each
/// defender-loss outcome arises from at least one ordered roll pair.
pub proof fn lemma_attack_weights_positive(
    s: GameState,
    entries: Seq<GameStateWithCount>,
    from: Territory,
    to: Territory,
    attacking: u8,
)
    requires
        s.spec_attack_entries_ok(entries, from, to, attacking),
        attacking >= 1,
    ensures
        forall|dl: int| 0 <= dl < entries.len() ==> (#[trigger] entries[dl]).count > 0,
{
    let ti = to.spec_index();
    let a_dice = min_int(attacking as int, 3);
    let d_dice = min_int(s.spec_armies(ti) as int, 2);
    assert forall|dl: int| 0 <= dl < entries.len() implies (#[trigger] entries[dl]).count > 0 by {
        crate::combat::lemma_scenario_weights_positive(a_dice as nat, d_dice as nat, dl);
    }
}

} // verus!
