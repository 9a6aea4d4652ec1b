use vstd::prelude::*;

use crate::game_state::{GamePhase, GameState, TerritoryState};
use crate::player::Player;
use crate::rng::random_below;

verus! {

/// A territory during setup: not yet claimed, or claimed by a player with
/// some armies already placed.
#[derive(Debug, Clone, Copy)]
pub struct TerritoryStateDuringInitialPlacement {
    pub player: Option<Player>,
    pub armies: u8,
}

/// The transient setup-phase state: it exists only until `start` converts
/// it into the first proper `GameState`.
pub struct GameStateDuringInitialPlacement {
    pub current_player: Player,
    pub territories: Vec<TerritoryStateDuringInitialPlacement>,
}

/// How many of the first `n` territories `player` has claimed.
pub open spec fn claimed_to(
    ts: Seq<TerritoryStateDuringInitialPlacement>,
    player: Player,
    n: int,
) -> int
    decreases n,
{
    if n <= 0 {
        0
    } else {
        claimed_to(ts, player, n - 1) + if ts[n - 1].player == Some(player) {
            1int
        } else {
            0int
        }
    }
}

/// How many of the first `n` territories are still unclaimed.
pub open spec fn unclaimed_to(ts: Seq<TerritoryStateDuringInitialPlacement>, n: int) -> int
    decreases n,
{
    if n <= 0 {
        0
    } else {
        unclaimed_to(ts, n - 1) + if ts[n - 1].player is None {
            1int
        } else {
            0int
        }
    }
}

/// The armies `player` has placed on the first `n` territories.
pub open spec fn army_to(
    ts: Seq<TerritoryStateDuringInitialPlacement>,
    player: Player,
    n: int,
) -> int
    decreases n,
{
    if n <= 0 {
        0
    } else {
        army_to(ts, player, n - 1) + if ts[n - 1].player == Some(player) {
            ts[n - 1].armies as int
        } else {
            0int
        }
    }
}

/// During setup, an unclaimed territory holds no armies and a claimed one
/// holds at least one.
pub open spec fn placement_tidy(ts: Seq<TerritoryStateDuringInitialPlacement>) -> bool {
    forall|i: int|
        0 <= i < ts.len() ==> ((#[trigger] ts[i]).player is None ==> ts[i].armies == 0) && (
        ts[i].player is Some ==> ts[i].armies >= 1)
}

/// The setup counts only read the first `n` entries.
proof fn lemma_counts_depend_on_prefix(
    ts1: Seq<TerritoryStateDuringInitialPlacement>,
    ts2: Seq<TerritoryStateDuringInitialPlacement>,
    player: Player,
    n: int,
)
    requires
        forall|i: int| 0 <= i < n ==> ts1[i] == ts2[i],
    ensures
        claimed_to(ts1, player, n) == claimed_to(ts2, player, n),
        unclaimed_to(ts1, n) == unclaimed_to(ts2, n),
        army_to(ts1, player, n) == army_to(ts2, player, n),
    decreases n,
{
    if n > 0 {
        lemma_counts_depend_on_prefix(ts1, ts2, player, n - 1);
    }
}

/// How one updated entry shifts each of the setup counts.
proof fn lemma_update_counts(
    ts: Seq<TerritoryStateDuringInitialPlacement>,
    j: int,
    x: TerritoryStateDuringInitialPlacement,
    player: Player,
    n: int,
)
    requires
        0 <= j < n <= ts.len(),
    ensures
        claimed_to(ts.update(j, x), player, n) == claimed_to(ts, player, n) + (if x.player == Some(
            player,
        ) {
            1int
        } else {
            0int
        }) - (if ts[j].player == Some(player) {
            1int
        } else {
            0int
        }),
        unclaimed_to(ts.update(j, x), n) == unclaimed_to(ts, n) + (if x.player is None {
            1int
        } else {
            0int
        }) - (if ts[j].player is None {
            1int
        } else {
            0int
        }),
        army_to(ts.update(j, x), player, n) == army_to(ts, player, n) + (if x.player == Some(
            player,
        ) {
            x.armies as int
        } else {
            0int
        }) - (if ts[j].player == Some(player) {
            ts[j].armies as int
        } else {
            0int
        }),
    decreases n,
{
    if j == n - 1 {
        lemma_counts_depend_on_prefix(ts.update(j, x), ts, player, n - 1);
    } else {
        lemma_update_counts(ts, j, x, player, n - 1);
    }
}

/// Each count moves by at most one per entry.
proof fn lemma_unclaimed_bounds(ts: Seq<TerritoryStateDuringInitialPlacement>, i: int, j: int)
    requires
        0 <= i <= j,
    ensures
        unclaimed_to(ts, i) <= unclaimed_to(ts, j) <= unclaimed_to(ts, i) + (j - i),
    decreases j,
{
    if i < j {
        lemma_unclaimed_bounds(ts, i, j - 1);
    }
}

proof fn lemma_claimed_bounds(
    ts: Seq<TerritoryStateDuringInitialPlacement>,
    player: Player,
    i: int,
    j: int,
)
    requires
        0 <= i <= j,
    ensures
        claimed_to(ts, player, i) <= claimed_to(ts, player, j) <= claimed_to(ts, player, i) + (j
            - i),
    decreases j,
{
    if i < j {
        lemma_claimed_bounds(ts, player, i, j - 1);
    }
}

/// A territory claimed by `player` never holds more armies than the
/// player's total.
proof fn lemma_entry_le_army(
    ts: Seq<TerritoryStateDuringInitialPlacement>,
    player: Player,
    i: int,
    n: int,
)
    requires
        0 <= i < n,
        ts[i].player == Some(player),
    ensures
        ts[i].armies as int <= army_to(ts, player, n),
        army_to(ts, player, n) >= 0,
    decreases n,
{
    lemma_army_nonneg(ts, player, n - 1);
    if i < n - 1 {
        lemma_entry_le_army(ts, player, i, n - 1);
    }
}

proof fn lemma_army_nonneg(ts: Seq<TerritoryStateDuringInitialPlacement>, player: Player, n: int)
    ensures
        army_to(ts, player, n) >= 0,
    decreases n,
{
    if n > 0 {
        lemma_army_nonneg(ts, player, n - 1);
    }
}

impl GameStateDuringInitialPlacement {
    /// A setup state always holds exactly one entry per territory.
    pub open spec fn wf(self) -> bool {
        self.territories@.len() == 42
    }

    /// A fresh board: every territory unclaimed and empty.
    pub open spec fn fresh(self) -> bool {
        forall|i: int|
            0 <= i < 42 ==> (#[trigger] self.territories@[i]).player is None
                && self.territories@[i].armies == 0
    }

    /// An empty board, with the fixed starting player to move.
    pub fn new() -> (r: GameStateDuringInitialPlacement)
        ensures
            r.wf(),
            r.fresh(),
            r.current_player == Player::A,
    {
        let mut v: Vec<TerritoryStateDuringInitialPlacement> = Vec::new();
        let mut i: usize = 0;
        while i < 42
            invariant
                i <= 42,
                v@.len() == i,
                forall|j: int|
                    0 <= j < i ==> (#[trigger] v@[j]).player is None && v@[j].armies == 0,
            decreases 42 - i,
        {
            v.push(TerritoryStateDuringInitialPlacement { player: None, armies: 0 });
            i = i + 1;
        }
        GameStateDuringInitialPlacement { current_player: Player::A, territories: v }
    }

    /// A structural copy of this setup state.
    pub fn duplicate(&self) -> (r: GameStateDuringInitialPlacement)
        ensures
            r.current_player == self.current_player,
            r.territories@ == self.territories@,
    {
        let mut v: Vec<TerritoryStateDuringInitialPlacement> = Vec::new();
        let mut i: usize = 0;
        while i < self.territories.len()
            invariant
                i <= self.territories@.len(),
                v@ == self.territories@.subrange(0, i as int),
            decreases self.territories@.len() - i,
        {
            v.push(self.territories[i]);
            assert(v@ =~= self.territories@.subrange(0, i + 1));
            i = i + 1;
        }
        assert(v@ =~= self.territories@);
        GameStateDuringInitialPlacement { current_player: self.current_player, territories: v }
    }

    /// Claims the `n`-th still-unclaimed territory (in index order) for
    /// `player`, placing one army on it. This is the deterministic step of
    /// the random placement; callers that need reproducible setups drive it
    /// directly with indices of their own choosing.
    pub fn claim_nth_unclaimed(&mut self, player: Player, n: usize)
        requires
            old(self).wf(),
            n < unclaimed_to(old(self).territories@, 42),
        ensures
            final(self).current_player == old(self).current_player,
            exists|j: int|
                0 <= j < 42 && (#[trigger] old(self).territories@[j]).player is None
                    && final(self).territories@ == old(self).territories@.update(
                    j,
                    TerritoryStateDuringInitialPlacement { player: Some(player), armies: 1 },
                ),
    {
        let mut seen: usize = 0;
        let mut k: usize = 0;
        loop
            invariant
                self == old(self),
                self.wf(),
                n < unclaimed_to(self.territories@, 42),
                k <= 42,
                seen == unclaimed_to(self.territories@, k as int),
                seen <= n,
            decreases 42 - k,
        {
            proof {
                lemma_unclaimed_bounds(self.territories@, k as int, 42);
                assert(k < 42);
            }
            if self.territories[k].player.is_none() {
                if seen == n {
                    let ghost j = k as int;
                    self.territories.set(
                        k,
                        TerritoryStateDuringInitialPlacement { player: Some(player), armies: 1 },
                    );
                    proof {
                        assert(0 <= j < 42 && old(self).territories@[j].player is None
                            && self.territories@ == old(self).territories@.update(
                            j,
                            TerritoryStateDuringInitialPlacement {
                                player: Some(player),
                                armies: 1,
                            },
                        ));
                    }
                    return ;
                }
                seen = seen + 1;
            }
            k = k + 1;
        }
    }

    /// Places one more army on the `n`-th territory (in index order) that
    /// `player` has already claimed. The deterministic step of the random
    /// army distribution.
    pub fn add_army_nth_owned(&mut self, player: Player, n: usize)
        requires
            old(self).wf(),
            n < claimed_to(old(self).territories@, player, 42),
            army_to(old(self).territories@, player, 42) <= 254,
        ensures
            final(self).current_player == old(self).current_player,
            exists|j: int|
                0 <= j < 42 && (#[trigger] old(self).territories@[j]).player == Some(player)
                    && final(self).territories@ == old(self).territories@.update(
                    j,
                    TerritoryStateDuringInitialPlacement {
                        player: Some(player),
                        armies: (old(self).territories@[j].armies + 1) as u8,
                    },
                ),
    {
        let mut seen: usize = 0;
        let mut k: usize = 0;
        loop
            invariant
                self == old(self),
                self.wf(),
                n < claimed_to(self.territories@, player, 42),
                army_to(self.territories@, player, 42) <= 254,
                k <= 42,
                seen == claimed_to(self.territories@, player, k as int),
                seen <= n,
            decreases 42 - k,
        {
            proof {
                lemma_claimed_bounds(self.territories@, player, k as int, 42);
                assert(k < 42);
            }
            let here = self.territories[k];
            let owned_here = match here.player {
                Some(p) => p == player,
                None => false,
            };
            if owned_here {
                if seen == n {
                    let ghost j = k as int;
                    proof {
                        lemma_entry_le_army(self.territories@, player, j, 42);
                    }
                    self.territories.set(
                        k,
                        TerritoryStateDuringInitialPlacement {
                            player: Some(player),
                            armies: here.armies + 1,
                        },
                    );
                    proof {
                        assert(0 <= j < 42 && old(self).territories@[j].player == Some(player)
                            && self.territories@ == old(self).territories@.update(
                            j,
                            TerritoryStateDuringInitialPlacement {
                                player: Some(player),
                                armies: (old(self).territories@[j].armies + 1) as u8,
                            },
                        ));
                    }
                    return ;
                }
                seen = seen + 1;
            }
            k = k + 1;
        }
    }

    fn count_unclaimed(&self) -> (c: usize)
        requires
            self.wf(),
        ensures
            c == unclaimed_to(self.territories@, 42),
    {
        let mut c: usize = 0;
        let mut k: usize = 0;
        while k < 42
            invariant
                self.wf(),
                k <= 42,
                c == unclaimed_to(self.territories@, k as int),
                c <= k,
            decreases 42 - k,
        {
            if self.territories[k].player.is_none() {
                c = c + 1;
            }
            k = k + 1;
        }
        c
    }

    fn count_claimed(&self, player: Player) -> (c: usize)
        requires
            self.wf(),
        ensures
            c == claimed_to(self.territories@, player, 42),
    {
        let mut c: usize = 0;
        let mut k: usize = 0;
        while k < 42
            invariant
                self.wf(),
                k <= 42,
                c == claimed_to(self.territories@, player, k as int),
                c <= k,
            decreases 42 - k,
        {
            let owned_here = match self.territories[k].player {
                Some(p) => p == player,
                None => false,
            };
            if owned_here {
                c = c + 1;
            }
            k = k + 1;
        }
        c
    }

    /// The randomized setup: claims uniformly random unclaimed territories
    /// for the two players in alternation until all 42 are claimed, then
    /// gives each player uniformly random extra armies on their own
    /// territories until each player's total reaches 40.
    pub fn place_random(&self) -> (r: GameStateDuringInitialPlacement)
        requires
            self.wf(),
            self.fresh(),
        ensures
            r.wf(),
            r.current_player == self.current_player,
            placement_tidy(r.territories@),
            forall|i: int| 0 <= i < 42 ==> (#[trigger] r.territories@[i]).player is Some,
            claimed_to(r.territories@, Player::A, 42) == 21,
            claimed_to(r.territories@, Player::B, 42) == 21,
            army_to(r.territories@, Player::A, 42) == 40,
            army_to(r.territories@, Player::B, 42) == 40,
    {
        let mut work = self.duplicate();
        let mut active = self.current_player;
        proof {
            lemma_fresh_counts(self.territories@, 42);
        }
        let mut u = work.count_unclaimed();
        while u > 0
            invariant
                work.wf(),
                work.current_player == self.current_player,
                placement_tidy(work.territories@),
                u == unclaimed_to(work.territories@, 42),
                claimed_to(work.territories@, Player::A, 42) + claimed_to(
                    work.territories@,
                    Player::B,
                    42,
                ) + u == 42,
                active == self.current_player ==> claimed_to(
                    work.territories@,
                    self.current_player,
                    42,
                ) == claimed_to(work.territories@, self.current_player.spec_next(), 42),
                active == self.current_player.spec_next() ==> claimed_to(
                    work.territories@,
                    self.current_player,
                    42,
                ) == claimed_to(work.territories@, self.current_player.spec_next(), 42) + 1,
                active == self.current_player || active == self.current_player.spec_next(),
                army_to(work.territories@, Player::A, 42) == claimed_to(
                    work.territories@,
                    Player::A,
                    42,
                ),
                army_to(work.territories@, Player::B, 42) == claimed_to(
                    work.territories@,
                    Player::B,
                    42,
                ),
            decreases u,
        {
            let n = random_below(u);
            let ghost ts0 = work.territories@;
            work.claim_nth_unclaimed(active, n);
            proof {
                let j = choose|j: int|
                    0 <= j < 42 && (#[trigger] ts0[j]).player is None && work.territories@
                        == ts0.update(
                        j,
                        TerritoryStateDuringInitialPlacement { player: Some(active), armies: 1 },
                    );
                lemma_update_counts(
                    ts0,
                    j,
                    TerritoryStateDuringInitialPlacement { player: Some(active), armies: 1 },
                    Player::A,
                    42,
                );
                lemma_update_counts(
                    ts0,
                    j,
                    TerritoryStateDuringInitialPlacement { player: Some(active), armies: 1 },
                    Player::B,
                    42,
                );
            }
            active = active.next();
            u = u - 1;
        }
        proof {
            assert(active == self.current_player);
            assert(claimed_to(work.territories@, Player::A, 42) == 21);
            assert(claimed_to(work.territories@, Player::B, 42) == 21);
        }
        work.top_up(Player::A);
        work.top_up(Player::B);
        proof {
            assert forall|i: int| 0 <= i < 42 implies (#[trigger] work.territories@[i]).player
                is Some by {
                if work.territories@[i].player is None {
                    lemma_unclaimed_entry(work.territories@, i, 42);
                }
            }
        }
        work
    }

    /// Adds uniformly random armies to the player's territories until the
    /// player's total reaches 40.
    fn top_up(&mut self, player: Player)
        requires
            old(self).wf(),
            placement_tidy(old(self).territories@),
            1 <= claimed_to(old(self).territories@, player, 42),
            army_to(old(self).territories@, player, 42) <= 40,
        ensures
            final(self).wf(),
            final(self).current_player == old(self).current_player,
            placement_tidy(final(self).territories@),
            army_to(final(self).territories@, player, 42) == 40,
            claimed_to(final(self).territories@, Player::A, 42) == claimed_to(
                old(self).territories@,
                Player::A,
                42,
            ),
            claimed_to(final(self).territories@, Player::B, 42) == claimed_to(
                old(self).territories@,
                Player::B,
                42,
            ),
            army_to(final(self).territories@, player.spec_next(), 42) == army_to(
                old(self).territories@,
                player.spec_next(),
                42,
            ),
            unclaimed_to(final(self).territories@, 42) == unclaimed_to(old(self).territories@, 42),
    {
        let mut current = self.count_armies(player);
        while current < 40
            invariant
                self.wf(),
                self.current_player == old(self).current_player,
                placement_tidy(self.territories@),
                1 <= claimed_to(self.territories@, player, 42),
                current == army_to(self.territories@, player, 42),
                current <= 40,
                claimed_to(self.territories@, Player::A, 42) == claimed_to(
                    old(self).territories@,
                    Player::A,
                    42,
                ),
                claimed_to(self.territories@, Player::B, 42) == claimed_to(
                    old(self).territories@,
                    Player::B,
                    42,
                ),
                army_to(self.territories@, player.spec_next(), 42) == army_to(
                    old(self).territories@,
                    player.spec_next(),
                    42,
                ),
                unclaimed_to(self.territories@, 42) == unclaimed_to(old(self).territories@, 42),
            decreases 40 - current,
        {
            let owned = self.count_claimed(player);
            let n = random_below(owned);
            let ghost ts0 = self.territories@;
            self.add_army_nth_owned(player, n);
            proof {
                let j = choose|j: int|
                    0 <= j < 42 && (#[trigger] ts0[j]).player == Some(player) && self.territories@
                        == ts0.update(
                        j,
                        TerritoryStateDuringInitialPlacement {
                            player: Some(player),
                            armies: (ts0[j].armies + 1) as u8,
                        },
                    );
                let x = TerritoryStateDuringInitialPlacement {
                    player: Some(player),
                    armies: (ts0[j].armies + 1) as u8,
                };
                lemma_entry_le_army(ts0, player, j, 42);
                lemma_update_counts(ts0, j, x, Player::A, 42);
                lemma_update_counts(ts0, j, x, Player::B, 42);
            }
            current = current + 1;
        }
    }

    fn count_armies(&self, player: Player) -> (c: usize)
        requires
            self.wf(),
            army_to(self.territories@, player, 42) <= 40,
        ensures
            c == army_to(self.territories@, player, 42),
    {
        let mut c: usize = 0;
        let mut k: usize = 0;
        while k < 42
            invariant
                self.wf(),
                army_to(self.territories@, player, 42) <= 40,
                k <= 42,
                c == army_to(self.territories@, player, k as int),
                c <= 40,
            decreases 42 - k,
        {
            proof {
                lemma_army_prefix_le(self.territories@, player, k + 1, 42);
                lemma_army_nonneg(self.territories@, player, k as int);
            }
            let owned_here = match self.territories[k].player {
                Some(p) => p == player,
                None => false,
            };
            if owned_here {
                c = c + self.territories[k].armies as usize;
            }
            k = k + 1;
        }
        c
    }

    /// Converts a fully claimed setup into the first game state: the fixed
    /// starting player moves first, in the reinforcement phase, with their
    /// allotment computed from their holdings.
    pub fn start(&self) -> (r: GameState)
        requires
            self.wf(),
            forall|i: int| 0 <= i < 42 ==> (#[trigger] self.territories@[i]).player is Some,
        ensures
            r.wf(),
            r.current_player == Player::A,
            forall|i: int|
                0 <= i < 42 ==> Some((#[trigger] r.territories@[i]).player)
                    == self.territories@[i].player && r.territories@[i].armies
                    == self.territories@[i].armies,
            r.phase == GamePhase::Reinforce(r.spec_reinforcements(Player::A) as u8),
    {
        let mut v: Vec<TerritoryState> = Vec::new();
        let mut i: usize = 0;
        while i < 42
            invariant
                self.wf(),
                forall|k: int| 0 <= k < 42 ==> (#[trigger] self.territories@[k]).player is Some,
                i <= 42,
                v@.len() == i,
                forall|k: int|
                    0 <= k < i ==> Some((#[trigger] v@[k]).player) == self.territories@[k].player
                        && v@[k].armies == self.territories@[k].armies,
            decreases 42 - i,
        {
            let entry = self.territories[i];
            let owner = match entry.player {
                Some(p) => p,
                None => {
                    proof {
                        assert(false);
                    }
                    Player::A
                },
            };
            v.push(TerritoryState { player: owner, armies: entry.armies });
            i = i + 1;
        }
        let state = GameState::new(Player::A, v, GamePhase::Attack);
        let n = state.number_of_reinforcements(Player::A);
        let result = GameState::new(Player::A, state.territories, GamePhase::Reinforce(n));
        proof {
            crate::moves::lemma_reinforcements_congruent(result, state, Player::A);
        }
        result
    }
}

/// On a fresh board every prefix is wholly unclaimed.
proof fn lemma_fresh_counts(ts: Seq<TerritoryStateDuringInitialPlacement>, n: int)
    requires
        n <= ts.len(),
        forall|i: int| 0 <= i < ts.len() ==> (#[trigger] ts[i]).player is None,
    ensures
        unclaimed_to(ts, n) == if n >= 0 {
            n
        } else {
            0
        },
        claimed_to(ts, Player::A, n) == 0,
        claimed_to(ts, Player::B, n) == 0,
        army_to(ts, Player::A, n) == 0,
        army_to(ts, Player::B, n) == 0,
    decreases n,
{
    if n > 0 {
        lemma_fresh_counts(ts, n - 1);
    }
}

/// An unclaimed entry makes the unclaimed count positive.
proof fn lemma_unclaimed_entry(ts: Seq<TerritoryStateDuringInitialPlacement>, i: int, n: int)
    requires
        0 <= i < n,
        ts[i].player is None,
    ensures
        unclaimed_to(ts, n) >= 1,
    decreases n,
{
    lemma_unclaimed_bounds(ts, 0, n - 1);
    if i < n - 1 {
        lemma_unclaimed_entry(ts, i, n - 1);
        lemma_unclaimed_bounds(ts, n - 1, n);
    }
}

/// Army totals only grow with the prefix length.
proof fn lemma_army_prefix_le(
    ts: Seq<TerritoryStateDuringInitialPlacement>,
    player: Player,
    i: int,
    j: int,
)
    requires
        0 <= i <= j,
    ensures
        army_to(ts, player, i) <= army_to(ts, player, j),
    decreases j,
{
    if i < j {
        lemma_army_prefix_le(ts, player, i, j - 1);
    }
}

} // verus!
