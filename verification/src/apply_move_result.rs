use vstd::prelude::*;

use crate::game_state::GameState;
use crate::rng::random_below;

verus! {

/// One successor state together with its weight: the number of
/// equally-likely underlying dice outcomes that lead to it.
pub struct GameStateWithCount {
    pub state: GameState,
    pub count: usize,
}

impl GameStateWithCount {
    pub fn state(&self) -> (r: &GameState)
        ensures
            r == &self.state,
    {
        &self.state
    }

    pub fn count(&self) -> (c: usize)
        ensures
            c == self.count,
    {
        self.count
    }
}

/// The sum of the weights of the first `n` entries.
pub open spec fn spec_total_count(entries: Seq<GameStateWithCount>, n: int) -> int
    decreases n,
{
    if n <= 0 {
        0
    } else {
        spec_total_count(entries, n - 1) + entries[n - 1].count
    }
}

pub proof fn lemma_total_count_monotonic(entries: Seq<GameStateWithCount>, i: int, j: int)
    requires
        0 <= i <= j,
    ensures
        spec_total_count(entries, i) <= spec_total_count(entries, j),
        0 <= spec_total_count(entries, i),
    decreases j,
{
    if j > 0 {
        if i <= j - 1 {
            lemma_total_count_monotonic(entries, i, j - 1);
        } else {
            lemma_total_count_monotonic(entries, i - 1, j - 1);
        }
    }
}

/// The full outcome set of one applied move: one or more successor states,
/// each with a positive weight. Weights are relative multiplicities, not
/// normalized probabilities; callers normalize by the total.
pub struct ApplyMoveResult {
    pub states_with_count: Vec<GameStateWithCount>,
}

impl ApplyMoveResult {
    /// The sum of all weights in this outcome set.
    pub open spec fn spec_total(self) -> int {
        spec_total_count(self.states_with_count@, self.states_with_count@.len() as int)
    }

    /// An outcome set holding exactly the given state, with weight 1.
    pub fn single(state: GameState) -> (r: ApplyMoveResult)
        ensures
            r.states_with_count@.len() == 1,
            r.states_with_count@[0].state == state,
            r.states_with_count@[0].count == 1,
    {
        let mut v: Vec<GameStateWithCount> = Vec::new();
        v.push(GameStateWithCount { state, count: 1 });
        ApplyMoveResult { states_with_count: v }
    }

    pub fn new() -> (r: ApplyMoveResult)
        ensures
            r.states_with_count@.len() == 0,
    {
        ApplyMoveResult { states_with_count: Vec::new() }
    }

    /// The sum of all weights.
    pub fn total_count(&self) -> (t: usize)
        requires
            self.spec_total() <= usize::MAX,
        ensures
            t == self.spec_total(),
    {
        let mut t: usize = 0;
        let mut k: usize = 0;
        while k < self.states_with_count.len()
            invariant
                k <= self.states_with_count@.len(),
                t == spec_total_count(self.states_with_count@, k as int),
                self.spec_total() <= usize::MAX,
            decreases self.states_with_count@.len() - k,
        {
            proof {
                lemma_total_count_monotonic(
                    self.states_with_count@,
                    k + 1,
                    self.states_with_count@.len() as int,
                );
            }
            t = t + self.states_with_count[k].count;
            k = k + 1;
        }
        t
    }

    pub fn states_with_count(&self) -> (r: &[GameStateWithCount])
        ensures
            r@ == self.states_with_count@,
    {
        self.states_with_count.as_slice()
    }

    pub fn push(&mut self, state: GameState, count: usize)
        ensures
            final(self).states_with_count@ == old(self).states_with_count@.push(
                GameStateWithCount { state, count },
            ),
    {
        self.states_with_count.push(GameStateWithCount { state, count })
    }

    /// One of the successor states, drawn with probability proportional to
    /// its weight. Whatever the random draw, the returned state is a copy of
    /// some entry whose weight is positive.
    pub fn random_state_by_probability(&self) -> (r: GameState)
        requires
            0 < self.spec_total() <= usize::MAX,
        ensures
            exists|k: int|
                0 <= k < self.states_with_count@.len() && self.states_with_count@[k].count > 0
                    && (#[trigger] self.states_with_count@[k].state).current_player
                    == r.current_player && self.states_with_count@[k].state.phase == r.phase
                    && self.states_with_count@[k].state.territories@ == r.territories@,
    {
        let total = self.total_count();
        let mut rnd: usize = random_below(total);
        let n = self.states_with_count.len();
        let mut k: usize = 0;
        loop
            invariant
                n == self.states_with_count@.len(),
                k <= n,
                rnd + spec_total_count(self.states_with_count@, k as int) < self.spec_total(),
            decreases n - k,
        {
            proof {
                if k == self.states_with_count@.len() {
                    assert(rnd < 0);
                }
                assert(k < n);
            }
            let c = self.states_with_count[k].count;
            if rnd < c {
                let picked = self.states_with_count[k].state.duplicate();
                proof {
                    lemma_total_count_monotonic(self.states_with_count@, 0, k as int);
                }
                return picked;
            }
            rnd = rnd - c;
            k = k + 1;
        }
    }
}

} // verus!
