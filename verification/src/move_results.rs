use vstd::prelude::*;

use crate::game_state::GameState;

verus! {

/// One successor state together with its weight.
pub struct GameStateResult {
    pub state: GameState,
    pub count: usize,
}

impl GameStateResult {
    pub fn state(&self) -> (r: &GameState)
        ensures
            r == &self.state,
    {
        &self.state
    }

    pub fn count(&self) -> (c: usize)
        ensures
            c == self.count,
    {
        self.count
    }
}

/// The sum of the weights of the first `n` results.
pub open spec fn spec_all_counts(results: Seq<GameStateResult>, n: int) -> int
    decreases n,
{
    if n <= 0 {
        0
    } else {
        spec_all_counts(results, n - 1) + results[n - 1].count
    }
}

pub proof fn lemma_all_counts_monotonic(results: Seq<GameStateResult>, i: int, j: int)
    requires
        0 <= i <= j,
    ensures
        spec_all_counts(results, i) <= spec_all_counts(results, j),
        0 <= spec_all_counts(results, i),
    decreases j,
{
    if j > 0 {
        if i <= j - 1 {
            lemma_all_counts_monotonic(results, i, j - 1);
        } else {
            lemma_all_counts_monotonic(results, i - 1, j - 1);
        }
    }
}

/// A list of weighted successor states.
pub struct GameStateResults {
    pub result: Vec<GameStateResult>,
}

impl GameStateResults {
    pub open spec fn spec_sum(self) -> int {
        spec_all_counts(self.result@, self.result@.len() as int)
    }

    /// A result set holding exactly the given state, with weight 1.
    pub fn single(state: GameState) -> (r: GameStateResults)
        ensures
            r.result@.len() == 1,
            r.result@[0].state == state,
            r.result@[0].count == 1,
    {
        let mut v: Vec<GameStateResult> = Vec::new();
        v.push(GameStateResult { state, count: 1 });
        GameStateResults { result: v }
    }

    pub fn new() -> (r: GameStateResults)
        ensures
            r.result@.len() == 0,
    {
        GameStateResults { result: Vec::new() }
    }

    /// The sum of all weights.
    pub fn all_counts(&self) -> (t: usize)
        requires
            self.spec_sum() <= usize::MAX,
        ensures
            t == self.spec_sum(),
    {
        let mut t: usize = 0;
        let mut k: usize = 0;
        while k < self.result.len()
            invariant
                k <= self.result@.len(),
                t == spec_all_counts(self.result@, k as int),
                self.spec_sum() <= usize::MAX,
            decreases self.result@.len() - k,
        {
            proof {
                lemma_all_counts_monotonic(self.result@, k + 1, self.result@.len() as int);
            }
            t = t + self.result[k].count;
            k = k + 1;
        }
        t
    }

    pub fn results(&self) -> (r: &[GameStateResult])
        ensures
            r@ == self.result@,
    {
        self.result.as_slice()
    }

    pub fn push(&mut self, state: GameState, count: usize)
        ensures
            final(self).result@ == old(self).result@.push(GameStateResult { state, count }),
    {
        self.result.push(GameStateResult { state, count })
    }
}

} // verus!
