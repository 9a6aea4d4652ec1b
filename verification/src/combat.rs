use vstd::arithmetic::div_mod::lemma_div_denominator;
use vstd::prelude::*;

use crate::game_state::GameState;
use crate::moves::min_int;

verus! {

/// The losses of one resolved dice comparison: how many armies the
/// attacker and the defender each lose. The two always sum to the number
/// of compared die pairs.
#[derive(Debug, Clone, Copy, PartialEq, Eq, Structural)]
pub struct AttackScenario {
    pub attacker_losses: u8,
    pub defender_losses: u8,
}

/// `6^n`: the number of distinct ordered rolls of `n` six-sided dice.
pub open spec fn pow6(n: nat) -> nat
    decreases n,
{
    if n == 0 {
        1
    } else {
        6 * pow6((n - 1) as nat)
    }
}

/// The ordered dice roll a code in `0..6^dice` stands for: die `k` shows
/// the `k`-th base-6 digit of the code, plus one.
pub open spec fn spec_roll(code: int, dice: nat) -> Seq<u8> {
    Seq::new(dice, |k: int| ((code / pow6(k as nat) as int) % 6 + 1) as u8)
}

/// Two dice values in descending order.
pub open spec fn desc2(a: u8, b: u8) -> Seq<u8> {
    if a >= b {
        seq![a, b]
    } else {
        seq![b, a]
    }
}

/// Three dice values in descending order.
pub open spec fn desc3(a: u8, b: u8, c: u8) -> Seq<u8> {
    if a >= b {
        if b >= c {
            seq![a, b, c]
        } else if a >= c {
            seq![a, c, b]
        } else {
            seq![c, a, b]
        }
    } else {
        if a >= c {
            seq![b, a, c]
        } else if b >= c {
            seq![b, c, a]
        } else {
            seq![c, b, a]
        }
    }
}

/// A roll of at most three dice sorted in descending order.
pub open spec fn spec_sort_desc(s: Seq<u8>) -> Seq<u8> {
    if s.len() <= 1 {
        s
    } else if s.len() == 2 {
        desc2(s[0], s[1])
    } else {
        desc3(s[0], s[1], s[2])
    }
}

/// How many of the first `n` rank-paired die comparisons the defender
/// loses: the attacker's die must be strictly higher; ties favor the
/// defender.
pub open spec fn spec_def_losses(attacker: Seq<u8>, defender: Seq<u8>, n: int) -> int
    decreases n,
{
    if n <= 0 {
        0
    } else {
        spec_def_losses(attacker, defender, n - 1) + if attacker[n - 1] > defender[n - 1] {
            1int
        } else {
            0int
        }
    }
}

pub proof fn lemma_def_losses_range(attacker: Seq<u8>, defender: Seq<u8>, n: int)
    requires
        0 <= n,
    ensures
        0 <= spec_def_losses(attacker, defender, n) <= n,
    decreases n,
{
    if n > 0 {
        lemma_def_losses_range(attacker, defender, n - 1);
    }
}

/// The defender's losses when attacker roll `ac` meets defender roll `dc`:
/// both rolls are sorted descending and compared rank by rank over
/// `min(a_dice, d_dice)` pairs.
pub open spec fn spec_dl(ac: int, dc: int, a_dice: nat, d_dice: nat) -> int {
    spec_def_losses(
        spec_sort_desc(spec_roll(ac, a_dice)),
        spec_sort_desc(spec_roll(dc, d_dice)),
        min_int(a_dice as int, d_dice as int),
    )
}

/// The defender's losses for the flattened roll-pair index `p`, which
/// encodes the attacker roll as `p / 6^d_dice` and the defender roll as
/// `p % 6^d_dice`.
pub open spec fn spec_dl_at(p: int, a_dice: nat, d_dice: nat) -> int {
    spec_dl(p / pow6(d_dice) as int, p % pow6(d_dice) as int, a_dice, d_dice)
}

/// Among the first `n` flattened roll pairs, how many leave the defender
/// with exactly `dl` losses.
pub open spec fn scen_count(a_dice: nat, d_dice: nat, dl: int, n: int) -> int
    decreases n,
{
    if n <= 0 {
        0
    } else {
        scen_count(a_dice, d_dice, dl, n - 1) + if spec_dl_at(n - 1, a_dice, d_dice) == dl {
            1int
        } else {
            0int
        }
    }
}

pub proof fn lemma_scen_count_range(a_dice: nat, d_dice: nat, dl: int, n: int)
    requires
        0 <= n,
    ensures
        0 <= scen_count(a_dice, d_dice, dl, n) <= n,
    decreases n,
{
    if n > 0 {
        lemma_scen_count_range(a_dice, d_dice, dl, n - 1);
    }
}

/// The sum of `scen_count` over the defender-loss values `0..=dl_max`.
pub open spec fn scen_count_sum(a_dice: nat, d_dice: nat, dl_max: int, n: int) -> int
    decreases dl_max + 1,
{
    if dl_max < 0 {
        0
    } else {
        scen_count_sum(a_dice, d_dice, dl_max - 1, n) + scen_count(a_dice, d_dice, dl_max, n)
    }
}

/// Extending the roll-pair range by one raises the sum by exactly one,
/// provided the new pair's losses fall within `0..=dl_max`.
proof fn lemma_scen_count_sum_step(a_dice: nat, d_dice: nat, dl_max: int, n: int)
    requires
        0 < n,
    ensures
        scen_count_sum(a_dice, d_dice, dl_max, n) == scen_count_sum(a_dice, d_dice, dl_max, n - 1)
            + if 0 <= spec_dl_at(n - 1, a_dice, d_dice) <= dl_max {
            1int
        } else {
            0int
        },
    decreases dl_max + 1,
{
    if dl_max >= 0 {
        lemma_scen_count_sum_step(a_dice, d_dice, dl_max - 1, n);
    }
}

/// With no roll pairs there is nothing to count.
proof fn lemma_scen_count_sum_zero(a_dice: nat, d_dice: nat, dl_max: int)
    ensures
        scen_count_sum(a_dice, d_dice, dl_max, 0) == 0,
    decreases dl_max + 1,
{
    if dl_max >= 0 {
        lemma_scen_count_sum_zero(a_dice, d_dice, dl_max - 1);
    }
}

/// Every roll pair leaves the defender with between 0 and
/// `min(a_dice, d_dice)` losses, so grouping the first `n` pairs by their
/// defender losses partitions them: the group sizes sum to `n`.
pub proof fn lemma_scen_partition(a_dice: nat, d_dice: nat, n: int)
    requires
        0 <= n,
    ensures
        scen_count_sum(a_dice, d_dice, min_int(a_dice as int, d_dice as int), n) == n,
    decreases n,
{
    let pairs = min_int(a_dice as int, d_dice as int);
    if n == 0 {
        lemma_scen_count_sum_zero(a_dice, d_dice, pairs);
    } else {
        lemma_scen_partition(a_dice, d_dice, n - 1);
        lemma_scen_count_sum_step(a_dice, d_dice, pairs, n);
        lemma_def_losses_range(
            spec_sort_desc(spec_roll((n - 1) / pow6(d_dice) as int, a_dice)),
            spec_sort_desc(spec_roll((n - 1) % pow6(d_dice) as int, d_dice)),
            pairs,
        );
    }
}

/// `6^n` for at most three dice.
pub(crate) fn pow6_exec(n: usize) -> (r: usize)
    requires
        n <= 3,
    ensures
        r == pow6(n as nat),
        1 <= r <= 216,
{
    proof {
        assert(pow6(0) == 1);
        assert(pow6(1) == 6);
        assert(pow6(2) == 36);
        assert(pow6(3) == 216);
    }
    match n {
        0 => 1,
        1 => 6,
        2 => 36,
        _ => 216,
    }
}

/// The ordered dice roll the given code stands for.
fn decode_roll(code: usize, dice: usize) -> (v: Vec<u8>)
    requires
        dice <= 3,
    ensures
        v@ == spec_roll(code as int, dice as nat),
{
    let mut v: Vec<u8> = Vec::new();
    let mut c: usize = code;
    let mut k: usize = 0;
    proof {
        assert(pow6(0) == 1);
        assert(code as int / 1int == code as int);
    }
    while k < dice
        invariant
            k <= dice,
            v@.len() == k,
            c == code as int / pow6(k as nat) as int,
            forall|j: int| 0 <= j < k ==> v@[j] == spec_roll(code as int, dice as nat)[j],
        decreases dice - k,
    {
        proof {
            assert(pow6(k as nat) >= 1) by {
                lemma_pow6_positive(k as nat);
            }
        }
        v.push((c % 6 + 1) as u8);
        proof {
            assert(v@[k as int] == spec_roll(code as int, dice as nat)[k as int]);
            lemma_div_denominator(code as int, pow6(k as nat) as int, 6);
            assert(pow6((k + 1) as nat) == 6 * pow6(k as nat));
        }
        c = c / 6;
        k = k + 1;
    }
    proof {
        assert(v@ =~= spec_roll(code as int, dice as nat));
    }
    v
}

pub proof fn lemma_pow6_positive(n: nat)
    ensures
        pow6(n) >= 1,
    decreases n,
{
    if n > 0 {
        lemma_pow6_positive((n - 1) as nat);
    }
}

impl GameState {
    /// The given dice values sorted largest first, as `compare_rolls`
    /// expects them.
    pub fn sort_descending(dice: Vec<u8>) -> (r: Vec<u8>)
        requires
            dice@.len() <= 3,
        ensures
            r@ == spec_sort_desc(dice@),
    {
        let n = dice.len();
        if n <= 1 {
            return dice;
        }
        if n == 2 {
            let a = dice[0];
            let b = dice[1];
            if a >= b {
                return dice;
            }
            let mut v: Vec<u8> = Vec::new();
            v.push(b);
            v.push(a);
            assert(v@ =~= desc2(a, b));
            return v;
        }
        let a = dice[0];
        let b = dice[1];
        let c = dice[2];
        let mut v: Vec<u8> = Vec::new();
        if a >= b {
            if b >= c {
                v.push(a);
                v.push(b);
                v.push(c);
            } else if a >= c {
                v.push(a);
                v.push(c);
                v.push(b);
            } else {
                v.push(c);
                v.push(a);
                v.push(b);
            }
        } else {
            if a >= c {
                v.push(b);
                v.push(a);
                v.push(c);
            } else if b >= c {
                v.push(b);
                v.push(c);
                v.push(a);
            } else {
                v.push(c);
                v.push(b);
                v.push(a);
            }
        }
        assert(v@ =~= desc3(a, b, c));
        v
    }

    /// Compares two rolls rank by rank, as they stand: the highest
    /// attacker die against the highest defender die, and so on. The
    /// attacker wins a pair only on a strictly higher die; ties favor the
    /// defender.
    pub fn compare_rolls(attacker_roll: &[u8], defender_roll: &[u8]) -> (r: AttackScenario)
        requires
            min_int(attacker_roll@.len() as int, defender_roll@.len() as int) <= 255,
        ensures
            r.defender_losses == spec_def_losses(
                attacker_roll@,
                defender_roll@,
                min_int(attacker_roll@.len() as int, defender_roll@.len() as int),
            ),
            r.attacker_losses + r.defender_losses == min_int(
                attacker_roll@.len() as int,
                defender_roll@.len() as int,
            ),
    {
        let pairs = if attacker_roll.len() <= defender_roll.len() {
            attacker_roll.len()
        } else {
            defender_roll.len()
        };
        let mut defender_losses: u8 = 0;
        let mut k: usize = 0;
        while k < pairs
            invariant
                k <= pairs,
                pairs == min_int(attacker_roll@.len() as int, defender_roll@.len() as int),
                pairs <= 255,
                defender_losses == spec_def_losses(attacker_roll@, defender_roll@, k as int),
                defender_losses <= k,
            decreases pairs - k,
        {
            proof {
                lemma_def_losses_range(attacker_roll@, defender_roll@, k as int);
            }
            if attacker_roll[k] > defender_roll[k] {
                defender_losses = defender_losses + 1;
            }
            k = k + 1;
        }
        AttackScenario { attacker_losses: (pairs as u8) - defender_losses, defender_losses }
    }
}

/// The weight of every defender-loss outcome of one attack: entry `dl` of
/// the result counts, among all `6^a_dice * 6^d_dice` equally likely
/// ordered roll pairs, those that leave the defender with `dl` losses.
pub(crate) fn attack_scenario_counts(a_dice: usize, d_dice: usize) -> (counts: Vec<usize>)
    requires
        1 <= a_dice <= 3,
        d_dice <= 2,
    ensures
        counts@.len() == min_int(a_dice as int, d_dice as int) + 1,
        forall|dl: int|
            0 <= dl < counts@.len() ==> counts@[dl] == scen_count(
                a_dice as nat,
                d_dice as nat,
                dl,
                pow6(a_dice as nat) * pow6(d_dice as nat) as int,
            ),
{
    let pairs = if a_dice <= d_dice {
        a_dice
    } else {
        d_dice
    };
    let a_total = pow6_exec(a_dice);
    let d_total = pow6_exec(d_dice);
    proof {
        assert(d_total <= 36) by {
            assert(pow6(0) == 1);
            assert(pow6(1) == 6);
            assert(pow6(2) == 36);
        }
        assert(a_total * d_total <= 7776) by (nonlinear_arith)
            requires
                1 <= a_total <= 216,
                1 <= d_total <= 36,
        ;
    }
    let total = a_total * d_total;
    let mut counts: Vec<usize> = Vec::new();
    let mut j: usize = 0;
    while j < pairs + 1
        invariant
            pairs <= 3,
            j <= pairs + 1,
            counts@.len() == j,
            forall|dl: int| 0 <= dl < j ==> counts@[dl] == 0,
        decreases pairs + 1 - j,
    {
        counts.push(0);
        j = j + 1;
    }
    let mut p: usize = 0;
    while p < total
        invariant
            p <= total,
            total == pow6(a_dice as nat) * pow6(d_dice as nat),
            total <= 7776,
            d_total == pow6(d_dice as nat),
            1 <= a_dice <= 3,
            d_dice <= 2,
            pairs == min_int(a_dice as int, d_dice as int),
            counts@.len() == pairs + 1,
            forall|dl: int|
                0 <= dl < counts@.len() ==> counts@[dl] == scen_count(
                    a_dice as nat,
                    d_dice as nat,
                    dl,
                    p as int,
                ),
        decreases total - p,
    {
        let ac = p / d_total;
        let dc = p % d_total;
        let a_roll = decode_roll(ac, a_dice);
        let d_roll = decode_roll(dc, d_dice);
        let a_sorted = GameState::sort_descending(a_roll);
        let d_sorted = GameState::sort_descending(d_roll);
        let scenario = GameState::compare_rolls(a_sorted.as_slice(), d_sorted.as_slice());
        let dl = scenario.defender_losses as usize;
        proof {
            assert(a_sorted@.len() == a_dice && d_sorted@.len() == d_dice);
            assert(scenario.defender_losses as int == spec_dl_at(
                p as int,
                a_dice as nat,
                d_dice as nat,
            ));
            lemma_def_losses_range(a_sorted@, d_sorted@, pairs as int);
            assert(dl <= pairs);
            lemma_scen_count_range(a_dice as nat, d_dice as nat, dl as int, p as int);
        }
        let old_count = counts[dl];
        counts.set(dl, old_count + 1);
        p = p + 1;
    }
    counts
}

} // verus!

verus! {

/// A group counted at least once is non-empty.
proof fn lemma_scen_count_witness(a_dice: nat, d_dice: nat, dl: int, p: int, n: int)
    requires
        0 <= p < n,
        spec_dl_at(p, a_dice, d_dice) == dl,
    ensures
        scen_count(a_dice, d_dice, dl, n) >= 1,
    decreases n,
{
    if p < n - 1 {
        lemma_scen_count_witness(a_dice, d_dice, dl, p, n - 1);
    } else {
        lemma_scen_count_range(a_dice, d_dice, dl, n - 1);
    }
}

/// One roll pair with the given defender losses makes that outcome's
/// weight positive.
proof fn lemma_witness_pair(a_dice: nat, d_dice: nat, ac: int, dc: int, dl: int)
    requires
        0 <= ac < pow6(a_dice),
        0 <= dc < pow6(d_dice),
        spec_dl(ac, dc, a_dice, d_dice) == dl,
    ensures
        scen_count(a_dice, d_dice, dl, pow6(a_dice) * pow6(d_dice) as int) >= 1,
{
    let big_a = pow6(a_dice) as int;
    let big_d = pow6(d_dice) as int;
    let p = ac * big_d + dc;
    lemma_pow6_positive(d_dice);
    vstd::arithmetic::div_mod::lemma_fundamental_div_mod_converse(p, big_d, ac, dc);
    assert(0 <= p < big_a * big_d) by (nonlinear_arith)
        requires
            0 <= dc < big_d,
            0 <= ac <= big_a - 1,
            p == ac * big_d + dc,
    ;
    lemma_scen_count_witness(a_dice, d_dice, dl, p, big_a * big_d);
}

/// Every defender-loss outcome of a battle can actually happen: for each
/// `dl` up to the number of compared die pairs, some ordered roll pair
/// yields exactly `dl` defender losses, so its weight is positive.
pub proof fn lemma_scenario_weights_positive(a_dice: nat, d_dice: nat, dl: int)
    requires
        1 <= a_dice <= 3,
        d_dice <= 2,
        0 <= dl <= min_int(a_dice as int, d_dice as int),
    ensures
        scen_count(a_dice, d_dice, dl, pow6(a_dice) * pow6(d_dice) as int) > 0,
{
    assert(pow6(0) == 1);
    assert(pow6(1) == 6);
    assert(pow6(2) == 36);
    assert(pow6(3) == 216);
    // The code of a roll showing only sixes, and of one showing only ones.
    let all_six_a: int = if a_dice == 1 {
        5
    } else if a_dice == 2 {
        35
    } else {
        215
    };
    let all_six_d: int = if d_dice == 1 {
        5
    } else {
        35
    };
    if d_dice == 0 {
        assert(spec_dl(0, 0, a_dice, 0) == 0);
        lemma_witness_pair(a_dice, d_dice, 0, 0, 0);
    } else if dl == 0 {
        // An attacker showing only ones never beats any defender die.
        if a_dice == 1 {
            assert(spec_roll(0, 1) =~= seq![1u8]);
        } else if a_dice == 2 {
            assert(spec_roll(0, 2)[0] == 1u8 && spec_roll(0, 2)[1] == 1u8);
            assert(spec_roll(0, 2) =~= seq![1u8, 1u8]);
        } else {
            assert(spec_roll(0, 3)[0] == 1u8 && spec_roll(0, 3)[1] == 1u8 && spec_roll(0, 3)[2]
                == 1u8);
            assert(spec_roll(0, 3) =~= seq![1u8, 1u8, 1u8]);
        }
        if d_dice == 1 {
            assert(spec_roll(5, 1) =~= seq![6u8]);
        } else {
            assert(spec_roll(35, 2)[0] == 6u8 && spec_roll(35, 2)[1] == 6u8);
            assert(spec_roll(35, 2) =~= seq![6u8, 6u8]);
        }
        let a_sorted = spec_sort_desc(spec_roll(0, a_dice));
        let d_sorted = spec_sort_desc(spec_roll(all_six_d, d_dice));
        let pairs = min_int(a_dice as int, d_dice as int);
        assert(spec_def_losses(a_sorted, d_sorted, 0) == 0);
        assert(spec_def_losses(a_sorted, d_sorted, 1) == 0);
        assert(spec_def_losses(a_sorted, d_sorted, pairs) == 0);
        lemma_witness_pair(a_dice, d_dice, 0, all_six_d, 0);
    } else if dl == min_int(a_dice as int, d_dice as int) {
        // An attacker showing only sixes beats every defender die showing
        // a one.
        if a_dice == 1 {
            assert(spec_roll(5, 1) =~= seq![6u8]);
        } else if a_dice == 2 {
            assert(spec_roll(35, 2)[0] == 6u8 && spec_roll(35, 2)[1] == 6u8);
            assert(spec_roll(35, 2) =~= seq![6u8, 6u8]);
        } else {
            assert(spec_roll(215, 3)[0] == 6u8 && spec_roll(215, 3)[1] == 6u8 && spec_roll(
                215,
                3,
            )[2] == 6u8);
            assert(spec_roll(215, 3) =~= seq![6u8, 6u8, 6u8]);
        }
        if d_dice == 1 {
            assert(spec_roll(0, 1) =~= seq![1u8]);
        } else {
            assert(spec_roll(0, 2)[0] == 1u8 && spec_roll(0, 2)[1] == 1u8);
            assert(spec_roll(0, 2) =~= seq![1u8, 1u8]);
        }
        let a_sorted = spec_sort_desc(spec_roll(all_six_a, a_dice));
        let d_sorted = spec_sort_desc(spec_roll(0, d_dice));
        let pairs = min_int(a_dice as int, d_dice as int);
        assert(spec_def_losses(a_sorted, d_sorted, 0) == 0);
        assert(spec_def_losses(a_sorted, d_sorted, 1) == 1);
        assert(spec_def_losses(a_sorted, d_sorted, pairs) == pairs);
        lemma_witness_pair(a_dice, d_dice, all_six_a, 0, pairs);
    } else {
        // Two compared pairs, one loss each way: a six and a one against
        // a pair of threes.
        assert(a_dice >= 2 && d_dice == 2 && dl == 1);
        let a_sorted = spec_sort_desc(spec_roll(5, a_dice));
        let d_sorted = spec_sort_desc(spec_roll(14, 2));
        if a_dice == 2 {
            assert(spec_roll(5, 2)[0] == 6u8 && spec_roll(5, 2)[1] == 1u8);
            assert(spec_roll(5, 2) =~= seq![6u8, 1u8]);
            assert(a_sorted =~= seq![6u8, 1u8]);
        } else {
            assert(spec_roll(5, 3)[0] == 6u8 && spec_roll(5, 3)[1] == 1u8 && spec_roll(5, 3)[2]
                == 1u8);
            assert(spec_roll(5, 3) =~= seq![6u8, 1u8, 1u8]);
            assert(a_sorted =~= seq![6u8, 1u8, 1u8]);
        }
        assert(spec_roll(14, 2)[0] == 3u8 && spec_roll(14, 2)[1] == 3u8);
        assert(spec_roll(14, 2) =~= seq![3u8, 3u8]);
        assert(d_sorted =~= seq![3u8, 3u8]);
        assert(spec_def_losses(a_sorted, d_sorted, 0) == 0);
        assert(spec_def_losses(a_sorted, d_sorted, 1) == 1);
        assert(spec_def_losses(a_sorted, d_sorted, 2) == 1);
        lemma_witness_pair(a_dice, 2, 5, 14, 1);
    }
}

} // verus!
