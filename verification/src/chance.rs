use vstd::prelude::*;

use crate::types::{Pool, PoolState};

verus! {

/// Which rule sets the chance that the next pull is a jackpot, with the
/// exact integers that the rule reads.
///
/// As a probability: `Zero` is 0 and `Certain` is 1; `Base` is
/// `jackpots / items`; `SoftPity` weighs each remaining jackpot by the pool's
/// multiplier raised to `exponent`, so that with `w = multiplier^exponent` it
/// is `jackpots * w / ((items - jackpots) + jackpots * w)`.
#[derive(Debug, Clone, Copy, PartialEq, Eq, Structural)]
pub enum Chance {
    Zero,
    Certain,
    Base { jackpots: u32, items: u32 },
    SoftPity { jackpots: u32, items: u32, exponent: u32 },
}

impl Pool {
    /// The rule for the next pull from `state`: no chance when the pool or
    /// its jackpots are exhausted; certainty when the next pull reaches hard
    /// pity or only jackpots are left; the plain share of jackpots up to soft
    /// pity; the weighted share beyond it.
    pub open spec fn chance_of(self, state: PoolState) -> Chance {
        if state.remaining_items == 0 || state.remaining_jackpots == 0 {
            Chance::Zero
        } else {
            let pull = state.misses_since_jackpot + 1;
            if pull >= self.hard_pity || state.remaining_items == state.remaining_jackpots {
                Chance::Certain
            } else if pull <= self.soft_pity {
                Chance::Base { jackpots: state.remaining_jackpots, items: state.remaining_items }
            } else {
                Chance::SoftPity {
                    jackpots: state.remaining_jackpots,
                    items: state.remaining_items,
                    exponent: (pull - self.soft_pity) as u32,
                }
            }
        }
    }

    /// The chances of the pulls from `state` while every pull misses, for at
    /// most `pulls` pulls: it ends after a certain jackpot, or once a miss
    /// can no longer be recorded.
    pub open spec fn miss_chances_from(self, state: PoolState, pulls: nat) -> Seq<Chance>
        decreases pulls,
    {
        if pulls == 0 {
            seq![]
        } else {
            let chance = self.chance_of(state);
            if chance is Certain {
                seq![chance]
            } else {
                match state.miss_step() {
                    Some(next) => seq![chance] + self.miss_chances_from(next, (pulls - 1) as nat),
                    None => seq![chance],
                }
            }
        }
    }

    /// The chance that the next pull from `state` is a jackpot, as the rule
    /// that sets it.
    pub fn pull_chance(&self, state: &PoolState) -> (chance: Chance)
        requires
            state.remaining_items > 0 && state.remaining_jackpots > 0
                ==> state.misses_since_jackpot < u32::MAX,
        ensures
            chance == self.chance_of(*state),
            state.remaining_items == 0 || state.remaining_jackpots == 0 ==> chance == Chance::Zero,
            state.remaining_items > 0 && state.remaining_jackpots > 0 && (
            state.misses_since_jackpot + 1 >= self.hard_pity || state.remaining_items
                == state.remaining_jackpots) ==> chance == Chance::Certain,
            state.remaining_items > 0 && state.remaining_jackpots > 0 && state.misses_since_jackpot
                + 1 < self.hard_pity && state.remaining_items != state.remaining_jackpots
                && state.misses_since_jackpot + 1 <= self.soft_pity ==> chance == (Chance::Base {
                jackpots: state.remaining_jackpots,
                items: state.remaining_items,
            }),
            state.remaining_items > 0 && state.remaining_jackpots > 0 && state.misses_since_jackpot
                + 1 < self.hard_pity && state.remaining_items != state.remaining_jackpots
                && state.misses_since_jackpot + 1 > self.soft_pity ==> (chance matches Chance::SoftPity {
                jackpots,
                items,
                exponent,
            } && jackpots == state.remaining_jackpots && items == state.remaining_items && exponent
                == state.misses_since_jackpot + 1 - self.soft_pity),
            state.is_consistent() ==> (chance matches Chance::Base { jackpots, items } ==> 0
                < jackpots < items),
            state.is_consistent() ==> (chance matches Chance::SoftPity { jackpots, items, .. }
                ==> 0 < jackpots < items),
    {
        if state.remaining_items == 0 || state.remaining_jackpots == 0 {
            return Chance::Zero;
        }
        let pull = state.misses_since_jackpot + 1;
        if pull >= self.hard_pity || state.remaining_items == state.remaining_jackpots {
            Chance::Certain
        } else if pull <= self.soft_pity {
            Chance::Base { jackpots: state.remaining_jackpots, items: state.remaining_items }
        } else {
            Chance::SoftPity {
                jackpots: state.remaining_jackpots,
                items: state.remaining_items,
                exponent: pull - self.soft_pity,
            }
        }
    }

    /// The chances of up to `pulls` pulls from `state` that all miss, as
    /// `miss_chances_from` states them: the chance of each pull, then a
    /// recorded miss, ending after a certain jackpot or when no miss can be
    /// recorded. `state` itself is left as it is. A consistent state never
    /// overflows its counters on the way; any other state is taken when the
    /// counters have room for `pulls` more pulls.
    pub fn miss_chances(&self, state: &PoolState, pulls: u32) -> (chances: Vec<Chance>)
        requires
            state.is_consistent() || (state.misses_since_jackpot + pulls <= u32::MAX
                && state.pulls_made + pulls <= u32::MAX),
        ensures
            chances@ == self.miss_chances_from(*state, pulls as nat),
    {
        let mut simulated = PoolState {
            remaining_items: state.remaining_items,
            remaining_jackpots: state.remaining_jackpots,
            remaining_gold: state.remaining_gold,
            remaining_silver: state.remaining_silver,
            remaining_normal: state.remaining_normal,
            pulls_made: state.pulls_made,
            misses_since_jackpot: state.misses_since_jackpot,
        };
        let mut chances: Vec<Chance> = Vec::new();
        let mut taken: u32 = 0;
        let mut done = false;
        while taken < pulls && !done
            invariant
                taken <= pulls,
                simulated.misses_since_jackpot <= state.misses_since_jackpot + taken,
                simulated.pulls_made <= state.pulls_made + taken,
                state.is_consistent() ==> simulated.is_consistent(),
                state.is_consistent() || (state.misses_since_jackpot + pulls <= u32::MAX
                    && state.pulls_made + pulls <= u32::MAX),
                done ==> chances@ == self.miss_chances_from(*state, pulls as nat),
                !done ==> chances@ + self.miss_chances_from(simulated, (pulls - taken) as nat)
                    == self.miss_chances_from(*state, pulls as nat),
            decreases pulls - taken, if done { 0int } else { 1int },
        {
            let ghost before = simulated;
            let ghost rest = (pulls - taken) as nat;
            let chance = self.pull_chance(&simulated);
            chances.push(chance);
            if chance == Chance::Certain {
                assert(self.miss_chances_from(before, rest) == seq![chance]);
                done = true;
            } else if simulated.record_miss() {
                assert(self.miss_chances_from(before, rest) == seq![chance]
                    + self.miss_chances_from(simulated, (rest - 1) as nat));
                taken = taken + 1;
            } else {
                assert(self.miss_chances_from(before, rest) == seq![chance]);
                done = true;
            }
        }
        if !done {
            assert(chances@ + self.miss_chances_from(simulated, 0) == chances@);
        }
        chances
    }
}

impl Pool {
    /// How many misses in a row `state` can still take before the next pull
    /// is certain to be a jackpot: until the pull that reaches hard pity, or
    /// until only jackpots are left, whichever comes first.
    pub open spec fn misses_before_certain(self, state: PoolState) -> nat {
        let by_pity: nat = if state.misses_since_jackpot + 1 >= self.hard_pity {
            0
        } else {
            (self.hard_pity - state.misses_since_jackpot - 1) as nat
        };
        let by_exhaustion: nat = state.non_jackpots() as nat;
        if by_pity <= by_exhaustion {
            by_pity
        } else {
            by_exhaustion
        }
    }
}

/// Pity guarantees a jackpot: from any consistent state with a jackpot left,
/// a run of misses ends, after `misses_before_certain` misses, in a pull that
/// is certain to be a jackpot; every pull before it has a chance strictly
/// between none and certainty, and asking for more pulls changes nothing.
pub proof fn lemma_jackpot_is_certain_after_misses(pool: Pool, state: PoolState)
    requires
        state.is_consistent(),
        state.remaining_jackpots > 0,
    ensures
        ({
            let d = pool.misses_before_certain(state) + 1;
            let chances = pool.miss_chances_from(state, d);
            &&& chances.len() == d
            &&& chances[d - 1] is Certain
            &&& forall|i: int| 0 <= i < d - 1 ==> (#[trigger] chances[i] is Base || chances[i] is SoftPity)
            &&& forall|n: nat| n >= d ==> pool.miss_chances_from(state, n) == chances
        }),
    decreases pool.misses_before_certain(state),
{
    let k = pool.misses_before_certain(state);
    let d = k + 1;
    if k == 0 {
        assert(pool.chance_of(state) is Certain);
        assert forall|n: nat| n >= d implies pool.miss_chances_from(state, n)
            == pool.miss_chances_from(state, d) by {
            assert(pool.miss_chances_from(state, n) == seq![pool.chance_of(state)]);
        }
    } else {
        let chance = pool.chance_of(state);
        assert(chance is Base || chance is SoftPity);
        let item = state.miss_choice().unwrap();
        assert(state.miss_choice() is Some);
        assert(state.can_pull(item));
        let next = state.after_pull(item);
        assert(state.miss_step() == Some(next));
        assert(next.is_consistent());
        assert(pool.misses_before_certain(next) == k - 1);
        lemma_jackpot_is_certain_after_misses(pool, next);
        let tail = pool.miss_chances_from(next, k);
        assert(pool.miss_chances_from(state, d) == seq![chance] + tail);
        assert forall|n: nat| n >= d implies pool.miss_chances_from(state, n)
            == pool.miss_chances_from(state, d) by {
            assert(pool.miss_chances_from(state, n) == seq![chance] + pool.miss_chances_from(
                next,
                (n - 1) as nat,
            ));
        }
    }
}

/// A valid pool keeps its hard-pity promise from the start: from the
/// untouched state, a run of misses ends exactly on pull `hard_pity`, and
/// that pull is certain to be a jackpot.
pub proof fn lemma_fresh_pool_is_certain_at_hard_pity(pool: Pool)
    requires
        pool.is_valid(),
    ensures
        ({
            let chances = pool.miss_chances_from(PoolState::initial(pool), pool.hard_pity as nat);
            &&& chances.len() == pool.hard_pity
            &&& chances[pool.hard_pity - 1] is Certain
            &&& forall|i: int| 0 <= i < pool.hard_pity - 1 ==> (#[trigger] chances[i] is Base
                || chances[i] is SoftPity)
        }),
{
    let state = PoolState::initial(pool);
    assert(state.is_consistent());
    assert(pool.misses_before_certain(state) + 1 == pool.hard_pity);
    lemma_jackpot_is_certain_after_misses(pool, state);
}

impl Pool {
    /// How many future pulls the analytics chart covers: up to the pull on
    /// which only jackpots would be left, and up to hard pity, but at least
    /// one pull.
    pub open spec fn horizon_of(self, state: PoolState) -> int {
        let natural: int = if state.remaining_items >= state.remaining_jackpots {
            state.remaining_items - state.remaining_jackpots + 1
        } else {
            1
        };
        let by_pity: int = if self.hard_pity > state.misses_since_jackpot + 1 {
            self.hard_pity - state.misses_since_jackpot
        } else {
            1
        };
        if natural <= by_pity {
            natural
        } else {
            by_pity
        }
    }

    /// The number of future pulls that the analytics chart covers, as
    /// `horizon_of` states it.
    pub fn analytics_horizon(&self, state: &PoolState) -> (horizon: u32)
        requires
            !(state.remaining_items == u32::MAX && state.remaining_jackpots == 0),
        ensures
            horizon == self.horizon_of(*state),
            horizon >= 1,
            state.remaining_items >= state.remaining_jackpots ==> horizon <= state.remaining_items
                - state.remaining_jackpots + 1,
            state.remaining_items < state.remaining_jackpots ==> horizon == 1,
            horizon <= self.hard_pity - state.misses_since_jackpot || horizon == 1,
            horizon == 1 || horizon == self.hard_pity - state.misses_since_jackpot || horizon
                == state.remaining_items - state.remaining_jackpots + 1,
            state.remaining_items >= state.remaining_jackpots && self.hard_pity
                > state.misses_since_jackpot ==> (horizon == state.remaining_items
                - state.remaining_jackpots + 1 || horizon == self.hard_pity
                - state.misses_since_jackpot),
    {
        let non_jackpots = if state.remaining_items >= state.remaining_jackpots {
            state.remaining_items - state.remaining_jackpots
        } else {
            0
        };
        let max_before_natural_guarantee = non_jackpots + 1;
        let until_hard_pity = if self.hard_pity > state.misses_since_jackpot {
            self.hard_pity - state.misses_since_jackpot
        } else {
            0
        };
        let until_hard_pity = if until_hard_pity < 1 {
            1
        } else {
            until_hard_pity
        };
        if max_before_natural_guarantee <= until_hard_pity {
            max_before_natural_guarantee
        } else {
            until_hard_pity
        }
    }
}

/// The analytics chart ends exactly where the guarantee does: for a
/// consistent state with a jackpot left, the horizon is the pull on which a
/// run of misses makes the jackpot certain.
pub proof fn lemma_horizon_is_pull_of_certain_jackpot(pool: Pool, state: PoolState)
    requires
        state.is_consistent(),
        state.remaining_jackpots > 0,
    ensures
        pool.horizon_of(state) == pool.misses_before_certain(state) + 1,
{
}

/// With no jackpot left, or no item at all, nothing can be a jackpot: every
/// rule in a run of misses from such a state is `Zero`.
pub proof fn lemma_no_jackpot_means_zero_chances(pool: Pool, state: PoolState, pulls: nat)
    requires
        state.remaining_items == 0 || state.remaining_jackpots == 0,
    ensures
        forall|i: int|
            0 <= i < pool.miss_chances_from(state, pulls).len() ==> #[trigger] pool.miss_chances_from(
                state,
                pulls,
            )[i] == Chance::Zero,
    decreases pulls,
{
    if pulls > 0 {
        let chance = pool.chance_of(state);
        assert(chance == Chance::Zero);
        match state.miss_step() {
            Some(next) => {
                assert(next.remaining_jackpots == state.remaining_jackpots);
                assert(next.remaining_jackpots == 0);
                lemma_no_jackpot_means_zero_chances(pool, next, (pulls - 1) as nat);
                let tail = pool.miss_chances_from(next, (pulls - 1) as nat);
                assert(pool.miss_chances_from(state, pulls) == seq![chance] + tail);
                assert forall|i: int|
                    0 <= i < pool.miss_chances_from(state, pulls).len() implies #[trigger] pool.miss_chances_from(
                    state,
                    pulls,
                )[i] == Chance::Zero by {
                    if i > 0 {
                        assert(pool.miss_chances_from(state, pulls)[i] == tail[i - 1]);
                    }
                }
            },
            None => {
                assert(pool.miss_chances_from(state, pulls) == seq![chance]);
            },
        }
    }
}

} // verus!
