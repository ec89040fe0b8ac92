//! Laws of the pool, stated over the fields of pools and states.
use vstd::prelude::*;

use crate::chance::Chance;
use crate::config::Config;
use crate::types::{Item, Pool, PoolState};

verus! {

/// The chance of the next pull reads only the items left, the jackpots left
/// and the misses since the last jackpot: two states that agree on these get
/// the same rule, whatever pulls came before or how the other tiers divide.
pub proof fn lemma_chance_reads_items_jackpots_and_misses(pool: Pool, a: PoolState, b: PoolState)
    requires
        a.remaining_items == b.remaining_items,
        a.remaining_jackpots == b.remaining_jackpots,
        a.misses_since_jackpot == b.misses_since_jackpot,
    ensures
        pool.chance_of(a) == pool.chance_of(b),
{
}

/// Soft pity weighs the jackpots by how far the misses since the last
/// jackpot run past soft pity: the exponent is `misses + 1 - soft_pity`, and
/// the rule carries the state's own jackpots and items.
pub proof fn lemma_soft_pity_exponent_counts_misses(pool: Pool, state: PoolState)
    ensures
        pool.chance_of(state) matches Chance::SoftPity { jackpots, items, exponent } ==> {
            &&& exponent == state.misses_since_jackpot + 1 - pool.soft_pity
            &&& pool.soft_pity < state.misses_since_jackpot + 1 < pool.hard_pity
            &&& jackpots == state.remaining_jackpots
            &&& items == state.remaining_items
            &&& 0 < jackpots && jackpots != items
        },
        pool.chance_of(state) matches Chance::Base { jackpots, items } ==> {
            &&& state.misses_since_jackpot + 1 <= pool.soft_pity
            &&& state.misses_since_jackpot + 1 < pool.hard_pity
            &&& jackpots == state.remaining_jackpots
            &&& items == state.remaining_items
            &&& 0 < jackpots && jackpots != items
        },
        pool.chance_of(state) == Chance::Zero <==> (state.remaining_items == 0
            || state.remaining_jackpots == 0),
{
}

/// Hard pity makes the next pull certain once the misses since the last
/// jackpot reach it, as long as a jackpot is left.
pub proof fn lemma_hard_pity_is_certain(pool: Pool, state: PoolState)
    requires
        state.remaining_items > 0,
        state.remaining_jackpots > 0,
        state.misses_since_jackpot + 1 >= pool.hard_pity,
    ensures
        pool.chance_of(state) == Chance::Certain,
{
}

/// A jackpot starts the pity over: the chance after a recorded jackpot is
/// that of a state with one item and one jackpot fewer and no misses.
pub proof fn lemma_jackpot_resets_pity(pool: Pool, state: PoolState)
    requires
        state.remaining_items > 0,
        state.remaining_jackpots > 0,
    ensures
        state.can_pull(Item::Jackpot),
        state.after_pull(Item::Jackpot).misses_since_jackpot == 0,
        pool.chance_of(state.after_pull(Item::Jackpot)) == pool.chance_of(
            PoolState {
                remaining_items: (state.remaining_items - 1) as u32,
                remaining_jackpots: (state.remaining_jackpots - 1) as u32,
                misses_since_jackpot: 0,
                ..state
            },
        ),
{
}

/// A recorded pull takes exactly one item, from its own tier, and counts one
/// pull; a jackpot sets the misses to zero and anything else adds one (the
/// counters having room for one more).
pub proof fn lemma_pull_takes_one_item_of_its_tier(state: PoolState, item: Item)
    requires
        state.can_pull(item),
        state.pulls_made < u32::MAX,
        state.misses_since_jackpot < u32::MAX,
    ensures
        ({
            let next = state.after_pull(item);
            &&& next.remaining_items == state.remaining_items - 1
            &&& next.pulls_made == state.pulls_made + 1
            &&& next.remaining_jackpots == state.remaining_jackpots - (if item == Item::Jackpot {
                1int
            } else {
                0int
            })
            &&& next.remaining_gold == state.remaining_gold - (if item == Item::Gold {
                1int
            } else {
                0int
            })
            &&& next.remaining_silver == state.remaining_silver - (if item == Item::Silver {
                1int
            } else {
                0int
            })
            &&& next.remaining_normal == state.remaining_normal - (if item == Item::Normal {
                1int
            } else {
                0int
            })
            &&& next.misses_since_jackpot == (if item == Item::Jackpot {
                0int
            } else {
                state.misses_since_jackpot + 1
            })
        }),
{
    match item {
        Item::Jackpot => assert(state.remaining_jackpots > 0),
        Item::Gold => assert(state.remaining_gold > 0),
        Item::Silver => assert(state.remaining_silver > 0),
        Item::Normal => assert(state.remaining_normal > 0),
    }
}

/// A miss takes a normal item while one is left, then a silver one, then a
/// gold one, and never a jackpot.
pub proof fn lemma_miss_takes_normal_then_silver_then_gold(state: PoolState)
    ensures
        state.miss_choice() == Some(Item::Normal) <==> state.remaining_normal > 0,
        state.miss_choice() == Some(Item::Silver) <==> (state.remaining_normal == 0
            && state.remaining_silver > 0),
        state.miss_choice() == Some(Item::Gold) <==> (state.remaining_normal == 0
            && state.remaining_silver == 0 && state.remaining_gold > 0),
        state.miss_choice() is None <==> (state.remaining_normal == 0 && state.remaining_silver == 0
            && state.remaining_gold == 0),
        state.miss_choice() != Some(Item::Jackpot),
{
}

/// A draw that is not a jackpot is a miss: it takes the same tier, and leaves
/// the same state, as a recorded miss; a jackpot draw takes a jackpot.
pub proof fn lemma_draw_without_jackpot_is_a_miss(state: PoolState)
    ensures
        state.draw_choice(false) == state.miss_choice(),
        state.draw_choice(true) == Some(Item::Jackpot),
        state.miss_step() is Some <==> (state.remaining_items > 0 && state.remaining_normal
            + state.remaining_silver + state.remaining_gold > 0),
{
}

/// A pool validates exactly when its tiers add up to a non-zero item count,
/// it has a jackpot, soft pity starts before hard pity, hard pity comes no
/// later than the pull on which only jackpots are left, and the multiplier's
/// bits are those of a finite number of at least 1.
pub proof fn lemma_valid_pool_shape(pool: Pool)
    ensures
        pool.is_valid() <==> {
            &&& pool.num_items > 0
            &&& pool.jackpot_items + pool.gold_items + pool.silver_items + pool.normal_items
                == pool.num_items
            &&& pool.jackpot_items > 0
            &&& pool.soft_pity < pool.hard_pity
            &&& pool.hard_pity <= pool.num_items - pool.jackpot_items + 1
            &&& 0x3F80_0000 <= pool.multiplier_bits < 0x7F80_0000
        },
{
}

/// A configuration describes the pool with its own tier counts, pity
/// settings and multiplier, and the sum of its tiers as the item count.
pub proof fn lemma_config_pool_keeps_each_field(config: Config)
    requires
        config.jackpot_items + config.gold_items + config.silver_items + config.normal_items
            <= u32::MAX,
    ensures
        ({
            let pool = config.as_pool();
            &&& pool.num_items == config.jackpot_items + config.gold_items + config.silver_items
                + config.normal_items
            &&& pool.jackpot_items == config.jackpot_items
            &&& pool.gold_items == config.gold_items
            &&& pool.silver_items == config.silver_items
            &&& pool.normal_items == config.normal_items
            &&& pool.soft_pity == config.soft_pity
            &&& pool.hard_pity == config.hard_pity
            &&& pool.multiplier_bits == config.multiplier_bits
        }),
{
}

/// The untouched state holds each tier of the pool under its own name, and
/// no pull or miss.
pub proof fn lemma_initial_state_holds_each_tier(pool: Pool)
    ensures
        ({
            let state = PoolState::initial(pool);
            &&& state.remaining_items == pool.num_items
            &&& state.remaining_jackpots == pool.jackpot_items
            &&& state.remaining_gold == pool.gold_items
            &&& state.remaining_silver == pool.silver_items
            &&& state.remaining_normal == pool.normal_items
            &&& state.pulls_made == 0
            &&& state.misses_since_jackpot == 0
        }),
{
}

/// Each refusal of `validate` names the first rule broken, in this order:
/// the tiers overflow, they do not add up to a non-zero item count, there is
/// no jackpot, soft pity does not start before hard pity, hard pity is out of
/// reach, the multiplier is below 1 or not finite.
pub proof fn lemma_validation_names_the_first_broken_rule(pool: Pool)
    ensures
        pool.jackpot_items + pool.gold_items + pool.silver_items + pool.normal_items > u32::MAX
            ==> pool.validation_error() == Some("item counts are too large"@),
        pool.jackpot_items + pool.gold_items + pool.silver_items + pool.normal_items <= u32::MAX
            && (pool.num_items == 0 || pool.jackpot_items + pool.gold_items + pool.silver_items
            + pool.normal_items != pool.num_items) ==> pool.validation_error() == Some(
            "tier counts must add up to the total item count"@,
        ),
        pool.jackpot_items + pool.gold_items + pool.silver_items + pool.normal_items
            == pool.num_items && pool.num_items > 0 && pool.jackpot_items == 0
            ==> pool.validation_error() == Some("the pool needs at least one jackpot"@),
        pool.jackpot_items + pool.gold_items + pool.silver_items + pool.normal_items
            == pool.num_items && pool.num_items > 0 && pool.jackpot_items > 0 && pool.soft_pity
            >= pool.hard_pity ==> pool.validation_error() == Some(
            "soft pity must start before hard pity"@,
        ),
        pool.jackpot_items + pool.gold_items + pool.silver_items + pool.normal_items
            == pool.num_items && pool.num_items > 0 && pool.jackpot_items > 0 && pool.soft_pity
            < pool.hard_pity && pool.hard_pity > pool.num_items - pool.jackpot_items + 1
            ==> pool.validation_error() == Some(
            "hard pity must be reachable before natural pool exhaustion"@,
        ),
        pool.jackpot_items + pool.gold_items + pool.silver_items + pool.normal_items
            == pool.num_items && pool.num_items > 0 && pool.jackpot_items > 0 && pool.soft_pity
            < pool.hard_pity && pool.hard_pity <= pool.num_items - pool.jackpot_items + 1 && !(
        0x3F80_0000 <= pool.multiplier_bits < 0x7F80_0000) ==> pool.validation_error() == Some(
            "the soft-pity multiplier must be at least 1"@,
        ),
{
}

/// Asking for one more pull only extends a run of misses: the shorter run is
/// a prefix of the longer one, and it is at most as long as asked.
pub proof fn lemma_miss_chances_extend(pool: Pool, state: PoolState, pulls: nat)
    ensures
        pool.miss_chances_from(state, pulls).len() <= pulls,
        pool.miss_chances_from(state, pulls).len() <= pool.miss_chances_from(state, pulls + 1).len(),
        pool.miss_chances_from(state, pulls) =~= pool.miss_chances_from(state, pulls + 1).take(
            pool.miss_chances_from(state, pulls).len() as int,
        ),
        pulls > 0 ==> pool.miss_chances_from(state, pulls)[0] == pool.chance_of(state),
    decreases pulls,
{
    if pulls > 0 {
        let chance = pool.chance_of(state);
        if !(chance is Certain) {
            match state.miss_step() {
                Some(next) => {
                    lemma_miss_chances_extend(pool, next, (pulls - 1) as nat);
                    assert(pool.miss_chances_from(state, pulls + 1) == seq![chance]
                        + pool.miss_chances_from(next, pulls));
                    assert((pulls + 1 - 1) as nat == pulls);
                },
                None => {},
            }
        }
    }
}

/// Only the last rule of a run of misses can be a certain jackpot: the run
/// stops there.
pub proof fn lemma_certain_ends_miss_chances(pool: Pool, state: PoolState, pulls: nat)
    ensures
        forall|i: int|
            0 <= i < pool.miss_chances_from(state, pulls).len() - 1 ==> #[trigger] pool.miss_chances_from(
                state,
                pulls,
            )[i] != Chance::Certain,
    decreases pulls,
{
    if pulls > 0 {
        let chance = pool.chance_of(state);
        if !(chance is Certain) {
            match state.miss_step() {
                Some(next) => {
                    lemma_certain_ends_miss_chances(pool, next, (pulls - 1) as nat);
                    let tail = pool.miss_chances_from(next, (pulls - 1) as nat);
                    assert(pool.miss_chances_from(state, pulls) == seq![chance] + tail);
                    assert forall|i: int|
                        0 <= i < pool.miss_chances_from(state, pulls).len()
                            - 1 implies #[trigger] pool.miss_chances_from(state, pulls)[i]
                        != Chance::Certain by {
                        if i > 0 {
                            assert(pool.miss_chances_from(state, pulls)[i] == tail[i - 1]);
                        }
                    }
                },
                None => {},
            }
        }
    }
}

} // verus!
