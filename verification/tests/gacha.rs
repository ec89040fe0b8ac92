use gacha::{item_name, parse_seed, pool_from_config, Chance, Config, Item, Pool, PoolState};

fn example_pool() -> Pool {
    Pool {
        num_items: 30,
        jackpot_items: 2,
        gold_items: 5,
        silver_items: 5,
        normal_items: 18,
        soft_pity: 20,
        hard_pity: 25,
        multiplier_bits: 1.15f32.to_bits(),
    }
}

fn example_config() -> Config {
    Config {
        jackpot_items: 2,
        gold_items: 5,
        silver_items: 5,
        normal_items: 18,
        soft_pity: 20,
        hard_pity: 25,
        multiplier_bits: 1.15f32.to_bits(),
    }
}

/// The `f32` reading of a chance, with the pool's multiplier.
fn chance_value(pool: &Pool, chance: Chance) -> f32 {
    match chance {
        Chance::Zero => 0.0,
        Chance::Certain => 1.0,
        Chance::Base { jackpots, items } => jackpots as f32 / items as f32,
        Chance::SoftPity { jackpots, items, exponent } => {
            let weight = f32::from_bits(pool.multiplier_bits).powf(exponent as f32);
            let total_jackpot_weight = jackpots as f32 * weight;
            let non_jackpot_weight = (items - jackpots) as f32;
            total_jackpot_weight / (non_jackpot_weight + total_jackpot_weight)
        }
    }
}

#[test]
fn initial_probability_includes_both_jackpots() {
    let pool = example_pool();
    let state = PoolState::new(&pool);

    let chance = pool.pull_chance(&state);
    assert_eq!(chance, Chance::Base { jackpots: 2, items: 30 });
    assert!((chance_value(&pool, chance) - 2.0 / 30.0).abs() < 0.000_001);
}

#[test]
fn consecutive_probability_multiplies_misses() {
    let pool = example_pool();
    let state = PoolState::new(&pool);
    let expected = 1.0 - (28.0 / 30.0) * (27.0 / 29.0);

    let chances = pool.miss_chances(&state, 2);
    assert_eq!(
        chances,
        vec![Chance::Base { jackpots: 2, items: 30 }, Chance::Base { jackpots: 2, items: 29 }]
    );
    let missed_every_pull: f32 = chances.iter().map(|c| 1.0 - chance_value(&pool, *c)).product();
    assert!(((1.0 - missed_every_pull) - expected).abs() < 0.000_001);
}

#[test]
fn exact_pull_requires_previous_misses() {
    let pool = example_pool();
    let state = PoolState::new(&pool);
    let expected = (28.0 / 30.0) * (2.0 / 29.0);

    let chances = pool.miss_chances(&state, 2);
    assert_eq!(chances.len(), 2);
    let exact = (1.0 - chance_value(&pool, chances[0])) * chance_value(&pool, chances[1]);
    assert!((exact - expected).abs() < 0.000_001);
}

#[test]
fn soft_pity_weights_every_remaining_jackpot() {
    let pool = example_pool();
    let mut state = PoolState::new(&pool);

    for _ in 0..20 {
        assert!(state.record_miss());
    }

    let chance = pool.pull_chance(&state);
    assert_eq!(chance, Chance::SoftPity { jackpots: 2, items: 10, exponent: 1 });
    let expected = (2.0 * 1.15) / (8.0 + 2.0 * 1.15);
    assert!((chance_value(&pool, chance) - expected).abs() < 0.000_001);
}

#[test]
fn jackpot_updates_state_and_resets_pity() {
    let pool = example_pool();
    let mut state = PoolState::new(&pool);

    assert!(state.record_miss());
    assert!(state.record_pull(Item::Jackpot));

    assert_eq!(state.remaining_items, 28);
    assert_eq!(state.remaining_jackpots, 1);
    assert_eq!(state.pulls_made, 2);
    assert_eq!(state.misses_since_jackpot, 0);
    let chance = pool.pull_chance(&state);
    assert_eq!(chance, Chance::Base { jackpots: 1, items: 28 });
    assert!((chance_value(&pool, chance) - 1.0 / 28.0).abs() < 0.000_001);
}

#[test]
fn hard_pity_guarantees_the_next_pull() {
    let pool = example_pool();
    let mut state = PoolState::new(&pool);

    for _ in 0..24 {
        assert!(state.record_miss());
    }

    assert_eq!(pool.pull_chance(&state), Chance::Certain);
    assert_eq!(chance_value(&pool, pool.pull_chance(&state)), 1.0);
}

#[test]
fn exact_pull_probabilities_sum_to_one() {
    let pool = example_pool();
    let state = PoolState::new(&pool);

    let chances = pool.miss_chances(&state, pool.hard_pity);
    assert_eq!(chances.len(), pool.hard_pity as usize);
    assert_eq!(chances[chances.len() - 1], Chance::Certain);
    let mut missed_previous = 1.0f32;
    let mut total = 0.0f32;
    for chance in &chances {
        let probability = chance_value(&pool, *chance);
        total += missed_previous * probability;
        missed_previous *= 1.0 - probability;
    }
    assert!((total - 1.0).abs() < 0.000_001);
}

// Further cases.

#[test]
fn new_state_copies_the_pool() {
    let pool = example_pool();
    let state = PoolState::new(&pool);
    assert_eq!(
        state,
        PoolState {
            remaining_items: 30,
            remaining_jackpots: 2,
            remaining_gold: 5,
            remaining_silver: 5,
            remaining_normal: 18,
            pulls_made: 0,
            misses_since_jackpot: 0,
        }
    );
}

#[test]
fn record_pull_takes_from_the_named_tier() {
    let pool = example_pool();
    let mut state = PoolState::new(&pool);
    assert!(state.record_pull(Item::Gold));
    assert_eq!(state.remaining_gold, 4);
    assert_eq!(state.remaining_items, 29);
    assert_eq!(state.pulls_made, 1);
    assert_eq!(state.misses_since_jackpot, 1);
    assert!(state.record_pull(Item::Silver));
    assert_eq!(state.remaining_silver, 4);
    assert!(state.record_pull(Item::Normal));
    assert_eq!(state.remaining_normal, 17);
    assert_eq!(state.misses_since_jackpot, 3);
    assert_eq!(state.pulls_made + state.remaining_items, 30);
}

#[test]
fn record_pull_of_an_empty_tier_changes_nothing() {
    let pool = example_pool();
    let mut state = PoolState::new(&pool);
    assert!(state.record_pull(Item::Jackpot));
    assert!(state.record_pull(Item::Jackpot));
    let before = state.clone();
    assert!(!state.record_pull(Item::Jackpot));
    assert_eq!(state, before);
}

#[test]
fn record_pull_from_an_empty_pool_changes_nothing() {
    let mut state = PoolState {
        remaining_items: 0,
        remaining_jackpots: 1,
        remaining_gold: 1,
        remaining_silver: 1,
        remaining_normal: 1,
        pulls_made: 3,
        misses_since_jackpot: 2,
    };
    let before = state.clone();
    assert!(!state.record_pull(Item::Normal));
    assert!(!state.record_miss());
    assert_eq!(state, before);
}

#[test]
fn misses_take_normal_then_silver_then_gold() {
    let pool = example_pool();
    let mut state = PoolState::new(&pool);
    assert_eq!(state.miss_item(), Some(Item::Normal));
    for _ in 0..18 {
        assert!(state.record_miss());
    }
    assert_eq!(state.remaining_normal, 0);
    assert_eq!(state.miss_item(), Some(Item::Silver));
    for _ in 0..5 {
        assert!(state.record_miss());
    }
    assert_eq!(state.miss_item(), Some(Item::Gold));
    for _ in 0..5 {
        assert!(state.record_miss());
    }
    assert_eq!(state.miss_item(), None);
    assert_eq!(state.remaining_jackpots, 2);
    assert_eq!(state.remaining_items, 2);
    assert_eq!(state.misses_since_jackpot, 28);
    let before = state.clone();
    assert!(!state.record_miss());
    assert_eq!(state, before);
    assert_eq!(pool.pull_chance(&state), Chance::Certain);
}

#[test]
fn draw_records_a_jackpot_or_a_miss() {
    let pool = example_pool();
    let mut state = PoolState::new(&pool);
    assert_eq!(state.draw(false), Some(Item::Normal));
    assert_eq!(state.draw(true), Some(Item::Jackpot));
    assert_eq!(state.draw(true), Some(Item::Jackpot));
    assert_eq!(state.misses_since_jackpot, 0);
    assert_eq!(state.draw(true), None);
    assert_eq!(state.remaining_items, 27);
    assert_eq!(state.pulls_made, 3);
}

#[test]
fn chance_is_zero_without_jackpots_or_items() {
    let pool = example_pool();
    let mut state = PoolState::new(&pool);
    assert!(state.record_pull(Item::Jackpot));
    assert!(state.record_pull(Item::Jackpot));
    assert_eq!(pool.pull_chance(&state), Chance::Zero);
    let empty = PoolState {
        remaining_items: 0,
        remaining_jackpots: 2,
        remaining_gold: 0,
        remaining_silver: 0,
        remaining_normal: 0,
        pulls_made: 30,
        misses_since_jackpot: 0,
    };
    assert_eq!(pool.pull_chance(&empty), Chance::Zero);
    assert_eq!(pool.miss_chances(&empty, 3), vec![Chance::Zero]);
}

#[test]
fn soft_pity_exponent_grows_with_misses() {
    let pool = example_pool();
    let mut state = PoolState::new(&pool);
    for _ in 0..19 {
        assert!(state.record_miss());
    }
    assert_eq!(pool.pull_chance(&state), Chance::Base { jackpots: 2, items: 11 });
    for _ in 0..3 {
        assert!(state.record_miss());
    }
    assert_eq!(pool.pull_chance(&state), Chance::SoftPity { jackpots: 2, items: 8, exponent: 3 });
}

#[test]
fn miss_chances_stop_at_certainty_and_leave_the_state() {
    let pool = example_pool();
    let state = PoolState::new(&pool);
    let before = state.clone();
    let chances = pool.miss_chances(&state, 100);
    assert_eq!(chances.len(), 25);
    assert_eq!(chances[0], Chance::Base { jackpots: 2, items: 30 });
    assert_eq!(chances[20], Chance::SoftPity { jackpots: 2, items: 10, exponent: 1 });
    assert_eq!(chances[24], Chance::Certain);
    assert!(chances[..24].iter().all(|c| *c != Chance::Certain && *c != Chance::Zero));
    assert_eq!(state, before);
    assert!(pool.miss_chances(&state, 0).is_empty());
}

#[test]
fn miss_chances_end_when_only_jackpots_remain() {
    let pool = example_pool();
    let mut state = PoolState::new(&pool);
    for _ in 0..20 {
        assert!(state.record_miss());
    }
    assert!(state.record_pull(Item::Jackpot));
    // Eight non-jackpot items remain and the pity starts over: the ninth
    // pull is certain because only the last jackpot is left.
    let chances = pool.miss_chances(&state, 25);
    assert_eq!(chances.len(), 9);
    assert_eq!(chances[0], Chance::Base { jackpots: 1, items: 9 });
    assert_eq!(chances[8], Chance::Certain);
    assert_eq!(pool.analytics_horizon(&state), 9);
}

#[test]
fn analytics_horizon_is_the_pull_of_the_guarantee() {
    let pool = example_pool();
    let mut state = PoolState::new(&pool);
    assert_eq!(pool.analytics_horizon(&state), 25);
    for _ in 0..10 {
        assert!(state.record_miss());
    }
    assert_eq!(pool.analytics_horizon(&state), 15);
    let past_pity = PoolState { misses_since_jackpot: 40, ..state.clone() };
    assert_eq!(pool.analytics_horizon(&past_pity), 1);
    let no_jackpots = PoolState { remaining_jackpots: 0, remaining_items: 3, ..state };
    assert_eq!(pool.analytics_horizon(&no_jackpots), 4);
}

#[test]
fn validate_accepts_the_example_pool() {
    assert_eq!(example_pool().validate(), Ok(()));
}

#[test]
fn validate_names_each_broken_rule() {
    let too_large = Pool { gold_items: u32::MAX, ..example_pool() };
    assert_eq!(too_large.validate(), Err("item counts are too large"));
    let mismatch = Pool { num_items: 31, ..example_pool() };
    assert_eq!(mismatch.validate(), Err("tier counts must add up to the total item count"));
    let empty = Pool {
        num_items: 0,
        jackpot_items: 0,
        gold_items: 0,
        silver_items: 0,
        normal_items: 0,
        ..example_pool()
    };
    assert_eq!(empty.validate(), Err("tier counts must add up to the total item count"));
    let no_jackpot = Pool { jackpot_items: 0, normal_items: 20, ..example_pool() };
    assert_eq!(no_jackpot.validate(), Err("the pool needs at least one jackpot"));
    let late_soft = Pool { soft_pity: 25, ..example_pool() };
    assert_eq!(late_soft.validate(), Err("soft pity must start before hard pity"));
    let unreachable = Pool { hard_pity: 30, ..example_pool() };
    assert_eq!(
        unreachable.validate(),
        Err("hard pity must be reachable before natural pool exhaustion")
    );
    let reachable = Pool { hard_pity: 29, ..example_pool() };
    assert_eq!(reachable.validate(), Ok(()));
    for multiplier in [0.99f32, 0.0, -2.0, f32::NAN, f32::INFINITY, f32::NEG_INFINITY] {
        let pool = Pool { multiplier_bits: multiplier.to_bits(), ..example_pool() };
        assert_eq!(pool.validate(), Err("the soft-pity multiplier must be at least 1"));
    }
    for multiplier in [1.0f32, 1.15, 3.0e38, f32::MAX] {
        let pool = Pool { multiplier_bits: multiplier.to_bits(), ..example_pool() };
        assert_eq!(pool.validate(), Ok(()));
    }
}

#[test]
fn multiplier_bits_match_float_validity() {
    for multiplier in [
        1.0f32, 1.15, 0.5, -1.0, -0.0, 0.0, f32::NAN, -f32::NAN, f32::INFINITY, f32::MAX,
        f32::MIN_POSITIVE, 1.0000001, 0.99999994,
    ] {
        let pool = Pool { multiplier_bits: multiplier.to_bits(), ..example_pool() };
        let float_valid = multiplier.is_finite() && multiplier >= 1.0;
        assert_eq!(pool.validate().is_ok(), float_valid);
    }
}

#[test]
fn pool_from_config_sums_the_tiers() {
    let pool = pool_from_config(example_config()).unwrap();
    assert_eq!(pool, example_pool());
}

#[test]
fn pool_from_config_reports_errors() {
    let too_large = Config { normal_items: u32::MAX, ..example_config() };
    assert_eq!(pool_from_config(too_large), Err("item counts are too large"));
    let no_jackpot = Config { jackpot_items: 0, ..example_config() };
    assert_eq!(pool_from_config(no_jackpot), Err("the pool needs at least one jackpot"));
    let unreachable = Config { hard_pity: 30, ..example_config() };
    assert_eq!(
        pool_from_config(unreachable),
        Err("hard pity must be reachable before natural pool exhaustion")
    );
    let empty = Config {
        jackpot_items: 0,
        gold_items: 0,
        silver_items: 0,
        normal_items: 0,
        ..example_config()
    };
    assert_eq!(pool_from_config(empty), Err("tier counts must add up to the total item count"));
}

#[test]
fn item_names() {
    assert_eq!(item_name(Item::Jackpot), "Jackpot");
    assert_eq!(item_name(Item::Gold), "Gold");
    assert_eq!(item_name(Item::Silver), "Silver");
    assert_eq!(item_name(Item::Normal), "Normal");
}

#[test]
fn parse_seed_reads_decimal_u64() {
    assert_eq!(parse_seed("0"), Some(0));
    assert_eq!(parse_seed("42"), Some(42));
    assert_eq!(parse_seed("+7"), Some(7));
    assert_eq!(parse_seed("007"), Some(7));
    assert_eq!(parse_seed("18446744073709551615"), Some(u64::MAX));
    assert_eq!(parse_seed("18446744073709551616"), None);
    assert_eq!(parse_seed("99999999999999999999"), None);
    assert_eq!(parse_seed(""), None);
    assert_eq!(parse_seed("+"), None);
    assert_eq!(parse_seed("-1"), None);
    assert_eq!(parse_seed("-0"), None);
    assert_eq!(parse_seed("12a"), None);
    assert_eq!(parse_seed(" 1"), None);
    assert_eq!(parse_seed("++1"), None);
    assert_eq!(parse_seed("١"), None);
}

#[test]
fn parse_seed_agrees_with_std() {
    for text in [
        "0", "1", "+1", "-1", "", "+", "-", "123456789", "18446744073709551615",
        "18446744073709551616", "+18446744073709551615", "00000000000000000000001", "1_000",
        "1e3", "0x10", "  7", "7 ",
    ] {
        assert_eq!(parse_seed(text), text.parse::<u64>().ok(), "{text:?}");
    }
}

#[test]
fn miss_chances_from_a_consistent_state_take_any_length() {
    let pool = example_pool();
    let mut state = PoolState::new(&pool);
    assert!(state.record_miss());
    assert!(state.consistent());
    let chances = pool.miss_chances(&state, u32::MAX);
    assert_eq!(chances.len(), 24);
    assert_eq!(chances[23], Chance::Certain);
}

#[test]
fn miss_chances_without_jackpots_are_all_zero() {
    let pool = example_pool();
    let mut state = PoolState::new(&pool);
    assert!(state.record_pull(Item::Jackpot));
    assert!(state.record_pull(Item::Jackpot));
    let chances = pool.miss_chances(&state, 50);
    assert_eq!(chances.len(), 29);
    assert!(chances.iter().all(|c| *c == Chance::Zero));
}

#[test]
fn consistency_is_checked_exactly() {
    let pool = example_pool();
    let state = PoolState::new(&pool);
    assert!(state.consistent());
    assert!(!PoolState { remaining_items: 31, ..state.clone() }.consistent());
    assert!(!PoolState { misses_since_jackpot: 1, ..state.clone() }.consistent());
    assert!(!PoolState { pulls_made: u32::MAX, ..state.clone() }.consistent());
    assert!(PoolState { pulls_made: u32::MAX - 30, ..state }.consistent());
}
