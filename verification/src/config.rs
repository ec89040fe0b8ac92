use vstd::prelude::*;
use vstd::string::StringSliceAdditionalSpecFns;

use crate::types::{Item, Pool};

verus! {

/// The tiers and pity settings that a user asks for; the pool's item count
/// is their sum. The multiplier is held as its `f32` bit pattern, as in
/// `Pool`.
#[derive(Debug, Clone, PartialEq, Eq, Structural)]
pub struct Config {
    pub jackpot_items: u32,
    pub gold_items: u32,
    pub silver_items: u32,
    pub normal_items: u32,
    pub soft_pity: u32,
    pub hard_pity: u32,
    pub multiplier_bits: u32,
}

impl Config {
    /// The number of items in the four tiers together.
    pub open spec fn tier_total(self) -> int {
        self.jackpot_items + self.gold_items + self.silver_items + self.normal_items
    }

    /// The pool that the configuration describes, its item count being the
    /// sum of the tiers.
    pub open spec fn as_pool(self) -> Pool {
        Pool {
            num_items: self.tier_total() as u32,
            jackpot_items: self.jackpot_items,
            gold_items: self.gold_items,
            silver_items: self.silver_items,
            normal_items: self.normal_items,
            soft_pity: self.soft_pity,
            hard_pity: self.hard_pity,
            multiplier_bits: self.multiplier_bits,
        }
    }
}

/// Builds the pool that `config` describes and validates it. Fails with
/// "item counts are too large" when the tiers do not fit in a `u32`, and
/// otherwise with the message of the first rule of `Pool::validate` that the
/// pool breaks.
pub fn pool_from_config(config: Config) -> (built: Result<Pool, &'static str>)
    ensures
        match built {
            Ok(pool) => config.tier_total() <= u32::MAX && pool == config.as_pool()
                && pool.is_valid(),
            Err(message) => if config.tier_total() > u32::MAX {
                message@ == "item counts are too large"@
            } else {
                config.as_pool().validation_error() == Some(message@)
            },
        },
        built matches Ok(pool) ==> {
            &&& pool.num_items == config.jackpot_items + config.gold_items + config.silver_items
                + config.normal_items
            &&& pool.jackpot_items == config.jackpot_items
            &&& pool.gold_items == config.gold_items
            &&& pool.silver_items == config.silver_items
            &&& pool.normal_items == config.normal_items
            &&& pool.soft_pity == config.soft_pity
            &&& pool.hard_pity == config.hard_pity
            &&& pool.multiplier_bits == config.multiplier_bits
        },
{
    let total_items = match config.jackpot_items.checked_add(config.gold_items) {
        Some(count) => match count.checked_add(config.silver_items) {
            Some(count) => count.checked_add(config.normal_items),
            None => None,
        },
        None => None,
    };
    let total_items = match total_items {
        Some(count) => count,
        None => {
            return Err("item counts are too large");
        },
    };
    let pool = Pool {
        num_items: total_items,
        jackpot_items: config.jackpot_items,
        gold_items: config.gold_items,
        silver_items: config.silver_items,
        normal_items: config.normal_items,
        soft_pity: config.soft_pity,
        hard_pity: config.hard_pity,
        multiplier_bits: config.multiplier_bits,
    };
    match pool.validate() {
        Ok(()) => Ok(pool),
        Err(message) => Err(message),
    }
}

/// The display name of a tier.
pub open spec fn item_label(item: Item) -> Seq<char> {
    match item {
        Item::Jackpot => "Jackpot"@,
        Item::Gold => "Gold"@,
        Item::Silver => "Silver"@,
        Item::Normal => "Normal"@,
    }
}

/// The display name of a tier: "Jackpot", "Gold", "Silver" or "Normal".
pub fn item_name(item: Item) -> (name: &'static str)
    ensures
        name@ == item_label(item),
        item == Item::Jackpot ==> name@ == "Jackpot"@,
        item == Item::Gold ==> name@ == "Gold"@,
        item == Item::Silver ==> name@ == "Silver"@,
        item == Item::Normal ==> name@ == "Normal"@,
{
    match item {
        Item::Jackpot => "Jackpot",
        Item::Gold => "Gold",
        Item::Silver => "Silver",
        Item::Normal => "Normal",
    }
}

/// The byte is an ASCII decimal digit.
pub open spec fn is_digit(byte: u8) -> bool {
    48 <= byte <= 57
}

/// The number that a string of decimal digits writes, most significant
/// digit first.
pub open spec fn digits_value(digits: Seq<u8>) -> int
    decreases digits.len(),
{
    if digits.len() == 0 {
        0
    } else {
        digits_value(digits.drop_last()) * 10 + (digits.last() - 48)
    }
}

/// The digits of a seed: the text after one optional leading '+'.
pub open spec fn seed_digits(text: Seq<u8>) -> Seq<u8> {
    if text.len() > 0 && text[0] == 43 {
        text.skip(1)
    } else {
        text
    }
}

/// The seed that a text reads as, as `u64`'s own parsing reads it: an
/// optional '+', then one or more decimal digits, their value fitting in a
/// `u64`; `None` for any other text.
pub open spec fn seed_value(text: Seq<u8>) -> Option<u64> {
    let digits = seed_digits(text);
    if digits.len() > 0 && (forall|i: int| 0 <= i < digits.len() ==> is_digit(#[trigger] digits[i]))
        && digits_value(digits) <= u64::MAX {
        Some(digits_value(digits) as u64)
    } else {
        None
    }
}

/// A longer run of digits never writes a smaller number.
proof fn lemma_digits_value_grows(digits: Seq<u8>, shorter: int)
    requires
        0 <= shorter <= digits.len(),
        forall|i: int| 0 <= i < digits.len() ==> is_digit(#[trigger] digits[i]),
    ensures
        digits_value(digits.take(shorter)) <= digits_value(digits),
        0 <= digits_value(digits.take(shorter)),
    decreases digits.len(),
{
    if shorter == digits.len() {
        assert(digits.take(shorter) == digits);
        lemma_digits_value_nonnegative(digits);
    } else {
        let prefix = digits.drop_last();
        assert(prefix.take(shorter) == digits.take(shorter));
        lemma_digits_value_grows(prefix, shorter);
        lemma_digits_value_nonnegative(prefix);
    }
}

/// Digits write a number of at least zero.
proof fn lemma_digits_value_nonnegative(digits: Seq<u8>)
    requires
        forall|i: int| 0 <= i < digits.len() ==> is_digit(#[trigger] digits[i]),
    ensures
        0 <= digits_value(digits),
    decreases digits.len(),
{
    if digits.len() > 0 {
        let prefix = digits.drop_last();
        assert forall|i: int| 0 <= i < prefix.len() implies is_digit(#[trigger] prefix[i]) by {
            assert(prefix[i] == digits[i]);
        }
        lemma_digits_value_nonnegative(prefix);
    }
}

/// Reads a seed as a `u64`, as `u64`'s own parsing does: an optional '+',
/// then decimal digits whose value fits; `None` for anything else.
pub fn parse_seed(text: &str) -> (seed: Option<u64>)
    ensures
        seed == seed_value(text.spec_bytes()),
{
    let bytes = text.as_bytes();
    let ghost all = bytes@;
    let ghost digits = seed_digits(all);
    let len = bytes.len();
    let mut start: usize = 0;
    if len > 0 && bytes[0] == 43 {
        start = 1;
    }
    assert(digits == all.subrange(start as int, len as int));
    if start == len {
        return None;
    }
    let mut value: u64 = 0;
    let mut i: usize = start;
    while i < len
        invariant
            all == bytes@,
            all == text.spec_bytes(),
            digits == seed_digits(all),
            len == all.len(),
            digits == all.subrange(start as int, len as int),
            start <= i <= len,
            forall|j: int| 0 <= j < i - start ==> is_digit(#[trigger] digits[j]),
            value == digits_value(digits.take(i - start)),
        decreases len - i,
    {
        let byte = bytes[i];
        if byte < 48 || byte > 57 {
            assert(digits[i - start] == byte);
            assert(!is_digit(digits[i - start]));
            return None;
        }
        let digit = (byte - 48) as u64;
        let ghost taken = i - start;
        assert(digits.take(taken + 1).drop_last() == digits.take(taken));
        assert(digits.take(taken + 1).last() == byte);
        if value > (u64::MAX - digit) / 10 {
            assert(value * 10 + digit > u64::MAX) by (nonlinear_arith)
                requires
                    value > (u64::MAX - digit) / 10,
                    digit <= 9,
            ;
            proof {
                if forall|j: int| 0 <= j < digits.len() ==> is_digit(#[trigger] digits[j]) {
                    lemma_digits_value_grows(digits, taken + 1);
                }
            }
            return None;
        }
        assert(value * 10 + digit <= u64::MAX) by (nonlinear_arith)
            requires
                value <= (u64::MAX - digit) / 10,
                digit <= 9,
        ;
        value = value * 10 + digit;
        i = i + 1;
    }
    assert(digits.take(len - start) == digits);
    Some(value)
}

} // verus!
