use vstd::prelude::*;

verus! {

/// The tier of one item of the pool.
#[derive(Debug, Clone, Copy, PartialEq, Eq, Structural)]
pub enum Item {
    Jackpot,
    Gold,
    Silver,
    Normal,
}

/// What is left of a pool, and how far the player's pity has run.
#[derive(Debug, Clone, PartialEq, Eq, Structural)]
pub struct PoolState {
    pub remaining_items: u32,
    pub remaining_jackpots: u32,
    pub remaining_gold: u32,
    pub remaining_silver: u32,
    pub remaining_normal: u32,
    pub pulls_made: u32,
    pub misses_since_jackpot: u32,
}


/// The shape of a pool: how many items it holds, how they divide into tiers,
/// and where soft and hard pity set in.
///
/// The soft-pity multiplier is an `f32`; the pool holds its IEEE-754 bit
/// pattern (`f32::to_bits`), which is all that validation reads of it. The
/// arithmetic with the multiplier itself is floating point and stays with the
/// caller.
#[derive(Debug, Clone, PartialEq, Eq, Structural)]
pub struct Pool {
    pub num_items: u32,
    pub jackpot_items: u32,
    pub gold_items: u32,
    pub silver_items: u32,
    pub normal_items: u32,
    pub soft_pity: u32,
    pub hard_pity: u32,
    pub multiplier_bits: u32,
}

/// The bit patterns of the `f32` values that are finite and at least `1.0`.
/// A positive `f32` orders as its bit pattern does; `1.0` is `0x3F80_0000`,
/// positive infinity is `0x7F80_0000`, and every pattern above it is a NaN or
/// has the sign bit set.
pub open spec fn multiplier_bits_valid(bits: u32) -> bool {
    0x3F80_0000 <= bits < 0x7F80_0000
}

impl Pool {
    /// The number of items in the four tiers together.
    pub open spec fn tier_total(self) -> int {
        self.jackpot_items + self.gold_items + self.silver_items + self.normal_items
    }

    /// The first rule that the pool breaks, by its message, checked in this
    /// order; `None` for a valid pool.
    pub open spec fn validation_error(self) -> Option<Seq<char>> {
        if self.tier_total() > u32::MAX {
            Some("item counts are too large"@)
        } else if self.num_items == 0 || self.tier_total() != self.num_items {
            Some("tier counts must add up to the total item count"@)
        } else if self.jackpot_items == 0 {
            Some("the pool needs at least one jackpot"@)
        } else if self.soft_pity >= self.hard_pity {
            Some("soft pity must start before hard pity"@)
        } else if self.hard_pity == 0 || self.hard_pity > self.num_items - self.jackpot_items + 1 {
            Some("hard pity must be reachable before natural pool exhaustion"@)
        } else if !multiplier_bits_valid(self.multiplier_bits) {
            Some("the soft-pity multiplier must be at least 1"@)
        } else {
            None
        }
    }

    /// The pool breaks none of the rules of `validate`.
    pub open spec fn is_valid(self) -> bool {
        self.validation_error() is None
    }

    /// Checks the pool's shape: the tier counts fit in a `u32` and add up to
    /// a non-zero item count, there is a jackpot, soft pity starts before hard
    /// pity, hard pity comes no later than the pull on which only jackpots
    /// are left, and the multiplier is a finite number of at least 1.
    pub fn validate(&self) -> (checked: Result<(), &'static str>)
        ensures
            match checked {
                Ok(()) => self.is_valid(),
                Err(message) => self.validation_error() == Some(message@),
            },
            checked is Ok <==> {
                &&& self.num_items > 0
                &&& self.jackpot_items + self.gold_items + self.silver_items + self.normal_items
                    == self.num_items
                &&& self.jackpot_items > 0
                &&& self.soft_pity < self.hard_pity
                &&& self.hard_pity <= self.num_items - self.jackpot_items + 1
                &&& 0x3F80_0000 <= self.multiplier_bits < 0x7F80_0000
            },
    {
        let categorized_items = match self.jackpot_items.checked_add(self.gold_items) {
            Some(count) => match count.checked_add(self.silver_items) {
                Some(count) => count.checked_add(self.normal_items),
                None => None,
            },
            None => None,
        };
        let categorized_items = match categorized_items {
            Some(count) => count,
            None => {
                return Err("item counts are too large");
            },
        };
        if self.num_items == 0 || categorized_items != self.num_items {
            return Err("tier counts must add up to the total item count");
        }
        if self.jackpot_items == 0 {
            return Err("the pool needs at least one jackpot");
        }
        if self.soft_pity >= self.hard_pity {
            return Err("soft pity must start before hard pity");
        }
        if self.hard_pity == 0 || self.hard_pity > self.num_items - self.jackpot_items + 1 {
            return Err("hard pity must be reachable before natural pool exhaustion");
        }
        if !(0x3F80_0000 <= self.multiplier_bits && self.multiplier_bits < 0x7F80_0000) {
            return Err("the soft-pity multiplier must be at least 1");
        }
        Ok(())
    }
}

impl PoolState {
    /// The untouched state of `pool`: every item left, no pull made.
    pub open spec fn initial(pool: Pool) -> PoolState {
        PoolState {
            remaining_items: pool.num_items,
            remaining_jackpots: pool.jackpot_items,
            remaining_gold: pool.gold_items,
            remaining_silver: pool.silver_items,
            remaining_normal: pool.normal_items,
            pulls_made: 0,
            misses_since_jackpot: 0,
        }
    }

    /// The untouched state of `pool`: every item left, no pull made.
    pub fn new(pool: &Pool) -> (state: Self)
        ensures
            state == PoolState::initial(*pool),
            state.remaining_items == pool.num_items,
            state.remaining_jackpots == pool.jackpot_items,
            state.remaining_gold == pool.gold_items,
            state.remaining_silver == pool.silver_items,
            state.remaining_normal == pool.normal_items,
            state.pulls_made == 0,
            state.misses_since_jackpot == 0,
            pool.tier_total() == pool.num_items ==> state.is_consistent(),
    {
        PoolState {
            remaining_items: pool.num_items,
            remaining_jackpots: pool.jackpot_items,
            remaining_gold: pool.gold_items,
            remaining_silver: pool.silver_items,
            remaining_normal: pool.normal_items,
            pulls_made: 0,
            misses_since_jackpot: 0,
        }
    }

    /// How many items of the tier of `item` are left.
    pub open spec fn tier_count(self, item: Item) -> u32 {
        match item {
            Item::Jackpot => self.remaining_jackpots,
            Item::Gold => self.remaining_gold,
            Item::Silver => self.remaining_silver,
            Item::Normal => self.remaining_normal,
        }
    }

    /// How many items that are not jackpots are left in the four tiers.
    pub open spec fn non_jackpots(self) -> int {
        self.remaining_gold + self.remaining_silver + self.remaining_normal
    }

    /// A pull of `item` is recorded exactly when the pool and the item's tier
    /// are both non-empty.
    pub open spec fn can_pull(self, item: Item) -> bool {
        self.remaining_items > 0 && self.tier_count(item) > 0
    }

    /// The counters that a recorded pull of `item` increments stay within `u32`.
    pub open spec fn pull_fits(self, item: Item) -> bool {
        &&& self.pulls_made < u32::MAX
        &&& item != Item::Jackpot ==> self.misses_since_jackpot < u32::MAX
    }

    /// The state after a recorded pull of `item`: one item fewer in the pool
    /// and in its tier, one pull more, and the pity reset by a jackpot or
    /// advanced by anything else.
    pub open spec fn after_pull(self, item: Item) -> PoolState {
        PoolState {
            remaining_items: (self.remaining_items - 1) as u32,
            remaining_jackpots: if item == Item::Jackpot {
                (self.remaining_jackpots - 1) as u32
            } else {
                self.remaining_jackpots
            },
            remaining_gold: if item == Item::Gold {
                (self.remaining_gold - 1) as u32
            } else {
                self.remaining_gold
            },
            remaining_silver: if item == Item::Silver {
                (self.remaining_silver - 1) as u32
            } else {
                self.remaining_silver
            },
            remaining_normal: if item == Item::Normal {
                (self.remaining_normal - 1) as u32
            } else {
                self.remaining_normal
            },
            pulls_made: (self.pulls_made + 1) as u32,
            misses_since_jackpot: if item == Item::Jackpot {
                0
            } else {
                (self.misses_since_jackpot + 1) as u32
            },
        }
    }

    /// The tier that a miss takes an item from: normal first, then silver,
    /// then gold; none when no such item is left.
    pub open spec fn miss_choice(self) -> Option<Item> {
        if self.remaining_normal > 0 {
            Some(Item::Normal)
        } else if self.remaining_silver > 0 {
            Some(Item::Silver)
        } else if self.remaining_gold > 0 {
            Some(Item::Gold)
        } else {
            None
        }
    }

    /// The state after a recorded miss, or `None` when `record_miss` would
    /// record nothing.
    pub open spec fn miss_step(self) -> Option<PoolState> {
        match self.miss_choice() {
            Some(item) => if self.can_pull(item) {
                Some(self.after_pull(item))
            } else {
                None
            },
            None => None,
        }
    }

    /// The tier that a draw takes an item from: the jackpot tier when the
    /// draw is a jackpot, else the tier of a miss.
    pub open spec fn draw_choice(self, jackpot: bool) -> Option<Item> {
        if jackpot {
            Some(Item::Jackpot)
        } else {
            self.miss_choice()
        }
    }

    /// The bookkeeping agrees with itself: the pool holds exactly the items of
    /// its tiers, the pity never counts more misses than there were pulls, and
    /// the pulls made and the items left together fit in a `u32`.
    pub open spec fn is_consistent(self) -> bool {
        &&& self.remaining_items == self.remaining_jackpots + self.non_jackpots()
        &&& self.misses_since_jackpot <= self.pulls_made
        &&& self.pulls_made + self.remaining_items <= u32::MAX
    }

    /// Whether the bookkeeping agrees with itself, as `is_consistent` states.
    pub fn consistent(&self) -> (consistent: bool)
        ensures
            consistent == self.is_consistent(),
    {
        let tiers = self.remaining_jackpots as u64 + self.remaining_gold as u64
            + self.remaining_silver as u64 + self.remaining_normal as u64;
        self.remaining_items as u64 == tiers && self.misses_since_jackpot <= self.pulls_made
            && self.pulls_made as u64 + self.remaining_items as u64 <= 0xFFFF_FFFF
    }

    /// Records one pull of `item`. Returns `false`, and changes nothing, when
    /// the pool or the item's tier is empty.
    pub fn record_pull(&mut self, item: Item) -> (recorded: bool)
        requires
            old(self).can_pull(item) ==> old(self).pull_fits(item),
        ensures
            recorded == old(self).can_pull(item),
            recorded ==> *final(self) == old(self).after_pull(item),
            !recorded ==> *final(self) == *old(self),
            recorded <==> (old(self).remaining_items > 0 && match item {
                Item::Jackpot => old(self).remaining_jackpots > 0,
                Item::Gold => old(self).remaining_gold > 0,
                Item::Silver => old(self).remaining_silver > 0,
                Item::Normal => old(self).remaining_normal > 0,
            }),
            recorded ==> {
                &&& final(self).remaining_items == old(self).remaining_items - 1
                &&& final(self).pulls_made == old(self).pulls_made + 1
                &&& final(self).remaining_jackpots == old(self).remaining_jackpots - (
                if item == Item::Jackpot {
                    1int
                } else {
                    0int
                })
                &&& final(self).remaining_gold == old(self).remaining_gold - (if item == Item::Gold {
                    1int
                } else {
                    0int
                })
                &&& final(self).remaining_silver == old(self).remaining_silver - (
                if item == Item::Silver {
                    1int
                } else {
                    0int
                })
                &&& final(self).remaining_normal == old(self).remaining_normal - (
                if item == Item::Normal {
                    1int
                } else {
                    0int
                })
                &&& final(self).misses_since_jackpot == if item == Item::Jackpot {
                    0int
                } else {
                    old(self).misses_since_jackpot + 1
                }
            },
            old(self).is_consistent() ==> final(self).is_consistent(),
            final(self).pulls_made + final(self).remaining_items == old(self).pulls_made
                + old(self).remaining_items,
    {
        if self.remaining_items == 0 {
            return false;
        }
        match item {
            Item::Jackpot => {
                if self.remaining_jackpots == 0 {
                    return false;
                }
                self.remaining_jackpots = self.remaining_jackpots - 1;
            },
            Item::Gold => {
                if self.remaining_gold == 0 {
                    return false;
                }
                self.remaining_gold = self.remaining_gold - 1;
            },
            Item::Silver => {
                if self.remaining_silver == 0 {
                    return false;
                }
                self.remaining_silver = self.remaining_silver - 1;
            },
            Item::Normal => {
                if self.remaining_normal == 0 {
                    return false;
                }
                self.remaining_normal = self.remaining_normal - 1;
            },
        }
        if item == Item::Jackpot {
            self.misses_since_jackpot = 0;
        } else {
            self.misses_since_jackpot = self.misses_since_jackpot + 1;
        }
        self.remaining_items = self.remaining_items - 1;
        self.pulls_made = self.pulls_made + 1;
        true
    }

    /// The tier that the next miss takes an item from: normal first, then
    /// silver, then gold.
    pub fn miss_item(&self) -> (item: Option<Item>)
        ensures
            item == self.miss_choice(),
            self.remaining_normal > 0 ==> item == Some(Item::Normal),
            self.remaining_normal == 0 && self.remaining_silver > 0 ==> item == Some(Item::Silver),
            self.remaining_normal == 0 && self.remaining_silver == 0 && self.remaining_gold > 0
                ==> item == Some(Item::Gold),
            self.remaining_normal == 0 && self.remaining_silver == 0 && self.remaining_gold == 0
                ==> item is None,
    {
        if self.remaining_normal > 0 {
            Some(Item::Normal)
        } else if self.remaining_silver > 0 {
            Some(Item::Silver)
        } else if self.remaining_gold > 0 {
            Some(Item::Gold)
        } else {
            None
        }
    }

    /// Records a pull that is not a jackpot, taken from the tier that
    /// `miss_item` names. Returns `false`, and changes nothing, when no such
    /// item is left or the pool is empty.
    pub fn record_miss(&mut self) -> (recorded: bool)
        requires
            old(self).miss_choice() matches Some(item) ==> (old(self).can_pull(item)
                ==> old(self).pull_fits(item)),
        ensures
            recorded == (old(self).miss_choice() matches Some(item) && old(self).can_pull(item)),
            recorded ==> *final(self) == old(self).after_pull(old(self).miss_choice().unwrap()),
            !recorded ==> *final(self) == *old(self),
            recorded ==> final(self).remaining_jackpots == old(self).remaining_jackpots,
            recorded <==> (old(self).remaining_items > 0 && old(self).remaining_normal
                + old(self).remaining_silver + old(self).remaining_gold > 0),
            recorded ==> final(self).remaining_items == old(self).remaining_items - 1,
            recorded ==> final(self).pulls_made == old(self).pulls_made + 1,
            recorded && old(self).remaining_normal > 0 ==> {
                &&& final(self).remaining_normal == old(self).remaining_normal - 1
                &&& final(self).remaining_silver == old(self).remaining_silver
                &&& final(self).remaining_gold == old(self).remaining_gold
            },
            recorded && old(self).remaining_normal == 0 && old(self).remaining_silver > 0 ==> {
                &&& final(self).remaining_normal == 0
                &&& final(self).remaining_silver == old(self).remaining_silver - 1
                &&& final(self).remaining_gold == old(self).remaining_gold
            },
            recorded && old(self).remaining_normal == 0 && old(self).remaining_silver == 0 ==> {
                &&& final(self).remaining_normal == 0
                &&& final(self).remaining_silver == 0
                &&& final(self).remaining_gold == old(self).remaining_gold - 1
            },
            recorded ==> final(self).misses_since_jackpot == old(self).misses_since_jackpot + 1,
            old(self).is_consistent() ==> final(self).is_consistent(),
    {
        let item = match self.miss_item() {
            Some(item) => item,
            None => {
                return false;
            },
        };
        self.record_pull(item)
    }

    /// Records the outcome of one draw: a jackpot when `jackpot` holds,
    /// otherwise a miss as `record_miss` takes it. Returns the item recorded,
    /// or `None`, changing nothing, when it cannot be recorded.
    pub fn draw(&mut self, jackpot: bool) -> (drawn: Option<Item>)
        requires
            old(self).draw_choice(jackpot) matches Some(item) ==> (old(self).can_pull(item)
                ==> old(self).pull_fits(item)),
        ensures
            drawn == (match old(self).draw_choice(jackpot) {
                Some(item) => if old(self).can_pull(item) {
                    Some(item)
                } else {
                    None
                },
                None => None,
            }),
            drawn matches Some(item) ==> *final(self) == old(self).after_pull(item),
            drawn is None ==> *final(self) == *old(self),
            jackpot ==> (drawn == Some(Item::Jackpot) <==> (old(self).remaining_items > 0
                && old(self).remaining_jackpots > 0)),
            jackpot ==> (drawn is None || drawn == Some(Item::Jackpot)),
            !jackpot && old(self).remaining_items > 0 && old(self).remaining_normal > 0 ==> drawn
                == Some(Item::Normal),
            !jackpot && old(self).remaining_items > 0 && old(self).remaining_normal == 0 && old(
                self,
            ).remaining_silver > 0 ==> drawn == Some(Item::Silver),
            !jackpot && old(self).remaining_items > 0 && old(self).remaining_normal == 0 && old(
                self,
            ).remaining_silver == 0 && old(self).remaining_gold > 0 ==> drawn == Some(Item::Gold),
            !jackpot && (old(self).remaining_items == 0 || old(self).remaining_normal + old(
                self,
            ).remaining_silver + old(self).remaining_gold == 0) ==> drawn is None,
            !jackpot ==> (drawn is Some <==> old(self).miss_step() is Some),
            !jackpot && drawn is Some ==> *final(self) == old(self).miss_step().unwrap(),
            old(self).is_consistent() ==> final(self).is_consistent(),
    {
        let choice = if jackpot {
            Some(Item::Jackpot)
        } else {
            self.miss_item()
        };
        match choice {
            Some(item) => {
                if self.record_pull(item) {
                    Some(item)
                } else {
                    None
                }
            },
            None => None,
        }
    }
}

} // verus!
