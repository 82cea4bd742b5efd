//! What is left lying on the ground: how long it waits, and what an amount of experience breaks
//! into.
use crate::inventory::InventorySlot;
use vstd::prelude::*;

verus! {

/// How long a dropped thing lies there before it gives up, in ticks.
///
/// Five minutes, for both items and experience.
pub const LIFETIME: u32 = 6000;

/// How long before anyone may pick up something that was just dropped.
pub const PICKUP_DELAY: u16 = 10;

/// The largest a stack goes before it stops taking more.
pub const MAX_STACK: u8 = 64;

/// An item lying on the ground.
pub struct DroppedItem {
    pub stack: InventorySlot,
    /// Ticks before anyone may pick it up. A thing a player threw waits longer, so it does not
    /// jump straight back into their hand.
    pub pickup_delay: u16,
    /// Ticks it has lain there.
    pub age: u32,
}

impl DroppedItem {
    /// Something that has just been dropped by the world rather than by a player.
    pub fn new(stack: InventorySlot) -> (r: Self)
        ensures
            r.stack == stack,
            r.pickup_delay == PICKUP_DELAY,
            r.age == 0,
    {
        DroppedItem { stack, pickup_delay: PICKUP_DELAY, age: 0 }
    }

    /// Whether it has lain there long enough to give up.
    pub fn expired(&self) -> (r: bool)
        ensures
            r == (self.age >= LIFETIME),
    {
        self.age >= LIFETIME
    }

    /// Whether anyone may pick it up yet.
    pub fn can_be_taken(&self) -> (r: bool)
        ensures
            r == (self.pickup_delay == 0),
    {
        self.pickup_delay == 0
    }

    /// Whether it will join another of its kind.
    ///
    /// A stack that is already full has nothing to gain, and one that is about to vanish should not
    /// take a fresher one down with it.
    pub fn will_merge(&self) -> (r: bool)
        ensures
            r == (self.age < LIFETIME && self.stack.count < MAX_STACK),
    {
        self.age < LIFETIME && self.stack.count < MAX_STACK as i32
    }
}

/// Something that has given up never joins another.
pub proof fn lemma_expired_never_merges(item: DroppedItem)
    requires
        item.age >= LIFETIME,
    ensures
        !(item.age < LIFETIME && item.stack.count < MAX_STACK),
{
}

/// Experience lying on the ground.
#[derive(Debug, Clone, Copy, PartialEq, Eq, Structural)]
pub struct ExperienceOrb {
    pub value: u32,
    pub age: u32,
}

impl ExperienceOrb {
    pub fn new(value: u32) -> (r: Self)
        ensures
            r == (ExperienceOrb { value, age: 0 }),
    {
        ExperienceOrb { value, age: 0 }
    }

    /// Whether it has lain there long enough to give up.
    pub fn expired(&self) -> (r: bool)
        ensures
            r == (self.age >= LIFETIME),
    {
        self.age >= LIFETIME
    }
}

/// The largest orb `amount` of experience makes: the largest of the sizes the game gives
/// experience in — 2477, 1237, 617, 307, 149, 73, 37, 17, 7 and 3 — that it reaches, and one where
/// it reaches none of them.
pub open spec fn orb_size(amount: int) -> u32 {
    if amount >= 2477 {
        2477
    } else if amount >= 1237 {
        1237
    } else if amount >= 617 {
        617
    } else if amount >= 307 {
        307
    } else if amount >= 149 {
        149
    } else if amount >= 73 {
        73
    } else if amount >= 37 {
        37
    } else if amount >= 17 {
        17
    } else if amount >= 7 {
        7
    } else if amount >= 3 {
        3
    } else {
        1
    }
}

/// The largest orb an amount makes is the largest of the game's sizes that the amount reaches,
/// or one where it reaches none: it is one of them, it is no more than the amount, and no size
/// the amount reaches is larger. So each size makes an orb of exactly itself. `sizes` is the game's
/// list of sizes, largest first.
pub proof fn lemma_largest_orb_is_the_largest_size_reached(amount: int, sizes: Seq<u32>)
    requires
        sizes == seq![2477u32, 1237, 617, 307, 149, 73, 37, 17, 7, 3],
    ensures
        orb_size(amount) == 1 || sizes.contains(orb_size(amount)),
        amount >= 1 ==> orb_size(amount) <= amount,
        forall|i: int|
            0 <= i < sizes.len() && #[trigger] sizes[i] <= amount ==> sizes[i]
                <= orb_size(amount),
        amount < 3 ==> orb_size(amount) == 1,
        forall|i: int| 0 <= i < sizes.len() ==> orb_size(#[trigger] sizes[i] as int) == sizes[i],
{
    assert(sizes[0] == 2477 && sizes[1] == 1237 && sizes[2] == 617 && sizes[3] == 307 && sizes[4]
        == 149 && sizes[5] == 73 && sizes[6] == 37 && sizes[7] == 17 && sizes[8] == 7 && sizes[9]
        == 3);
    if orb_size(amount) != 1 {
        let r = orb_size(amount);
        let i: int = if r == 2477 { 0 } else if r == 1237 { 1 } else if r == 617 { 2 } else if r == 307 {
            3
        } else if r == 149 { 4 } else if r == 73 { 5 } else if r == 37 { 6 } else if r == 17 {
            7
        } else if r == 7 { 8 } else { 9 };
        assert(sizes[i] == r);
    }
}

/// What `amount` of experience breaks into: the largest orb it makes, then what the rest breaks
/// into.
pub open spec fn orbs_of(amount: int) -> Seq<u32>
    decreases amount,
{
    if amount <= 0 {
        Seq::empty()
    } else {
        seq![orb_size(amount)] + orbs_of(amount - orb_size(amount))
    }
}

/// What a run of orbs adds up to.
pub open spec fn total(orbs: Seq<u32>) -> int
    decreases orbs.len(),
{
    if orbs.len() == 0 {
        0
    } else {
        orbs[0] + total(orbs.drop_first())
    }
}

/// The largest orb this much experience will make.
pub fn largest_orb(amount: u32) -> (r: u32)
    ensures
        r == orb_size(amount as int),
{
    if amount >= 2477 {
        2477
    } else if amount >= 1237 {
        1237
    } else if amount >= 617 {
        617
    } else if amount >= 307 {
        307
    } else if amount >= 149 {
        149
    } else if amount >= 73 {
        73
    } else if amount >= 37 {
        37
    } else if amount >= 17 {
        17
    } else if amount >= 7 {
        7
    } else if amount >= 3 {
        3
    } else {
        1
    }
}

/// An amount of experience breaks into orbs that add up to it, each as large as what is left
/// allows, largest first.
pub proof fn lemma_orbs_add_up(amount: int)
    ensures
        total(orbs_of(amount)) == if amount > 0 {
            amount
        } else {
            0
        },
        forall|i: int, j: int|
            0 <= i < j < orbs_of(amount).len() ==> orbs_of(amount)[i] >= orbs_of(amount)[j],
        forall|i: int| 0 <= i < orbs_of(amount).len() ==> orbs_of(amount)[i] <= amount,
    decreases amount,
{
    if amount > 0 {
        let first = orb_size(amount);
        let rest = orbs_of(amount - first);
        lemma_orbs_add_up(amount - first);
        assert(orbs_of(amount) == seq![first] + rest);
        assert((seq![first] + rest).drop_first() =~= rest);
        assert forall|i: int| 0 <= i < rest.len() implies rest[i] <= first by {
            if rest.len() > 0 {
                lemma_orbs_head(amount - first, i);
            }
        }
    }
}

/// No orb of what `amount` breaks into is larger than the first.
proof fn lemma_orbs_head(amount: int, i: int)
    requires
        0 <= i < orbs_of(amount).len(),
    ensures
        orbs_of(amount)[i] <= orb_size(amount),
        orb_size(amount) <= orb_size(amount + orb_size(amount)),
    decreases amount,
{
    let first = orb_size(amount);
    let rest = orbs_of(amount - first);
    if i > 0 {
        lemma_orbs_head(amount - first, i - 1);
        assert(orbs_of(amount)[i] == rest[i - 1]);
        assert(orb_size(amount - first) <= first) by {
            lemma_size_monotone(amount - first, amount);
        }
    }
    lemma_size_monotone(amount, amount + first);
}

/// A larger amount never makes a smaller largest orb.
proof fn lemma_size_monotone(a: int, b: int)
    requires
        a <= b,
    ensures
        orb_size(a) <= orb_size(b),
{
}

/// What an amount of experience breaks into, largest first.
pub fn orbs_for(amount: u32) -> (r: Vec<u32>)
    ensures
        r@ == orbs_of(amount as int),
        total(r@) == amount,
        forall|i: int, j: int| 0 <= i < j < r@.len() ==> r@[i] >= r@[j],
{
    let mut out: Vec<u32> = Vec::new();
    let mut left = amount;
    proof {
        lemma_orbs_add_up(amount as int);
    }
    while left > 0
        invariant
            left <= amount,
            out@ + orbs_of(left as int) == orbs_of(amount as int),
        decreases left,
    {
        let orb = largest_orb(left);
        proof {
            assert(orbs_of(left as int) == seq![orb] + orbs_of(left - orb));
            assert(out@.push(orb) + orbs_of(left - orb) =~= out@ + orbs_of(left as int));
        }
        out.push(orb);
        left = left - orb;
    }
    assert(out@ =~= out@ + orbs_of(0));
    out
}

} // verus!
