//! The two counters that turn standing somewhere into being hurt by it and are kept in whole ticks:
//! how long something has held its breath, and how long it has left to burn.
//!
//! Each creeps up or down once a tick and produces a blow when it crosses a line. What the blow is
//! worth is a constant the caller holds; what is decided here is whether it comes.
use vstd::prelude::*;

verus! {

/// How full a pair of lungs is, in ticks of air.
pub const FULL_LUNGS: i16 = 300;

/// How far past empty the lungs go before the first mouthful of water.
///
/// Vanilla keeps counting past zero and only starts drowning a second later, which is why the last
/// bubble is not the moment the damage begins.
pub const DROWNING_AT: i16 = -20;

/// How much air a breath at the surface gives back.
pub const BREATH: i16 = 4;

/// How often something on fire is hurt by it, in ticks.
pub const BURN_INTERVAL: i16 = 20;

/// How long standing in fire keeps something alight, in ticks.
pub const FIRE_BURNS_FOR: i16 = 160;

/// How long standing in lava keeps something alight, in ticks.
pub const LAVA_BURNS_FOR: i16 = 300;

/// How far below the bottom of the world the void starts.
pub const VOID_BELOW: i32 = 64;

/// The air left after a tick, and whether the tick cost a mouthful of water.
pub open spec fn breathed(air: i16, underwater: bool, held_longer: bool) -> (i16, bool) {
    if !underwater {
        (if air + BREATH < FULL_LUNGS { (air + BREATH) as i16 } else { FULL_LUNGS }, false)
    } else {
        let left: int = if held_longer { air as int } else { air - 1 };
        if left <= DROWNING_AT {
            (0i16, true)
        } else {
            (left as i16, false)
        }
    }
}

/// A breath taken, or one held: the air left, and whether the tick cost a mouthful of water.
///
/// `held_longer` is the chance a tick of holding costs nothing, which is what respiration is.
pub fn breathe(air: i16, underwater: bool, held_longer: bool) -> (r: (i16, bool))
    requires
        underwater || air <= i16::MAX - BREATH,
        !underwater || held_longer || air > i16::MIN,
    ensures
        r == breathed(air, underwater, held_longer),
{
    if !underwater {
        let filled = air + BREATH;
        return (if filled < FULL_LUNGS { filled } else { FULL_LUNGS }, false);
    }
    let mut left = air;
    if !held_longer {
        left = left - 1;
    }
    if left <= DROWNING_AT {
        (0, true)
    } else {
        (left, false)
    }
}

/// Lungs that start between drowning and full stay there, whatever a tick does to them.
pub proof fn lemma_lungs_stay_in_range(air: i16, underwater: bool, held_longer: bool)
    requires
        DROWNING_AT < air <= FULL_LUNGS,
    ensures
        DROWNING_AT < breathed(air, underwater, held_longer).0 <= FULL_LUNGS,
{
}

/// How long something burns once set alight for `ticks`, when it was already burning for
/// `burning`: a longer fire already going keeps its own time.
pub fn ignite(burning: i16, ticks: i16) -> (r: i16)
    ensures
        r == if burning < ticks { ticks } else { burning },
{
    if burning < ticks {
        ticks
    } else {
        burning
    }
}

/// Whether something is alight, which is what a client is told.
pub fn on_fire(burning: i16) -> (r: bool)
    ensures
        r == (burning > 0),
{
    burning > 0
}

/// The time left to burn after a tick, and whether the tick cost a heart.
pub open spec fn burned(burning: i16, in_lava: bool) -> (i16, bool) {
    if burning <= 0 {
        (burning, false)
    } else {
        ((burning - 1) as i16, burning % BURN_INTERVAL == 0 && !in_lava)
    }
}

/// A tick of burning: the time left, and whether it cost anything, which it does on one tick in
/// twenty.
///
/// Something standing in lava is already being hurt by the lava, so it is not billed twice.
pub fn burn(burning: i16, in_lava: bool) -> (r: (i16, bool))
    ensures
        r == burned(burning, in_lava),
{
    if burning <= 0 {
        return (burning, false);
    }
    (burning - 1, burning % BURN_INTERVAL == 0 && !in_lava)
}

/// How many hearts a fire of `burning` ticks costs out of lava, burning down one tick at a time.
pub open spec fn hearts_paid(burning: i16) -> int
    decreases burning,
{
    if burning <= 0 {
        0
    } else {
        (if burned(burning, false).1 { 1int } else { 0int }) + hearts_paid(burned(burning, false).0)
    }
}

/// Burning costs a heart a second, not a heart a tick: a fire of `burning` ticks costs one heart
/// for every whole twenty of them.
pub proof fn lemma_a_heart_a_second(burning: i16)
    requires
        burning >= 0,
    ensures
        hearts_paid(burning) == (burning as int) / (BURN_INTERVAL as int),
    decreases burning,
{
    if burning > 0 {
        let b = burning as int;
        lemma_a_heart_a_second((burning - 1) as i16);
        assert(b / 20 == (b - 1) / 20 + (if b % 20 == 0 { 1int } else { 0int })) by (nonlinear_arith)
            requires
                b > 0,
        {
        }
    }
}

/// Standing in lava, the flames themselves cost nothing, however long they last.
pub proof fn lemma_lava_bills_no_flames(burning: i16)
    ensures
        !burned(burning, true).1,
{
}

} // verus!
