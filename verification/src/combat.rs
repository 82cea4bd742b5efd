//! What an entity carries into a fight: whether it may be attacked, and for how long it is spared
//! after a hit.
use vstd::prelude::*;

verus! {

/// Standard invulnerability duration after a hit, in ticks: half a second.
pub const DEFAULT_INVULNERABILITY_TICKS: u32 = 10;

/// The part of a fight that is state rather than kind.
#[derive(Clone, Copy, Debug, PartialEq, Eq, Structural)]
pub struct CombatProperties {
    /// Whether the entity may be attacked at all. Some, such as markers and area effect clouds,
    /// may not.
    pub attackable: bool,
    /// Ticks of invulnerability left. An entity that has just been hurt is spared for a short
    /// time, so that one blow is not counted many times; it cannot be damaged while this is above
    /// nought.
    pub invulnerability_ticks: u32,
}

/// Whether an entity in this state can be damaged.
pub open spec fn damageable(c: CombatProperties) -> bool {
    c.attackable && c.invulnerability_ticks == 0
}

/// The state one tick later: a tick less of being spared, where there is any left.
pub open spec fn ticked(c: CombatProperties) -> CombatProperties {
    CombatProperties {
        invulnerability_ticks: if c.invulnerability_ticks > 0 {
            (c.invulnerability_ticks - 1) as u32
        } else {
            0
        },
        ..c
    }
}

/// The state `n` ticks later.
pub open spec fn after_ticks(c: CombatProperties, n: nat) -> CombatProperties
    decreases n,
{
    if n == 0 {
        c
    } else {
        ticked(after_ticks(c, (n - 1) as nat))
    }
}

/// Spared for `ticks` ticks, an entity cannot be damaged through fewer ticks than that; once that
/// many have passed it can be again, if it may be attacked at all.
pub proof fn lemma_spared_for_its_ticks(c: CombatProperties, ticks: u32, n: nat)
    ensures
        after_ticks(CombatProperties { invulnerability_ticks: ticks, ..c }, n).attackable
            == c.attackable,
        after_ticks(CombatProperties { invulnerability_ticks: ticks, ..c }, n).invulnerability_ticks
            == if n < ticks {
            ticks - n
        } else {
            0
        },
        n < ticks ==> !damageable(after_ticks(CombatProperties { invulnerability_ticks: ticks, ..c }, n)),
        n >= ticks ==> damageable(after_ticks(CombatProperties { invulnerability_ticks: ticks, ..c }, n))
            == c.attackable,
    decreases n,
{
    if n > 0 {
        lemma_spared_for_its_ticks(c, ticks, (n - 1) as nat);
    }
}

impl Default for CombatProperties {
    /// Attackable, and not spared.
    fn default() -> (r: Self)
        ensures
            r == (CombatProperties { attackable: true, invulnerability_ticks: 0 }),
    {
        CombatProperties { attackable: true, invulnerability_ticks: 0 }
    }
}

impl CombatProperties {
    /// Whether the entity can be damaged now.
    pub fn can_be_damaged(&self) -> (r: bool)
        ensures
            r == damageable(*self),
    {
        self.attackable && self.invulnerability_ticks == 0
    }

    /// Spares the entity for `ticks` ticks.
    pub fn set_invulnerable(&mut self, ticks: u32)
        ensures
            *final(self) == (CombatProperties { invulnerability_ticks: ticks, ..*old(self) }),
    {
        self.invulnerability_ticks = ticks;
    }

    /// Spares the entity for the standard time.
    pub fn set_default_invulnerability(&mut self)
        ensures
            *final(self) == (CombatProperties {
                invulnerability_ticks: DEFAULT_INVULNERABILITY_TICKS,
                ..*old(self)
            }),
    {
        self.set_invulnerable(DEFAULT_INVULNERABILITY_TICKS);
    }

    /// One tick passing. Returns whether the entity was spared and no longer is.
    pub fn tick(&mut self) -> (r: bool)
        ensures
            *final(self) == ticked(*old(self)),
            r == (old(self).invulnerability_ticks == 1),
    {
        if self.invulnerability_ticks > 0 {
            self.invulnerability_ticks = self.invulnerability_ticks - 1;
            self.invulnerability_ticks == 0
        } else {
            false
        }
    }

    /// Ends the invulnerability at once.
    pub fn clear_invulnerability(&mut self)
        ensures
            *final(self) == (CombatProperties { invulnerability_ticks: 0, ..*old(self) }),
    {
        self.invulnerability_ticks = 0;
    }
}

} // verus!
