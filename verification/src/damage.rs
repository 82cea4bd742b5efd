//! Whether a blow can touch its victim at all, how the difficulty bears on it, and how far an
//! attack has recharged.
//!
//! What a blow comes to in health is arithmetic on fractions and stays with the caller; what is
//! decided here is which of the rules apply.
use crate::damage_types::{
    fall_kinds, fire_kinds, invulnerability_bypassing, kind_scaling, DamageType, Scaling,
};
use vstd::prelude::*;

verus! {

/// How long a thing is hard to hit again after being hit, in ticks.
pub const INVULNERABLE_TICKS: u8 = 20;

/// What a victim cannot be hurt by at all.
#[derive(Debug, Clone, Copy, Default, PartialEq, Eq, Structural)]
pub struct Immunities {
    /// Flagged invulnerable, as a creative player or a command-spawned entity is.
    pub invulnerable: bool,
    /// Unburnable, as everything native to the nether is.
    pub fire: bool,
    /// Unhurt by landing, as an iron golem is.
    pub falling: bool,
}

/// Whether a blow of `kind` can touch a victim with these immunities.
pub open spec fn hurts(kind: DamageType, victim: Immunities) -> bool {
    !(victim.invulnerable && !invulnerability_bypassing().contains(kind)) && !(victim.fire
        && fire_kinds().contains(kind)) && !(victim.falling && fall_kinds().contains(kind))
}

/// What stops a blow, group by group: a victim immune to fire is not hurt by any kind in the
/// packs' `is_fire` group, one immune to falling by none in `is_fall`, and one flagged invulnerable
/// by none but those in `bypasses_invulnerability`. Each immunity matters only for its own group,
/// and a victim with none of them is hurt by everything.
pub proof fn lemma_each_immunity_stops_its_group(kind: DamageType, victim: Immunities)
    ensures
        victim.fire && fire_kinds().contains(kind) ==> !hurts(kind, victim),
        victim.falling && fall_kinds().contains(kind) ==> !hurts(kind, victim),
        victim.invulnerable && !invulnerability_bypassing().contains(kind) ==> !hurts(kind, victim),
        !fire_kinds().contains(kind) ==> hurts(kind, Immunities { fire: true, ..victim }) == hurts(
            kind,
            Immunities { fire: false, ..victim },
        ),
        !fall_kinds().contains(kind) ==> hurts(kind, Immunities { falling: true, ..victim })
            == hurts(kind, Immunities { falling: false, ..victim }),
        invulnerability_bypassing().contains(kind) ==> hurts(
            kind,
            Immunities { invulnerable: true, ..victim },
        ) == hurts(kind, Immunities { invulnerable: false, ..victim }),
        hurts(kind, Immunities { invulnerable: false, fire: false, falling: false }),
{
}

/// Whether a blow can touch the victim at all, before any arithmetic.
///
/// Three things stop it outright: the victim being flagged invulnerable, which almost everything
/// respects; being immune to fire, which most of the nether is; and being immune to falling, which
/// nothing that walks is. Anything that gets past here still has to get past the reeling and the
/// armour.
pub fn can_be_hurt(kind: DamageType, victim: Immunities) -> (r: bool)
    ensures
        r == hurts(kind, victim),
{
    if victim.invulnerable && !kind.goes_through_invulnerability() {
        return false;
    }
    if victim.fire && kind.is_fire() {
        return false;
    }
    if victim.falling && kind.is_fall() {
        return false;
    }
    true
}

/// How hard the world is.
#[derive(Debug, Clone, Copy, PartialEq, Eq, Structural)]
pub enum Difficulty {
    Peaceful,
    Easy,
    Normal,
    Hard,
}

impl Default for Difficulty {
    /// Normal, as a new world starts.
    fn default() -> (r: Self)
        ensures
            r == Difficulty::Normal,
    {
        Difficulty::Normal
    }
}

/// The number a difficulty travels as.
pub open spec fn difficulty_wire(d: Difficulty) -> i32 {
    match d {
        Difficulty::Peaceful => 0,
        Difficulty::Easy => 1,
        Difficulty::Normal => 2,
        Difficulty::Hard => 3,
    }
}

/// The name a difficulty is written as.
pub open spec fn difficulty_name(d: Difficulty) -> Seq<char> {
    match d {
        Difficulty::Peaceful => "peaceful"@,
        Difficulty::Easy => "easy"@,
        Difficulty::Normal => "normal"@,
        Difficulty::Hard => "hard"@,
    }
}

/// The code of a character once an ASCII capital is made small.
pub open spec fn lower_code(c: char) -> u32 {
    if 65 <= (c as u32) && (c as u32) <= 90 {
        ((c as u32) + 32) as u32
    } else {
        c as u32
    }
}

/// Whether `s` is `word` once its ASCII capitals are made small.
pub open spec fn lowers_to(s: Seq<char>, word: Seq<char>) -> bool {
    s.len() == word.len() && forall|i: int| 0 <= i < s.len() ==> lower_code(s[i]) == word[i] as u32
}

/// Whether `s` is `word` once its ASCII capitals are made small.
fn same_ignoring_case(s: &str, word: &str) -> (r: bool)
    ensures
        r == lowers_to(s@, word@),
{
    let n = s.unicode_len();
    if n != word.unicode_len() {
        return false;
    }
    let mut i: usize = 0;
    while i < n
        invariant
            n == s@.len(),
            n == word@.len(),
            i <= n,
            forall|j: int| 0 <= j < i ==> lower_code(s@[j]) == word@[j] as u32,
        decreases n - i,
    {
        let c = s.get_char(i) as u32;
        let lowered = if 65 <= c && c <= 90 {
            c + 32
        } else {
            c
        };
        if lowered != word.get_char(i) as u32 {
            return false;
        }
        i = i + 1;
    }
    true
}

impl Difficulty {
    /// The number it travels as.
    pub fn wire_id(self) -> (r: i32)
        ensures
            r == difficulty_wire(self),
    {
        match self {
            Difficulty::Peaceful => 0,
            Difficulty::Easy => 1,
            Difficulty::Normal => 2,
            Difficulty::Hard => 3,
        }
    }

    /// Reads a difficulty as an operator writes it, in capitals or not.
    pub fn from_name(name: &str) -> (r: Option<Self>)
        ensures
            match r {
                Some(d) => lowers_to(name@, difficulty_name(d)),
                None => forall|d: Difficulty| !lowers_to(name@, #[trigger] difficulty_name(d)),
            },
    {
        if same_ignoring_case(name, "peaceful") {
            Some(Difficulty::Peaceful)
        } else if same_ignoring_case(name, "easy") {
            Some(Difficulty::Easy)
        } else if same_ignoring_case(name, "normal") {
            Some(Difficulty::Normal)
        } else if same_ignoring_case(name, "hard") {
            Some(Difficulty::Hard)
        } else {
            None
        }
    }
}

/// Whether the difficulty moves a blow of `kind`: never, always, or only when a mob dealt it.
pub open spec fn moved_by_difficulty(kind: DamageType, by_a_mob: bool) -> bool {
    match kind_scaling(kind) {
        Scaling::Never => false,
        Scaling::WhenCausedByLivingNonPlayer => by_a_mob,
        Scaling::Always => true,
    }
}

/// Whether the difficulty moves a blow of `kind`, where `by_a_mob` says whether something living
/// that is not a player dealt it. Only such a blow is softened on easy and sharpened on hard; a
/// player's blow and the world's own hazards land the same whatever the difficulty.
pub fn difficulty_moves(kind: DamageType, by_a_mob: bool) -> (r: bool)
    ensures
        r == moved_by_difficulty(kind, by_a_mob),
{
    match kind.scaling() {
        Scaling::Never => false,
        Scaling::WhenCausedByLivingNonPlayer => by_a_mob,
        Scaling::Always => true,
    }
}

/// How far an attack has recharged, and how long since the last one.
#[derive(Debug, Clone, Copy, Default, PartialEq, Eq, Structural)]
pub struct Swing {
    /// Ticks since the last swing.
    pub ticker: u32,
}

impl Swing {
    /// One tick passing.
    pub fn tick(&mut self)
        ensures
            final(self).ticker == if old(self).ticker == u32::MAX {
                u32::MAX
            } else {
                (old(self).ticker + 1) as u32
            },
    {
        if self.ticker < u32::MAX {
            self.ticker = self.ticker + 1;
        }
    }

    /// A swing taken, which starts the recharge over.
    pub fn swung(&mut self)
        ensures
            final(self).ticker == 0,
    {
        self.ticker = 0;
    }
}

/// What the target is.
#[derive(Debug, Clone, Copy, Default, PartialEq, Eq, Structural)]
pub struct Target {
    /// Whether it is something that lives, which is what a critical and a sweep need.
    pub living: bool,
}

} // verus!
