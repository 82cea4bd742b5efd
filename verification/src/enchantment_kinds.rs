//! What an enchantment's effects hook into, and where an enchantment can be worn.
use vstd::prelude::*;

verus! {

/// What an effect changes.
#[derive(Debug, Clone, Copy, PartialEq, Eq)]
pub enum Hook {
    /// Adds to what a blow is worth. Sharpness and its kin.
    Damage,
    /// Takes off what a blow comes to. Protection and its kin.
    Protection,
    /// Adds to how hard a blow pushes.
    Knockback,
    /// Moves one of the wearer's own numbers.
    Attribute {
        attribute: &'static str,
        /// What the modifier is called, which is how it is taken off again.
        name: &'static str,
        operation: Operation,
    },
}

/// How a modifier changes an attribute. The same three the attribute system has.
#[derive(Debug, Clone, Copy, PartialEq, Eq, Structural)]
pub enum Operation {
    AddValue,
    AddMultipliedBase,
    AddMultipliedTotal,
}

/// When an effect applies.
#[derive(Debug, Clone, Copy, PartialEq)]
pub enum Requires {
    /// Every time.
    Always,
    /// Only for a blow whose kind is, or is not, in each of these groups.
    ///
    /// Feather falling is protection that asks whether the blow was a fall.
    DamageTags(&'static [(&'static str, bool)]),
    /// Something this server does not read, so the effect never applies. Being cautious
    /// the other way would have an enchantment protect against everything.
    SomethingUnread,
}

/// Where an enchanted item has to be for the enchantment to count.
#[allow(non_camel_case_types, clippy::upper_case_acronyms)]
#[derive(Debug, Clone, Copy, PartialEq, Eq, Structural, Hash)]
pub enum EnchantmentSlot {
    MAINHAND,
    OFFHAND,
    HEAD,
    CHEST,
    LEGS,
    FEET,
    ARMOR,
    ANY,
    HAND,
}

/// How an enchantment's name is written: the translation key a client looks it up by.
#[derive(Clone, Debug)]
pub struct Description {
    pub translate: String,
}

} // verus!
