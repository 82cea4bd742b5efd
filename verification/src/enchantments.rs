//! The enchantments the packs define, and what each one is: where it is worn, what it costs at a
//! table and an anvil, how rare it is and how strong it goes.
//!
//! What an enchantment does to a blow or to its wearer's numbers is arithmetic on fractions and
//! stays with the caller; what is here is the registry itself, numbered in its own order.
use crate::enchantment_kinds::EnchantmentSlot;
use crate::text::{same_text, strip_default_namespace, without_default_namespace};
use crate::wire::{
    enchantment_from_wire_id, enchantment_wire, enchantment_wire_id, first_place,
    lemma_first_place_bounds,
};
use crate::wire_ids::{enchantment_table, ProtocolVersion, ENCHANTMENTS};
use vstd::prelude::*;

verus! {

/// What an enchanting table asks for a level: a base, plus a step for each level past the first.
///
/// Level one is one, not zero: the packs count from one and so does this.
#[derive(Debug, Clone, Copy, PartialEq, Eq, Structural)]
pub struct Cost {
    pub base: i32,
    pub per_level_above_first: i32,
}

impl Cost {
    /// What it comes to at `level`, where one means level one.
    pub fn at(&self, level: u8) -> (r: i64)
        requires
            level >= 1,
        ensures
            r == self.base + self.per_level_above_first * (level - 1),
    {
        let steps = (level - 1) as i64;
        assert(-0x8000_0000 * 254 <= self.per_level_above_first * steps <= 0x7fff_ffff * 254) by (nonlinear_arith)
            requires
                0 <= steps <= 254,
                i32::MIN <= self.per_level_above_first <= i32::MAX,
        ;
        self.base as i64 + self.per_level_above_first as i64 * steps
    }
}

/// An enchantment, as the packs define it.
#[derive(Debug, Clone, Copy)]
pub struct Enchantment {
    /// Where it sits in this server's own registry.
    pub id: u16,
    pub name: &'static str,
    /// The translation key its name is shown by.
    pub description: &'static str,
    pub min_cost: Cost,
    pub max_cost: Cost,
    pub anvil_cost: u8,
    /// Where the item has to be worn for it to count.
    pub slots: &'static [EnchantmentSlot],
    /// The item tag it can be put on.
    pub supported_items: &'static str,
    pub weight: u8,
    pub max_level: u8,
    /// The tag of enchantments it cannot sit beside, where there is one.
    pub exclusive_set: Option<&'static str>,
}

/// The name of each enchantment, in the registry's order, without its namespace.
pub open spec fn enchantment_names() -> Seq<Seq<char>> {
    seq!["aqua_affinity"@, "bane_of_arthropods"@, "binding_curse"@, "blast_protection"@, "breach"@, "channeling"@, "density"@, "depth_strider"@, "efficiency"@, "feather_falling"@, "fire_aspect"@, "fire_protection"@, "flame"@, "fortune"@, "frost_walker"@, "impaling"@, "infinity"@, "knockback"@, "looting"@, "loyalty"@, "luck_of_the_sea"@, "lunge"@, "lure"@, "mending"@, "multishot"@, "piercing"@, "power"@, "projectile_protection"@, "protection"@, "punch"@, "quick_charge"@, "respiration"@, "riptide"@, "sharpness"@, "silk_touch"@, "smite"@, "soul_speed"@, "sweeping_edge"@, "swift_sneak"@, "thorns"@, "unbreaking"@, "vanishing_curse"@, "wind_burst"@]
}

/// The translation key of each enchantment's name.
pub open spec fn enchantment_descriptions() -> Seq<Seq<char>> {
    seq!["enchantment.minecraft.aqua_affinity"@, "enchantment.minecraft.bane_of_arthropods"@, "enchantment.minecraft.binding_curse"@, "enchantment.minecraft.blast_protection"@, "enchantment.minecraft.breach"@, "enchantment.minecraft.channeling"@, "enchantment.minecraft.density"@, "enchantment.minecraft.depth_strider"@, "enchantment.minecraft.efficiency"@, "enchantment.minecraft.feather_falling"@, "enchantment.minecraft.fire_aspect"@, "enchantment.minecraft.fire_protection"@, "enchantment.minecraft.flame"@, "enchantment.minecraft.fortune"@, "enchantment.minecraft.frost_walker"@, "enchantment.minecraft.impaling"@, "enchantment.minecraft.infinity"@, "enchantment.minecraft.knockback"@, "enchantment.minecraft.looting"@, "enchantment.minecraft.loyalty"@, "enchantment.minecraft.luck_of_the_sea"@, "enchantment.minecraft.lunge"@, "enchantment.minecraft.lure"@, "enchantment.minecraft.mending"@, "enchantment.minecraft.multishot"@, "enchantment.minecraft.piercing"@, "enchantment.minecraft.power"@, "enchantment.minecraft.projectile_protection"@, "enchantment.minecraft.protection"@, "enchantment.minecraft.punch"@, "enchantment.minecraft.quick_charge"@, "enchantment.minecraft.respiration"@, "enchantment.minecraft.riptide"@, "enchantment.minecraft.sharpness"@, "enchantment.minecraft.silk_touch"@, "enchantment.minecraft.smite"@, "enchantment.minecraft.soul_speed"@, "enchantment.minecraft.sweeping_edge"@, "enchantment.minecraft.swift_sneak"@, "enchantment.minecraft.thorns"@, "enchantment.minecraft.unbreaking"@, "enchantment.minecraft.vanishing_curse"@, "enchantment.minecraft.wind_burst"@]
}

/// What each enchantment costs at a table, at least and at most.
pub open spec fn enchantment_costs() -> Seq<(Cost, Cost)> {
    seq![(Cost { base: 1, per_level_above_first: 0 }, Cost { base: 41, per_level_above_first: 0 }), (Cost { base: 5, per_level_above_first: 8 }, Cost { base: 25, per_level_above_first: 8 }), (Cost { base: 25, per_level_above_first: 0 }, Cost { base: 50, per_level_above_first: 0 }), (Cost { base: 5, per_level_above_first: 8 }, Cost { base: 13, per_level_above_first: 8 }), (Cost { base: 15, per_level_above_first: 9 }, Cost { base: 65, per_level_above_first: 9 }), (Cost { base: 25, per_level_above_first: 0 }, Cost { base: 50, per_level_above_first: 0 }), (Cost { base: 5, per_level_above_first: 8 }, Cost { base: 25, per_level_above_first: 8 }), (Cost { base: 10, per_level_above_first: 10 }, Cost { base: 25, per_level_above_first: 10 }), (Cost { base: 1, per_level_above_first: 10 }, Cost { base: 51, per_level_above_first: 10 }), (Cost { base: 5, per_level_above_first: 6 }, Cost { base: 11, per_level_above_first: 6 }), (Cost { base: 10, per_level_above_first: 20 }, Cost { base: 60, per_level_above_first: 20 }), (Cost { base: 10, per_level_above_first: 8 }, Cost { base: 18, per_level_above_first: 8 }), (Cost { base: 20, per_level_above_first: 0 }, Cost { base: 50, per_level_above_first: 0 }), (Cost { base: 15, per_level_above_first: 9 }, Cost { base: 65, per_level_above_first: 9 }), (Cost { base: 10, per_level_above_first: 10 }, Cost { base: 25, per_level_above_first: 10 }), (Cost { base: 1, per_level_above_first: 8 }, Cost { base: 21, per_level_above_first: 8 }), (Cost { base: 20, per_level_above_first: 0 }, Cost { base: 50, per_level_above_first: 0 }), (Cost { base: 5, per_level_above_first: 20 }, Cost { base: 55, per_level_above_first: 20 }), (Cost { base: 15, per_level_above_first: 9 }, Cost { base: 65, per_level_above_first: 9 }), (Cost { base: 12, per_level_above_first: 7 }, Cost { base: 50, per_level_above_first: 0 }), (Cost { base: 15, per_level_above_first: 9 }, Cost { base: 65, per_level_above_first: 9 }), (Cost { base: 5, per_level_above_first: 8 }, Cost { base: 25, per_level_above_first: 8 }), (Cost { base: 15, per_level_above_first: 9 }, Cost { base: 65, per_level_above_first: 9 }), (Cost { base: 25, per_level_above_first: 25 }, Cost { base: 75, per_level_above_first: 25 }), (Cost { base: 20, per_level_above_first: 0 }, Cost { base: 50, per_level_above_first: 0 }), (Cost { base: 1, per_level_above_first: 10 }, Cost { base: 50, per_level_above_first: 0 }), (Cost { base: 1, per_level_above_first: 10 }, Cost { base: 16, per_level_above_first: 10 }), (Cost { base: 3, per_level_above_first: 6 }, Cost { base: 9, per_level_above_first: 6 }), (Cost { base: 1, per_level_above_first: 11 }, Cost { base: 12, per_level_above_first: 11 }), (Cost { base: 12, per_level_above_first: 20 }, Cost { base: 37, per_level_above_first: 20 }), (Cost { base: 12, per_level_above_first: 20 }, Cost { base: 50, per_level_above_first: 0 }), (Cost { base: 10, per_level_above_first: 10 }, Cost { base: 40, per_level_above_first: 10 }), (Cost { base: 17, per_level_above_first: 7 }, Cost { base: 50, per_level_above_first: 0 }), (Cost { base: 1, per_level_above_first: 11 }, Cost { base: 21, per_level_above_first: 11 }), (Cost { base: 15, per_level_above_first: 0 }, Cost { base: 65, per_level_above_first: 0 }), (Cost { base: 5, per_level_above_first: 8 }, Cost { base: 25, per_level_above_first: 8 }), (Cost { base: 10, per_level_above_first: 10 }, Cost { base: 25, per_level_above_first: 10 }), (Cost { base: 5, per_level_above_first: 9 }, Cost { base: 20, per_level_above_first: 9 }), (Cost { base: 25, per_level_above_first: 25 }, Cost { base: 75, per_level_above_first: 25 }), (Cost { base: 10, per_level_above_first: 20 }, Cost { base: 60, per_level_above_first: 20 }), (Cost { base: 5, per_level_above_first: 8 }, Cost { base: 55, per_level_above_first: 8 }), (Cost { base: 25, per_level_above_first: 0 }, Cost { base: 50, per_level_above_first: 0 }), (Cost { base: 15, per_level_above_first: 9 }, Cost { base: 65, per_level_above_first: 9 })]
}

/// Where each enchantment is worn for it to count.
pub open spec fn enchantment_slots() -> Seq<Seq<EnchantmentSlot>> {
    seq![seq![EnchantmentSlot::HEAD], seq![EnchantmentSlot::MAINHAND], seq![EnchantmentSlot::ARMOR], seq![EnchantmentSlot::ARMOR], seq![EnchantmentSlot::MAINHAND], seq![EnchantmentSlot::MAINHAND], seq![EnchantmentSlot::MAINHAND], seq![EnchantmentSlot::FEET], seq![EnchantmentSlot::MAINHAND], seq![EnchantmentSlot::ARMOR], seq![EnchantmentSlot::MAINHAND], seq![EnchantmentSlot::ARMOR], seq![EnchantmentSlot::MAINHAND], seq![EnchantmentSlot::MAINHAND], seq![EnchantmentSlot::FEET], seq![EnchantmentSlot::MAINHAND], seq![EnchantmentSlot::MAINHAND], seq![EnchantmentSlot::MAINHAND], seq![EnchantmentSlot::MAINHAND], seq![EnchantmentSlot::MAINHAND], seq![EnchantmentSlot::MAINHAND], seq![EnchantmentSlot::HAND], seq![EnchantmentSlot::MAINHAND], seq![EnchantmentSlot::ANY], seq![EnchantmentSlot::MAINHAND], seq![EnchantmentSlot::MAINHAND], seq![EnchantmentSlot::MAINHAND], seq![EnchantmentSlot::ARMOR], seq![EnchantmentSlot::ARMOR], seq![EnchantmentSlot::MAINHAND], seq![EnchantmentSlot::MAINHAND, EnchantmentSlot::OFFHAND], seq![EnchantmentSlot::HEAD], seq![EnchantmentSlot::HAND], seq![EnchantmentSlot::MAINHAND], seq![EnchantmentSlot::MAINHAND], seq![EnchantmentSlot::MAINHAND], seq![EnchantmentSlot::FEET], seq![EnchantmentSlot::MAINHAND], seq![EnchantmentSlot::LEGS], seq![EnchantmentSlot::ANY], seq![EnchantmentSlot::ANY], seq![EnchantmentSlot::ANY], seq![EnchantmentSlot::MAINHAND]]
}

/// The item tag each enchantment can be put on.
pub open spec fn enchantment_items() -> Seq<Seq<char>> {
    seq!["#minecraft:enchantable/head_armor"@, "#minecraft:enchantable/weapon"@, "#minecraft:enchantable/equippable"@, "#minecraft:enchantable/armor"@, "#minecraft:enchantable/mace"@, "#minecraft:enchantable/trident"@, "#minecraft:enchantable/mace"@, "#minecraft:enchantable/foot_armor"@, "#minecraft:enchantable/mining"@, "#minecraft:enchantable/foot_armor"@, "#minecraft:enchantable/fire_aspect"@, "#minecraft:enchantable/armor"@, "#minecraft:enchantable/bow"@, "#minecraft:enchantable/mining_loot"@, "#minecraft:enchantable/foot_armor"@, "#minecraft:enchantable/trident"@, "#minecraft:enchantable/bow"@, "#minecraft:enchantable/melee_weapon"@, "#minecraft:enchantable/melee_weapon"@, "#minecraft:enchantable/trident"@, "#minecraft:enchantable/fishing"@, "#minecraft:enchantable/lunge"@, "#minecraft:enchantable/fishing"@, "#minecraft:enchantable/durability"@, "#minecraft:enchantable/crossbow"@, "#minecraft:enchantable/crossbow"@, "#minecraft:enchantable/bow"@, "#minecraft:enchantable/armor"@, "#minecraft:enchantable/armor"@, "#minecraft:enchantable/bow"@, "#minecraft:enchantable/crossbow"@, "#minecraft:enchantable/head_armor"@, "#minecraft:enchantable/trident"@, "#minecraft:enchantable/sharp_weapon"@, "#minecraft:enchantable/mining_loot"@, "#minecraft:enchantable/weapon"@, "#minecraft:enchantable/foot_armor"@, "#minecraft:enchantable/sweeping"@, "#minecraft:enchantable/leg_armor"@, "#minecraft:enchantable/armor"@, "#minecraft:enchantable/durability"@, "#minecraft:enchantable/vanishing"@, "#minecraft:enchantable/mace"@]
}

/// What each enchantment costs at an anvil, how rare it is, and how strong it goes.
pub open spec fn enchantment_numbers() -> Seq<(u8, u8, u8)> {
    seq![(4u8, 2u8, 1u8), (2u8, 5u8, 5u8), (8u8, 1u8, 1u8), (4u8, 2u8, 4u8), (4u8, 2u8, 4u8), (8u8, 1u8, 1u8), (2u8, 5u8, 5u8), (4u8, 2u8, 3u8), (1u8, 10u8, 5u8), (2u8, 5u8, 4u8), (4u8, 2u8, 2u8), (2u8, 5u8, 4u8), (4u8, 2u8, 1u8), (4u8, 2u8, 3u8), (4u8, 2u8, 2u8), (4u8, 2u8, 5u8), (8u8, 1u8, 1u8), (2u8, 5u8, 2u8), (4u8, 2u8, 3u8), (2u8, 5u8, 3u8), (4u8, 2u8, 3u8), (2u8, 5u8, 3u8), (4u8, 2u8, 3u8), (4u8, 2u8, 1u8), (4u8, 2u8, 1u8), (1u8, 10u8, 4u8), (1u8, 10u8, 5u8), (2u8, 5u8, 4u8), (1u8, 10u8, 4u8), (4u8, 2u8, 2u8), (2u8, 5u8, 3u8), (4u8, 2u8, 3u8), (4u8, 2u8, 3u8), (1u8, 10u8, 5u8), (8u8, 1u8, 1u8), (2u8, 5u8, 5u8), (8u8, 1u8, 3u8), (4u8, 2u8, 3u8), (8u8, 1u8, 3u8), (8u8, 1u8, 3u8), (2u8, 5u8, 3u8), (8u8, 1u8, 1u8), (4u8, 2u8, 3u8)]
}

/// The tag of enchantments each one cannot sit beside, where there is one.
pub open spec fn enchantment_exclusions() -> Seq<Option<Seq<char>>> {
    seq![None, Some("#minecraft:exclusive_set/damage"@), None, Some("#minecraft:exclusive_set/armor"@), Some("#minecraft:exclusive_set/damage"@), None, Some("#minecraft:exclusive_set/damage"@), Some("#minecraft:exclusive_set/boots"@), None, None, None, Some("#minecraft:exclusive_set/armor"@), None, Some("#minecraft:exclusive_set/mining"@), Some("#minecraft:exclusive_set/boots"@), Some("#minecraft:exclusive_set/damage"@), Some("#minecraft:exclusive_set/bow"@), None, None, None, None, None, None, None, Some("#minecraft:exclusive_set/crossbow"@), Some("#minecraft:exclusive_set/crossbow"@), None, Some("#minecraft:exclusive_set/armor"@), Some("#minecraft:exclusive_set/armor"@), None, None, None, Some("#minecraft:exclusive_set/riptide"@), Some("#minecraft:exclusive_set/damage"@), Some("#minecraft:exclusive_set/mining"@), Some("#minecraft:exclusive_set/damage"@), None, None, None, None, None, None, None]
}

/// Worn head.
fn worn_head() -> (r: &'static [EnchantmentSlot])
    ensures
        r@ == seq![EnchantmentSlot::HEAD],
{
    let slots: &'static [EnchantmentSlot; 1] = &[EnchantmentSlot::HEAD];
    proof {
        broadcast use vstd::array::group_array_axioms;
        assert(slots@ =~= seq![EnchantmentSlot::HEAD]);
    }
    slots.as_slice()
}

/// Worn mainhand.
fn worn_mainhand() -> (r: &'static [EnchantmentSlot])
    ensures
        r@ == seq![EnchantmentSlot::MAINHAND],
{
    let slots: &'static [EnchantmentSlot; 1] = &[EnchantmentSlot::MAINHAND];
    proof {
        broadcast use vstd::array::group_array_axioms;
        assert(slots@ =~= seq![EnchantmentSlot::MAINHAND]);
    }
    slots.as_slice()
}

/// Worn armor.
fn worn_armor() -> (r: &'static [EnchantmentSlot])
    ensures
        r@ == seq![EnchantmentSlot::ARMOR],
{
    let slots: &'static [EnchantmentSlot; 1] = &[EnchantmentSlot::ARMOR];
    proof {
        broadcast use vstd::array::group_array_axioms;
        assert(slots@ =~= seq![EnchantmentSlot::ARMOR]);
    }
    slots.as_slice()
}

/// Worn feet.
fn worn_feet() -> (r: &'static [EnchantmentSlot])
    ensures
        r@ == seq![EnchantmentSlot::FEET],
{
    let slots: &'static [EnchantmentSlot; 1] = &[EnchantmentSlot::FEET];
    proof {
        broadcast use vstd::array::group_array_axioms;
        assert(slots@ =~= seq![EnchantmentSlot::FEET]);
    }
    slots.as_slice()
}

/// Worn hand.
fn worn_hand() -> (r: &'static [EnchantmentSlot])
    ensures
        r@ == seq![EnchantmentSlot::HAND],
{
    let slots: &'static [EnchantmentSlot; 1] = &[EnchantmentSlot::HAND];
    proof {
        broadcast use vstd::array::group_array_axioms;
        assert(slots@ =~= seq![EnchantmentSlot::HAND]);
    }
    slots.as_slice()
}

/// Worn any.
fn worn_any() -> (r: &'static [EnchantmentSlot])
    ensures
        r@ == seq![EnchantmentSlot::ANY],
{
    let slots: &'static [EnchantmentSlot; 1] = &[EnchantmentSlot::ANY];
    proof {
        broadcast use vstd::array::group_array_axioms;
        assert(slots@ =~= seq![EnchantmentSlot::ANY]);
    }
    slots.as_slice()
}

/// Worn mainhand or offhand.
fn worn_mainhand_offhand() -> (r: &'static [EnchantmentSlot])
    ensures
        r@ == seq![EnchantmentSlot::MAINHAND, EnchantmentSlot::OFFHAND],
{
    let slots: &'static [EnchantmentSlot; 2] = &[EnchantmentSlot::MAINHAND, EnchantmentSlot::OFFHAND];
    proof {
        broadcast use vstd::array::group_array_axioms;
        assert(slots@ =~= seq![EnchantmentSlot::MAINHAND, EnchantmentSlot::OFFHAND]);
    }
    slots.as_slice()
}

/// Worn legs.
fn worn_legs() -> (r: &'static [EnchantmentSlot])
    ensures
        r@ == seq![EnchantmentSlot::LEGS],
{
    let slots: &'static [EnchantmentSlot; 1] = &[EnchantmentSlot::LEGS];
    proof {
        broadcast use vstd::array::group_array_axioms;
        assert(slots@ =~= seq![EnchantmentSlot::LEGS]);
    }
    slots.as_slice()
}

/// A piece of text that may be missing, as its characters.
pub open spec fn text_of(t: Option<&'static str>) -> Option<Seq<char>> {
    match t {
        Some(t) => Some(t@),
        None => None,
    }
}

/// Whether `e` is the enchantment the registry numbers `id`, every field as the packs give it.
pub open spec fn is_enchantment(e: Enchantment, id: int) -> bool {
    &&& 0 <= id < ENCHANTMENTS
    &&& e.id == id
    &&& e.name@ == enchantment_names()[id]
    &&& e.description@ == enchantment_descriptions()[id]
    &&& (e.min_cost, e.max_cost) == enchantment_costs()[id]
    &&& e.slots@ == enchantment_slots()[id]
    &&& e.supported_items@ == enchantment_items()[id]
    &&& (e.anvil_cost, e.weight, e.max_level) == enchantment_numbers()[id]
    &&& text_of(e.exclusive_set) == enchantment_exclusions()[id]
}

impl Enchantment {
    /// The enchantment this server numbers `id`, if there is one.
    pub fn from_id(id: u16) -> (r: Option<Enchantment>)
        ensures
            match r {
                Some(e) => is_enchantment(e, id as int),
                None => id >= ENCHANTMENTS,
            },
    {
        match id {
            0 => Some(Enchantment {
                id: 0,
                name: "aqua_affinity",
                description: "enchantment.minecraft.aqua_affinity",
                min_cost: Cost { base: 1, per_level_above_first: 0 },
                max_cost: Cost { base: 41, per_level_above_first: 0 },
                anvil_cost: 4,
                slots: worn_head(),
                supported_items: "#minecraft:enchantable/head_armor",
                weight: 2,
                max_level: 1,
                exclusive_set: None,
            }),
            1 => Some(Enchantment {
                id: 1,
                name: "bane_of_arthropods",
                description: "enchantment.minecraft.bane_of_arthropods",
                min_cost: Cost { base: 5, per_level_above_first: 8 },
                max_cost: Cost { base: 25, per_level_above_first: 8 },
                anvil_cost: 2,
                slots: worn_mainhand(),
                supported_items: "#minecraft:enchantable/weapon",
                weight: 5,
                max_level: 5,
                exclusive_set: Some("#minecraft:exclusive_set/damage"),
            }),
            2 => Some(Enchantment {
                id: 2,
                name: "binding_curse",
                description: "enchantment.minecraft.binding_curse",
                min_cost: Cost { base: 25, per_level_above_first: 0 },
                max_cost: Cost { base: 50, per_level_above_first: 0 },
                anvil_cost: 8,
                slots: worn_armor(),
                supported_items: "#minecraft:enchantable/equippable",
                weight: 1,
                max_level: 1,
                exclusive_set: None,
            }),
            3 => Some(Enchantment {
                id: 3,
                name: "blast_protection",
                description: "enchantment.minecraft.blast_protection",
                min_cost: Cost { base: 5, per_level_above_first: 8 },
                max_cost: Cost { base: 13, per_level_above_first: 8 },
                anvil_cost: 4,
                slots: worn_armor(),
                supported_items: "#minecraft:enchantable/armor",
                weight: 2,
                max_level: 4,
                exclusive_set: Some("#minecraft:exclusive_set/armor"),
            }),
            4 => Some(Enchantment {
                id: 4,
                name: "breach",
                description: "enchantment.minecraft.breach",
                min_cost: Cost { base: 15, per_level_above_first: 9 },
                max_cost: Cost { base: 65, per_level_above_first: 9 },
                anvil_cost: 4,
                slots: worn_mainhand(),
                supported_items: "#minecraft:enchantable/mace",
                weight: 2,
                max_level: 4,
                exclusive_set: Some("#minecraft:exclusive_set/damage"),
            }),
            5 => Some(Enchantment {
                id: 5,
                name: "channeling",
                description: "enchantment.minecraft.channeling",
                min_cost: Cost { base: 25, per_level_above_first: 0 },
                max_cost: Cost { base: 50, per_level_above_first: 0 },
                anvil_cost: 8,
                slots: worn_mainhand(),
                supported_items: "#minecraft:enchantable/trident",
                weight: 1,
                max_level: 1,
                exclusive_set: None,
            }),
            6 => Some(Enchantment {
                id: 6,
                name: "density",
                description: "enchantment.minecraft.density",
                min_cost: Cost { base: 5, per_level_above_first: 8 },
                max_cost: Cost { base: 25, per_level_above_first: 8 },
                anvil_cost: 2,
                slots: worn_mainhand(),
                supported_items: "#minecraft:enchantable/mace",
                weight: 5,
                max_level: 5,
                exclusive_set: Some("#minecraft:exclusive_set/damage"),
            }),
            7 => Some(Enchantment {
                id: 7,
                name: "depth_strider",
                description: "enchantment.minecraft.depth_strider",
                min_cost: Cost { base: 10, per_level_above_first: 10 },
                max_cost: Cost { base: 25, per_level_above_first: 10 },
                anvil_cost: 4,
                slots: worn_feet(),
                supported_items: "#minecraft:enchantable/foot_armor",
                weight: 2,
                max_level: 3,
                exclusive_set: Some("#minecraft:exclusive_set/boots"),
            }),
            8 => Some(Enchantment {
                id: 8,
                name: "efficiency",
                description: "enchantment.minecraft.efficiency",
                min_cost: Cost { base: 1, per_level_above_first: 10 },
                max_cost: Cost { base: 51, per_level_above_first: 10 },
                anvil_cost: 1,
                slots: worn_mainhand(),
                supported_items: "#minecraft:enchantable/mining",
                weight: 10,
                max_level: 5,
                exclusive_set: None,
            }),
            9 => Some(Enchantment {
                id: 9,
                name: "feather_falling",
                description: "enchantment.minecraft.feather_falling",
                min_cost: Cost { base: 5, per_level_above_first: 6 },
                max_cost: Cost { base: 11, per_level_above_first: 6 },
                anvil_cost: 2,
                slots: worn_armor(),
                supported_items: "#minecraft:enchantable/foot_armor",
                weight: 5,
                max_level: 4,
                exclusive_set: None,
            }),
            10 => Some(Enchantment {
                id: 10,
                name: "fire_aspect",
                description: "enchantment.minecraft.fire_aspect",
                min_cost: Cost { base: 10, per_level_above_first: 20 },
                max_cost: Cost { base: 60, per_level_above_first: 20 },
                anvil_cost: 4,
                slots: worn_mainhand(),
                supported_items: "#minecraft:enchantable/fire_aspect",
                weight: 2,
                max_level: 2,
                exclusive_set: None,
            }),
            11 => Some(Enchantment {
                id: 11,
                name: "fire_protection",
                description: "enchantment.minecraft.fire_protection",
                min_cost: Cost { base: 10, per_level_above_first: 8 },
                max_cost: Cost { base: 18, per_level_above_first: 8 },
                anvil_cost: 2,
                slots: worn_armor(),
                supported_items: "#minecraft:enchantable/armor",
                weight: 5,
                max_level: 4,
                exclusive_set: Some("#minecraft:exclusive_set/armor"),
            }),
            12 => Some(Enchantment {
                id: 12,
                name: "flame",
                description: "enchantment.minecraft.flame",
                min_cost: Cost { base: 20, per_level_above_first: 0 },
                max_cost: Cost { base: 50, per_level_above_first: 0 },
                anvil_cost: 4,
                slots: worn_mainhand(),
                supported_items: "#minecraft:enchantable/bow",
                weight: 2,
                max_level: 1,
                exclusive_set: None,
            }),
            13 => Some(Enchantment {
                id: 13,
                name: "fortune",
                description: "enchantment.minecraft.fortune",
                min_cost: Cost { base: 15, per_level_above_first: 9 },
                max_cost: Cost { base: 65, per_level_above_first: 9 },
                anvil_cost: 4,
                slots: worn_mainhand(),
                supported_items: "#minecraft:enchantable/mining_loot",
                weight: 2,
                max_level: 3,
                exclusive_set: Some("#minecraft:exclusive_set/mining"),
            }),
            14 => Some(Enchantment {
                id: 14,
                name: "frost_walker",
                description: "enchantment.minecraft.frost_walker",
                min_cost: Cost { base: 10, per_level_above_first: 10 },
                max_cost: Cost { base: 25, per_level_above_first: 10 },
                anvil_cost: 4,
                slots: worn_feet(),
                supported_items: "#minecraft:enchantable/foot_armor",
                weight: 2,
                max_level: 2,
                exclusive_set: Some("#minecraft:exclusive_set/boots"),
            }),
            15 => Some(Enchantment {
                id: 15,
                name: "impaling",
                description: "enchantment.minecraft.impaling",
                min_cost: Cost { base: 1, per_level_above_first: 8 },
                max_cost: Cost { base: 21, per_level_above_first: 8 },
                anvil_cost: 4,
                slots: worn_mainhand(),
                supported_items: "#minecraft:enchantable/trident",
                weight: 2,
                max_level: 5,
                exclusive_set: Some("#minecraft:exclusive_set/damage"),
            }),
            16 => Some(Enchantment {
                id: 16,
                name: "infinity",
                description: "enchantment.minecraft.infinity",
                min_cost: Cost { base: 20, per_level_above_first: 0 },
                max_cost: Cost { base: 50, per_level_above_first: 0 },
                anvil_cost: 8,
                slots: worn_mainhand(),
                supported_items: "#minecraft:enchantable/bow",
                weight: 1,
                max_level: 1,
                exclusive_set: Some("#minecraft:exclusive_set/bow"),
            }),
            17 => Some(Enchantment {
                id: 17,
                name: "knockback",
                description: "enchantment.minecraft.knockback",
                min_cost: Cost { base: 5, per_level_above_first: 20 },
                max_cost: Cost { base: 55, per_level_above_first: 20 },
                anvil_cost: 2,
                slots: worn_mainhand(),
                supported_items: "#minecraft:enchantable/melee_weapon",
                weight: 5,
                max_level: 2,
                exclusive_set: None,
            }),
            18 => Some(Enchantment {
                id: 18,
                name: "looting",
                description: "enchantment.minecraft.looting",
                min_cost: Cost { base: 15, per_level_above_first: 9 },
                max_cost: Cost { base: 65, per_level_above_first: 9 },
                anvil_cost: 4,
                slots: worn_mainhand(),
                supported_items: "#minecraft:enchantable/melee_weapon",
                weight: 2,
                max_level: 3,
                exclusive_set: None,
            }),
            19 => Some(Enchantment {
                id: 19,
                name: "loyalty",
                description: "enchantment.minecraft.loyalty",
                min_cost: Cost { base: 12, per_level_above_first: 7 },
                max_cost: Cost { base: 50, per_level_above_first: 0 },
                anvil_cost: 2,
                slots: worn_mainhand(),
                supported_items: "#minecraft:enchantable/trident",
                weight: 5,
                max_level: 3,
                exclusive_set: None,
            }),
            20 => Some(Enchantment {
                id: 20,
                name: "luck_of_the_sea",
                description: "enchantment.minecraft.luck_of_the_sea",
                min_cost: Cost { base: 15, per_level_above_first: 9 },
                max_cost: Cost { base: 65, per_level_above_first: 9 },
                anvil_cost: 4,
                slots: worn_mainhand(),
                supported_items: "#minecraft:enchantable/fishing",
                weight: 2,
                max_level: 3,
                exclusive_set: None,
            }),
            21 => Some(Enchantment {
                id: 21,
                name: "lunge",
                description: "enchantment.minecraft.lunge",
                min_cost: Cost { base: 5, per_level_above_first: 8 },
                max_cost: Cost { base: 25, per_level_above_first: 8 },
                anvil_cost: 2,
                slots: worn_hand(),
                supported_items: "#minecraft:enchantable/lunge",
                weight: 5,
                max_level: 3,
                exclusive_set: None,
            }),
            22 => Some(Enchantment {
                id: 22,
                name: "lure",
                description: "enchantment.minecraft.lure",
                min_cost: Cost { base: 15, per_level_above_first: 9 },
                max_cost: Cost { base: 65, per_level_above_first: 9 },
                anvil_cost: 4,
                slots: worn_mainhand(),
                supported_items: "#minecraft:enchantable/fishing",
                weight: 2,
                max_level: 3,
                exclusive_set: None,
            }),
            23 => Some(Enchantment {
                id: 23,
                name: "mending",
                description: "enchantment.minecraft.mending",
                min_cost: Cost { base: 25, per_level_above_first: 25 },
                max_cost: Cost { base: 75, per_level_above_first: 25 },
                anvil_cost: 4,
                slots: worn_any(),
                supported_items: "#minecraft:enchantable/durability",
                weight: 2,
                max_level: 1,
                exclusive_set: None,
            }),
            24 => Some(Enchantment {
                id: 24,
                name: "multishot",
                description: "enchantment.minecraft.multishot",
                min_cost: Cost { base: 20, per_level_above_first: 0 },
                max_cost: Cost { base: 50, per_level_above_first: 0 },
                anvil_cost: 4,
                slots: worn_mainhand(),
                supported_items: "#minecraft:enchantable/crossbow",
                weight: 2,
                max_level: 1,
                exclusive_set: Some("#minecraft:exclusive_set/crossbow"),
            }),
            25 => Some(Enchantment {
                id: 25,
                name: "piercing",
                description: "enchantment.minecraft.piercing",
                min_cost: Cost { base: 1, per_level_above_first: 10 },
                max_cost: Cost { base: 50, per_level_above_first: 0 },
                anvil_cost: 1,
                slots: worn_mainhand(),
                supported_items: "#minecraft:enchantable/crossbow",
                weight: 10,
                max_level: 4,
                exclusive_set: Some("#minecraft:exclusive_set/crossbow"),
            }),
            26 => Some(Enchantment {
                id: 26,
                name: "power",
                description: "enchantment.minecraft.power",
                min_cost: Cost { base: 1, per_level_above_first: 10 },
                max_cost: Cost { base: 16, per_level_above_first: 10 },
                anvil_cost: 1,
                slots: worn_mainhand(),
                supported_items: "#minecraft:enchantable/bow",
                weight: 10,
                max_level: 5,
                exclusive_set: None,
            }),
            27 => Some(Enchantment {
                id: 27,
                name: "projectile_protection",
                description: "enchantment.minecraft.projectile_protection",
                min_cost: Cost { base: 3, per_level_above_first: 6 },
                max_cost: Cost { base: 9, per_level_above_first: 6 },
                anvil_cost: 2,
                slots: worn_armor(),
                supported_items: "#minecraft:enchantable/armor",
                weight: 5,
                max_level: 4,
                exclusive_set: Some("#minecraft:exclusive_set/armor"),
            }),
            28 => Some(Enchantment {
                id: 28,
                name: "protection",
                description: "enchantment.minecraft.protection",
                min_cost: Cost { base: 1, per_level_above_first: 11 },
                max_cost: Cost { base: 12, per_level_above_first: 11 },
                anvil_cost: 1,
                slots: worn_armor(),
                supported_items: "#minecraft:enchantable/armor",
                weight: 10,
                max_level: 4,
                exclusive_set: Some("#minecraft:exclusive_set/armor"),
            }),
            29 => Some(Enchantment {
                id: 29,
                name: "punch",
                description: "enchantment.minecraft.punch",
                min_cost: Cost { base: 12, per_level_above_first: 20 },
                max_cost: Cost { base: 37, per_level_above_first: 20 },
                anvil_cost: 4,
                slots: worn_mainhand(),
                supported_items: "#minecraft:enchantable/bow",
                weight: 2,
                max_level: 2,
                exclusive_set: None,
            }),
            30 => Some(Enchantment {
                id: 30,
                name: "quick_charge",
                description: "enchantment.minecraft.quick_charge",
                min_cost: Cost { base: 12, per_level_above_first: 20 },
                max_cost: Cost { base: 50, per_level_above_first: 0 },
                anvil_cost: 2,
                slots: worn_mainhand_offhand(),
                supported_items: "#minecraft:enchantable/crossbow",
                weight: 5,
                max_level: 3,
                exclusive_set: None,
            }),
            31 => Some(Enchantment {
                id: 31,
                name: "respiration",
                description: "enchantment.minecraft.respiration",
                min_cost: Cost { base: 10, per_level_above_first: 10 },
                max_cost: Cost { base: 40, per_level_above_first: 10 },
                anvil_cost: 4,
                slots: worn_head(),
                supported_items: "#minecraft:enchantable/head_armor",
                weight: 2,
                max_level: 3,
                exclusive_set: None,
            }),
            32 => Some(Enchantment {
                id: 32,
                name: "riptide",
                description: "enchantment.minecraft.riptide",
                min_cost: Cost { base: 17, per_level_above_first: 7 },
                max_cost: Cost { base: 50, per_level_above_first: 0 },
                anvil_cost: 4,
                slots: worn_hand(),
                supported_items: "#minecraft:enchantable/trident",
                weight: 2,
                max_level: 3,
                exclusive_set: Some("#minecraft:exclusive_set/riptide"),
            }),
            33 => Some(Enchantment {
                id: 33,
                name: "sharpness",
                description: "enchantment.minecraft.sharpness",
                min_cost: Cost { base: 1, per_level_above_first: 11 },
                max_cost: Cost { base: 21, per_level_above_first: 11 },
                anvil_cost: 1,
                slots: worn_mainhand(),
                supported_items: "#minecraft:enchantable/sharp_weapon",
                weight: 10,
                max_level: 5,
                exclusive_set: Some("#minecraft:exclusive_set/damage"),
            }),
            34 => Some(Enchantment {
                id: 34,
                name: "silk_touch",
                description: "enchantment.minecraft.silk_touch",
                min_cost: Cost { base: 15, per_level_above_first: 0 },
                max_cost: Cost { base: 65, per_level_above_first: 0 },
                anvil_cost: 8,
                slots: worn_mainhand(),
                supported_items: "#minecraft:enchantable/mining_loot",
                weight: 1,
                max_level: 1,
                exclusive_set: Some("#minecraft:exclusive_set/mining"),
            }),
            35 => Some(Enchantment {
                id: 35,
                name: "smite",
                description: "enchantment.minecraft.smite",
                min_cost: Cost { base: 5, per_level_above_first: 8 },
                max_cost: Cost { base: 25, per_level_above_first: 8 },
                anvil_cost: 2,
                slots: worn_mainhand(),
                supported_items: "#minecraft:enchantable/weapon",
                weight: 5,
                max_level: 5,
                exclusive_set: Some("#minecraft:exclusive_set/damage"),
            }),
            36 => Some(Enchantment {
                id: 36,
                name: "soul_speed",
                description: "enchantment.minecraft.soul_speed",
                min_cost: Cost { base: 10, per_level_above_first: 10 },
                max_cost: Cost { base: 25, per_level_above_first: 10 },
                anvil_cost: 8,
                slots: worn_feet(),
                supported_items: "#minecraft:enchantable/foot_armor",
                weight: 1,
                max_level: 3,
                exclusive_set: None,
            }),
            37 => Some(Enchantment {
                id: 37,
                name: "sweeping_edge",
                description: "enchantment.minecraft.sweeping_edge",
                min_cost: Cost { base: 5, per_level_above_first: 9 },
                max_cost: Cost { base: 20, per_level_above_first: 9 },
                anvil_cost: 4,
                slots: worn_mainhand(),
                supported_items: "#minecraft:enchantable/sweeping",
                weight: 2,
                max_level: 3,
                exclusive_set: None,
            }),
            38 => Some(Enchantment {
                id: 38,
                name: "swift_sneak",
                description: "enchantment.minecraft.swift_sneak",
                min_cost: Cost { base: 25, per_level_above_first: 25 },
                max_cost: Cost { base: 75, per_level_above_first: 25 },
                anvil_cost: 8,
                slots: worn_legs(),
                supported_items: "#minecraft:enchantable/leg_armor",
                weight: 1,
                max_level: 3,
                exclusive_set: None,
            }),
            39 => Some(Enchantment {
                id: 39,
                name: "thorns",
                description: "enchantment.minecraft.thorns",
                min_cost: Cost { base: 10, per_level_above_first: 20 },
                max_cost: Cost { base: 60, per_level_above_first: 20 },
                anvil_cost: 8,
                slots: worn_any(),
                supported_items: "#minecraft:enchantable/armor",
                weight: 1,
                max_level: 3,
                exclusive_set: None,
            }),
            40 => Some(Enchantment {
                id: 40,
                name: "unbreaking",
                description: "enchantment.minecraft.unbreaking",
                min_cost: Cost { base: 5, per_level_above_first: 8 },
                max_cost: Cost { base: 55, per_level_above_first: 8 },
                anvil_cost: 2,
                slots: worn_any(),
                supported_items: "#minecraft:enchantable/durability",
                weight: 5,
                max_level: 3,
                exclusive_set: None,
            }),
            41 => Some(Enchantment {
                id: 41,
                name: "vanishing_curse",
                description: "enchantment.minecraft.vanishing_curse",
                min_cost: Cost { base: 25, per_level_above_first: 0 },
                max_cost: Cost { base: 50, per_level_above_first: 0 },
                anvil_cost: 8,
                slots: worn_any(),
                supported_items: "#minecraft:enchantable/vanishing",
                weight: 1,
                max_level: 1,
                exclusive_set: None,
            }),
            42 => Some(Enchantment {
                id: 42,
                name: "wind_burst",
                description: "enchantment.minecraft.wind_burst",
                min_cost: Cost { base: 15, per_level_above_first: 9 },
                max_cost: Cost { base: 65, per_level_above_first: 9 },
                anvil_cost: 4,
                slots: worn_mainhand(),
                supported_items: "#minecraft:enchantable/mace",
                weight: 2,
                max_level: 3,
                exclusive_set: None,
            }),
            _ => None,
        }
    }

    /// The enchantment of this name, with or without the `minecraft:` namespace.
    pub fn from_name(name: &str) -> (r: Option<Enchantment>)
        ensures
            match r {
                Some(e) => is_enchantment(e, e.id as int) && enchantment_names()[e.id as int]
                    == strip_default_namespace(name@),
                None => forall|id: int|
                    0 <= id < ENCHANTMENTS ==> enchantment_names()[id] != strip_default_namespace(
                        name@,
                    ),
            },
    {
        let name = without_default_namespace(name);
        if same_text(name, "aqua_affinity") {
            return Self::from_id(0);
        }
        if same_text(name, "bane_of_arthropods") {
            return Self::from_id(1);
        }
        if same_text(name, "binding_curse") {
            return Self::from_id(2);
        }
        if same_text(name, "blast_protection") {
            return Self::from_id(3);
        }
        if same_text(name, "breach") {
            return Self::from_id(4);
        }
        if same_text(name, "channeling") {
            return Self::from_id(5);
        }
        if same_text(name, "density") {
            return Self::from_id(6);
        }
        if same_text(name, "depth_strider") {
            return Self::from_id(7);
        }
        if same_text(name, "efficiency") {
            return Self::from_id(8);
        }
        if same_text(name, "feather_falling") {
            return Self::from_id(9);
        }
        if same_text(name, "fire_aspect") {
            return Self::from_id(10);
        }
        if same_text(name, "fire_protection") {
            return Self::from_id(11);
        }
        if same_text(name, "flame") {
            return Self::from_id(12);
        }
        if same_text(name, "fortune") {
            return Self::from_id(13);
        }
        if same_text(name, "frost_walker") {
            return Self::from_id(14);
        }
        if same_text(name, "impaling") {
            return Self::from_id(15);
        }
        if same_text(name, "infinity") {
            return Self::from_id(16);
        }
        if same_text(name, "knockback") {
            return Self::from_id(17);
        }
        if same_text(name, "looting") {
            return Self::from_id(18);
        }
        if same_text(name, "loyalty") {
            return Self::from_id(19);
        }
        if same_text(name, "luck_of_the_sea") {
            return Self::from_id(20);
        }
        if same_text(name, "lunge") {
            return Self::from_id(21);
        }
        if same_text(name, "lure") {
            return Self::from_id(22);
        }
        if same_text(name, "mending") {
            return Self::from_id(23);
        }
        if same_text(name, "multishot") {
            return Self::from_id(24);
        }
        if same_text(name, "piercing") {
            return Self::from_id(25);
        }
        if same_text(name, "power") {
            return Self::from_id(26);
        }
        if same_text(name, "projectile_protection") {
            return Self::from_id(27);
        }
        if same_text(name, "protection") {
            return Self::from_id(28);
        }
        if same_text(name, "punch") {
            return Self::from_id(29);
        }
        if same_text(name, "quick_charge") {
            return Self::from_id(30);
        }
        if same_text(name, "respiration") {
            return Self::from_id(31);
        }
        if same_text(name, "riptide") {
            return Self::from_id(32);
        }
        if same_text(name, "sharpness") {
            return Self::from_id(33);
        }
        if same_text(name, "silk_touch") {
            return Self::from_id(34);
        }
        if same_text(name, "smite") {
            return Self::from_id(35);
        }
        if same_text(name, "soul_speed") {
            return Self::from_id(36);
        }
        if same_text(name, "sweeping_edge") {
            return Self::from_id(37);
        }
        if same_text(name, "swift_sneak") {
            return Self::from_id(38);
        }
        if same_text(name, "thorns") {
            return Self::from_id(39);
        }
        if same_text(name, "unbreaking") {
            return Self::from_id(40);
        }
        if same_text(name, "vanishing_curse") {
            return Self::from_id(41);
        }
        if same_text(name, "wind_burst") {
            return Self::from_id(42);
        }
        None
    }

    /// What it costs at a table at least, at `level`, where one means level one.
    pub fn min_cost(&self, level: u8) -> (r: i64)
        requires
            level >= 1,
        ensures
            r == self.min_cost.base + self.min_cost.per_level_above_first * (level - 1),
    {
        self.min_cost.at(level)
    }

    /// What it costs at a table at most, at `level`, where one means level one.
    pub fn max_cost(&self, level: u8) -> (r: i64)
        requires
            level >= 1,
        ensures
            r == self.max_cost.base + self.max_cost.per_level_above_first * (level - 1),
    {
        self.max_cost.at(level)
    }

    /// The number a client speaking `version` reads this as, if it knows it at all.
    ///
    /// Nothing means the enchantment was added after that version.
    pub fn wire_id(&self, version: ProtocolVersion) -> (r: Option<u16>)
        ensures
            r == enchantment_wire(self.id, version),
    {
        enchantment_wire_id(self.id, version)
    }

    /// Which enchantment a client speaking `version` means by a number.
    pub fn from_wire_id(id: u16, version: ProtocolVersion) -> (r: Option<Enchantment>)
        ensures
            match first_place(enchantment_table(version), id as int) {
                Some(at) => r matches Some(e) && is_enchantment(e, at),
                None => r is None,
            },
    {
        proof {
            lemma_first_place_bounds(enchantment_table(version), id as int);
        }
        match enchantment_from_wire_id(id, version) {
            Some(at) => Self::from_id(at),
            None => None,
        }
    }
}

} // verus!
