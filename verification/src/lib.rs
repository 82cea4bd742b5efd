//! The rules of a Minecraft server: resource locations and the packs they are read from, tags,
//! the kinds of damage and what softens them, potion effects, inventories, advancements, and the
//! byte formats items and NBT travel in.
use vstd::prelude::*;

pub mod text;
pub mod identifier;
pub mod json;
pub mod tag;
pub mod tag_build;
pub mod manager;
pub mod nbt;
pub mod meta;
pub mod damage_types;
pub mod components;
pub mod stack_components;
pub mod inventory;
pub mod trigger;
pub mod effect_kinds;
pub mod effects;
pub mod enchantment_kinds;
pub mod enchantments;
pub mod attributes;
pub mod damage;
pub mod vitals;
pub mod drops;
pub mod combat;
pub mod entity_data;
pub mod using;
pub mod keyed;
pub mod advancements;
pub mod progress;
pub mod following;
pub mod repository;
pub mod block_properties;
pub mod wire_ids;
pub mod wire;

verus! {

} // verus!
