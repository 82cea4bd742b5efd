//! Every kind of thing an item stack can carry beyond its name and its count.
use crate::text::{strip_default_namespace, without_default_namespace, same_text};
use vstd::prelude::*;

verus! {

/// Every kind of thing an item stack can carry beyond its name and its count.
///
/// Custom name, damage, enchantments, what it is worth in a fight, what it does when eaten:
/// modern item identity is the type plus a map of these. The variants are in the order of
/// this server's own registry.
#[derive(Debug, Clone, Copy, PartialEq, Eq, Structural, Hash)]
pub enum ComponentType {
    /// `minecraft:custom_data`
    CustomData,
    /// `minecraft:max_stack_size`
    MaxStackSize,
    /// `minecraft:max_damage`
    MaxDamage,
    /// `minecraft:damage`
    Damage,
    /// `minecraft:unbreakable`
    Unbreakable,
    /// `minecraft:use_effects`
    UseEffects,
    /// `minecraft:custom_name`
    CustomName,
    /// `minecraft:minimum_attack_charge`
    MinimumAttackCharge,
    /// `minecraft:damage_type`
    DamageType,
    /// `minecraft:item_name`
    ItemName,
    /// `minecraft:item_model`
    ItemModel,
    /// `minecraft:lore`
    Lore,
    /// `minecraft:rarity`
    Rarity,
    /// `minecraft:enchantments`
    Enchantments,
    /// `minecraft:can_place_on`
    CanPlaceOn,
    /// `minecraft:can_break`
    CanBreak,
    /// `minecraft:attribute_modifiers`
    AttributeModifiers,
    /// `minecraft:custom_model_data`
    CustomModelData,
    /// `minecraft:tooltip_display`
    TooltipDisplay,
    /// `minecraft:repair_cost`
    RepairCost,
    /// `minecraft:creative_slot_lock`
    CreativeSlotLock,
    /// `minecraft:enchantment_glint_override`
    EnchantmentGlintOverride,
    /// `minecraft:intangible_projectile`
    IntangibleProjectile,
    /// `minecraft:food`
    Food,
    /// `minecraft:consumable`
    Consumable,
    /// `minecraft:use_remainder`
    UseRemainder,
    /// `minecraft:use_cooldown`
    UseCooldown,
    /// `minecraft:damage_resistant`
    DamageResistant,
    /// `minecraft:tool`
    Tool,
    /// `minecraft:weapon`
    Weapon,
    /// `minecraft:attack_range`
    AttackRange,
    /// `minecraft:enchantable`
    Enchantable,
    /// `minecraft:equippable`
    Equippable,
    /// `minecraft:repairable`
    Repairable,
    /// `minecraft:glider`
    Glider,
    /// `minecraft:tooltip_style`
    TooltipStyle,
    /// `minecraft:death_protection`
    DeathProtection,
    /// `minecraft:blocks_attacks`
    BlocksAttacks,
    /// `minecraft:piercing_weapon`
    PiercingWeapon,
    /// `minecraft:kinetic_weapon`
    KineticWeapon,
    /// `minecraft:swing_animation`
    SwingAnimation,
    /// `minecraft:additional_trade_cost`
    AdditionalTradeCost,
    /// `minecraft:stored_enchantments`
    StoredEnchantments,
    /// `minecraft:dye`
    Dye,
    /// `minecraft:dyed_color`
    DyedColor,
    /// `minecraft:map_color`
    MapColor,
    /// `minecraft:map_id`
    MapId,
    /// `minecraft:map_decorations`
    MapDecorations,
    /// `minecraft:map_post_processing`
    MapPostProcessing,
    /// `minecraft:charged_projectiles`
    ChargedProjectiles,
    /// `minecraft:bundle_contents`
    BundleContents,
    /// `minecraft:potion_contents`
    PotionContents,
    /// `minecraft:potion_duration_scale`
    PotionDurationScale,
    /// `minecraft:suspicious_stew_effects`
    SuspiciousStewEffects,
    /// `minecraft:writable_book_content`
    WritableBookContent,
    /// `minecraft:written_book_content`
    WrittenBookContent,
    /// `minecraft:trim`
    Trim,
    /// `minecraft:debug_stick_state`
    DebugStickState,
    /// `minecraft:entity_data`
    EntityData,
    /// `minecraft:bucket_entity_data`
    BucketEntityData,
    /// `minecraft:block_entity_data`
    BlockEntityData,
    /// `minecraft:instrument`
    Instrument,
    /// `minecraft:provides_trim_material`
    ProvidesTrimMaterial,
    /// `minecraft:ominous_bottle_amplifier`
    OminousBottleAmplifier,
    /// `minecraft:jukebox_playable`
    JukeboxPlayable,
    /// `minecraft:provides_banner_patterns`
    ProvidesBannerPatterns,
    /// `minecraft:recipes`
    Recipes,
    /// `minecraft:lodestone_tracker`
    LodestoneTracker,
    /// `minecraft:firework_explosion`
    FireworkExplosion,
    /// `minecraft:fireworks`
    Fireworks,
    /// `minecraft:profile`
    Profile,
    /// `minecraft:note_block_sound`
    NoteBlockSound,
    /// `minecraft:banner_patterns`
    BannerPatterns,
    /// `minecraft:base_color`
    BaseColor,
    /// `minecraft:pot_decorations`
    PotDecorations,
    /// `minecraft:container`
    Container,
    /// `minecraft:block_state`
    BlockState,
    /// `minecraft:bees`
    Bees,
    /// `minecraft:sulfur_cube_content`
    SulfurCubeContent,
    /// `minecraft:lock`
    Lock,
    /// `minecraft:container_loot`
    ContainerLoot,
    /// `minecraft:break_sound`
    BreakSound,
    VillagerVariant,
    WolfVariant,
    WolfSoundVariant,
    WolfCollar,
    FoxVariant,
    SalmonSize,
    ParrotVariant,
    TropicalFishPattern,
    TropicalFishBaseColor,
    TropicalFishPatternColor,
    MooshroomVariant,
    RabbitVariant,
    PigVariant,
    PigSoundVariant,
    CowVariant,
    CowSoundVariant,
    ChickenVariant,
    ChickenSoundVariant,
    ZombieNautilusVariant,
    FrogVariant,
    HorseVariant,
    PaintingVariant,
    LlamaVariant,
    AxolotlVariant,
    CatVariant,
    CatSoundVariant,
    CatCollar,
    SheepColor,
    ShulkerColor,
}

/// The number a kind travels as, in this server's own version: its place in the registry.
pub open spec fn component_id(kind: ComponentType) -> int {
    match kind {
        ComponentType::CustomData => 0,
        ComponentType::MaxStackSize => 1,
        ComponentType::MaxDamage => 2,
        ComponentType::Damage => 3,
        ComponentType::Unbreakable => 4,
        ComponentType::UseEffects => 5,
        ComponentType::CustomName => 6,
        ComponentType::MinimumAttackCharge => 7,
        ComponentType::DamageType => 8,
        ComponentType::ItemName => 9,
        ComponentType::ItemModel => 10,
        ComponentType::Lore => 11,
        ComponentType::Rarity => 12,
        ComponentType::Enchantments => 13,
        ComponentType::CanPlaceOn => 14,
        ComponentType::CanBreak => 15,
        ComponentType::AttributeModifiers => 16,
        ComponentType::CustomModelData => 17,
        ComponentType::TooltipDisplay => 18,
        ComponentType::RepairCost => 19,
        ComponentType::CreativeSlotLock => 20,
        ComponentType::EnchantmentGlintOverride => 21,
        ComponentType::IntangibleProjectile => 22,
        ComponentType::Food => 23,
        ComponentType::Consumable => 24,
        ComponentType::UseRemainder => 25,
        ComponentType::UseCooldown => 26,
        ComponentType::DamageResistant => 27,
        ComponentType::Tool => 28,
        ComponentType::Weapon => 29,
        ComponentType::AttackRange => 30,
        ComponentType::Enchantable => 31,
        ComponentType::Equippable => 32,
        ComponentType::Repairable => 33,
        ComponentType::Glider => 34,
        ComponentType::TooltipStyle => 35,
        ComponentType::DeathProtection => 36,
        ComponentType::BlocksAttacks => 37,
        ComponentType::PiercingWeapon => 38,
        ComponentType::KineticWeapon => 39,
        ComponentType::SwingAnimation => 40,
        ComponentType::AdditionalTradeCost => 41,
        ComponentType::StoredEnchantments => 42,
        ComponentType::Dye => 43,
        ComponentType::DyedColor => 44,
        ComponentType::MapColor => 45,
        ComponentType::MapId => 46,
        ComponentType::MapDecorations => 47,
        ComponentType::MapPostProcessing => 48,
        ComponentType::ChargedProjectiles => 49,
        ComponentType::BundleContents => 50,
        ComponentType::PotionContents => 51,
        ComponentType::PotionDurationScale => 52,
        ComponentType::SuspiciousStewEffects => 53,
        ComponentType::WritableBookContent => 54,
        ComponentType::WrittenBookContent => 55,
        ComponentType::Trim => 56,
        ComponentType::DebugStickState => 57,
        ComponentType::EntityData => 58,
        ComponentType::BucketEntityData => 59,
        ComponentType::BlockEntityData => 60,
        ComponentType::Instrument => 61,
        ComponentType::ProvidesTrimMaterial => 62,
        ComponentType::OminousBottleAmplifier => 63,
        ComponentType::JukeboxPlayable => 64,
        ComponentType::ProvidesBannerPatterns => 65,
        ComponentType::Recipes => 66,
        ComponentType::LodestoneTracker => 67,
        ComponentType::FireworkExplosion => 68,
        ComponentType::Fireworks => 69,
        ComponentType::Profile => 70,
        ComponentType::NoteBlockSound => 71,
        ComponentType::BannerPatterns => 72,
        ComponentType::BaseColor => 73,
        ComponentType::PotDecorations => 74,
        ComponentType::Container => 75,
        ComponentType::BlockState => 76,
        ComponentType::Bees => 77,
        ComponentType::SulfurCubeContent => 78,
        ComponentType::Lock => 79,
        ComponentType::ContainerLoot => 80,
        ComponentType::BreakSound => 81,
        ComponentType::VillagerVariant => 82,
        ComponentType::WolfVariant => 83,
        ComponentType::WolfSoundVariant => 84,
        ComponentType::WolfCollar => 85,
        ComponentType::FoxVariant => 86,
        ComponentType::SalmonSize => 87,
        ComponentType::ParrotVariant => 88,
        ComponentType::TropicalFishPattern => 89,
        ComponentType::TropicalFishBaseColor => 90,
        ComponentType::TropicalFishPatternColor => 91,
        ComponentType::MooshroomVariant => 92,
        ComponentType::RabbitVariant => 93,
        ComponentType::PigVariant => 94,
        ComponentType::PigSoundVariant => 95,
        ComponentType::CowVariant => 96,
        ComponentType::CowSoundVariant => 97,
        ComponentType::ChickenVariant => 98,
        ComponentType::ChickenSoundVariant => 99,
        ComponentType::ZombieNautilusVariant => 100,
        ComponentType::FrogVariant => 101,
        ComponentType::HorseVariant => 102,
        ComponentType::PaintingVariant => 103,
        ComponentType::LlamaVariant => 104,
        ComponentType::AxolotlVariant => 105,
        ComponentType::CatVariant => 106,
        ComponentType::CatSoundVariant => 107,
        ComponentType::CatCollar => 108,
        ComponentType::SheepColor => 109,
        ComponentType::ShulkerColor => 110,
    }
}

/// What a kind is called, without the namespace.
pub open spec fn component_name(kind: ComponentType) -> Seq<char> {
    match kind {
        ComponentType::CustomData => "custom_data"@,
        ComponentType::MaxStackSize => "max_stack_size"@,
        ComponentType::MaxDamage => "max_damage"@,
        ComponentType::Damage => "damage"@,
        ComponentType::Unbreakable => "unbreakable"@,
        ComponentType::UseEffects => "use_effects"@,
        ComponentType::CustomName => "custom_name"@,
        ComponentType::MinimumAttackCharge => "minimum_attack_charge"@,
        ComponentType::DamageType => "damage_type"@,
        ComponentType::ItemName => "item_name"@,
        ComponentType::ItemModel => "item_model"@,
        ComponentType::Lore => "lore"@,
        ComponentType::Rarity => "rarity"@,
        ComponentType::Enchantments => "enchantments"@,
        ComponentType::CanPlaceOn => "can_place_on"@,
        ComponentType::CanBreak => "can_break"@,
        ComponentType::AttributeModifiers => "attribute_modifiers"@,
        ComponentType::CustomModelData => "custom_model_data"@,
        ComponentType::TooltipDisplay => "tooltip_display"@,
        ComponentType::RepairCost => "repair_cost"@,
        ComponentType::CreativeSlotLock => "creative_slot_lock"@,
        ComponentType::EnchantmentGlintOverride => "enchantment_glint_override"@,
        ComponentType::IntangibleProjectile => "intangible_projectile"@,
        ComponentType::Food => "food"@,
        ComponentType::Consumable => "consumable"@,
        ComponentType::UseRemainder => "use_remainder"@,
        ComponentType::UseCooldown => "use_cooldown"@,
        ComponentType::DamageResistant => "damage_resistant"@,
        ComponentType::Tool => "tool"@,
        ComponentType::Weapon => "weapon"@,
        ComponentType::AttackRange => "attack_range"@,
        ComponentType::Enchantable => "enchantable"@,
        ComponentType::Equippable => "equippable"@,
        ComponentType::Repairable => "repairable"@,
        ComponentType::Glider => "glider"@,
        ComponentType::TooltipStyle => "tooltip_style"@,
        ComponentType::DeathProtection => "death_protection"@,
        ComponentType::BlocksAttacks => "blocks_attacks"@,
        ComponentType::PiercingWeapon => "piercing_weapon"@,
        ComponentType::KineticWeapon => "kinetic_weapon"@,
        ComponentType::SwingAnimation => "swing_animation"@,
        ComponentType::AdditionalTradeCost => "additional_trade_cost"@,
        ComponentType::StoredEnchantments => "stored_enchantments"@,
        ComponentType::Dye => "dye"@,
        ComponentType::DyedColor => "dyed_color"@,
        ComponentType::MapColor => "map_color"@,
        ComponentType::MapId => "map_id"@,
        ComponentType::MapDecorations => "map_decorations"@,
        ComponentType::MapPostProcessing => "map_post_processing"@,
        ComponentType::ChargedProjectiles => "charged_projectiles"@,
        ComponentType::BundleContents => "bundle_contents"@,
        ComponentType::PotionContents => "potion_contents"@,
        ComponentType::PotionDurationScale => "potion_duration_scale"@,
        ComponentType::SuspiciousStewEffects => "suspicious_stew_effects"@,
        ComponentType::WritableBookContent => "writable_book_content"@,
        ComponentType::WrittenBookContent => "written_book_content"@,
        ComponentType::Trim => "trim"@,
        ComponentType::DebugStickState => "debug_stick_state"@,
        ComponentType::EntityData => "entity_data"@,
        ComponentType::BucketEntityData => "bucket_entity_data"@,
        ComponentType::BlockEntityData => "block_entity_data"@,
        ComponentType::Instrument => "instrument"@,
        ComponentType::ProvidesTrimMaterial => "provides_trim_material"@,
        ComponentType::OminousBottleAmplifier => "ominous_bottle_amplifier"@,
        ComponentType::JukeboxPlayable => "jukebox_playable"@,
        ComponentType::ProvidesBannerPatterns => "provides_banner_patterns"@,
        ComponentType::Recipes => "recipes"@,
        ComponentType::LodestoneTracker => "lodestone_tracker"@,
        ComponentType::FireworkExplosion => "firework_explosion"@,
        ComponentType::Fireworks => "fireworks"@,
        ComponentType::Profile => "profile"@,
        ComponentType::NoteBlockSound => "note_block_sound"@,
        ComponentType::BannerPatterns => "banner_patterns"@,
        ComponentType::BaseColor => "base_color"@,
        ComponentType::PotDecorations => "pot_decorations"@,
        ComponentType::Container => "container"@,
        ComponentType::BlockState => "block_state"@,
        ComponentType::Bees => "bees"@,
        ComponentType::SulfurCubeContent => "sulfur_cube_content"@,
        ComponentType::Lock => "lock"@,
        ComponentType::ContainerLoot => "container_loot"@,
        ComponentType::BreakSound => "break_sound"@,
        ComponentType::VillagerVariant => "villager/variant"@,
        ComponentType::WolfVariant => "wolf/variant"@,
        ComponentType::WolfSoundVariant => "wolf/sound_variant"@,
        ComponentType::WolfCollar => "wolf/collar"@,
        ComponentType::FoxVariant => "fox/variant"@,
        ComponentType::SalmonSize => "salmon/size"@,
        ComponentType::ParrotVariant => "parrot/variant"@,
        ComponentType::TropicalFishPattern => "tropical_fish/pattern"@,
        ComponentType::TropicalFishBaseColor => "tropical_fish/base_color"@,
        ComponentType::TropicalFishPatternColor => "tropical_fish/pattern_color"@,
        ComponentType::MooshroomVariant => "mooshroom/variant"@,
        ComponentType::RabbitVariant => "rabbit/variant"@,
        ComponentType::PigVariant => "pig/variant"@,
        ComponentType::PigSoundVariant => "pig/sound_variant"@,
        ComponentType::CowVariant => "cow/variant"@,
        ComponentType::CowSoundVariant => "cow/sound_variant"@,
        ComponentType::ChickenVariant => "chicken/variant"@,
        ComponentType::ChickenSoundVariant => "chicken/sound_variant"@,
        ComponentType::ZombieNautilusVariant => "zombie_nautilus/variant"@,
        ComponentType::FrogVariant => "frog/variant"@,
        ComponentType::HorseVariant => "horse/variant"@,
        ComponentType::PaintingVariant => "painting/variant"@,
        ComponentType::LlamaVariant => "llama/variant"@,
        ComponentType::AxolotlVariant => "axolotl/variant"@,
        ComponentType::CatVariant => "cat/variant"@,
        ComponentType::CatSoundVariant => "cat/sound_variant"@,
        ComponentType::CatCollar => "cat/collar"@,
        ComponentType::SheepColor => "sheep/color"@,
        ComponentType::ShulkerColor => "shulker/color"@,
    }
}

impl ComponentType {
    /// Every kind there is, in the registry's own order.
    pub const ALL: [ComponentType; 111] = [
        ComponentType::CustomData,
        ComponentType::MaxStackSize,
        ComponentType::MaxDamage,
        ComponentType::Damage,
        ComponentType::Unbreakable,
        ComponentType::UseEffects,
        ComponentType::CustomName,
        ComponentType::MinimumAttackCharge,
        ComponentType::DamageType,
        ComponentType::ItemName,
        ComponentType::ItemModel,
        ComponentType::Lore,
        ComponentType::Rarity,
        ComponentType::Enchantments,
        ComponentType::CanPlaceOn,
        ComponentType::CanBreak,
        ComponentType::AttributeModifiers,
        ComponentType::CustomModelData,
        ComponentType::TooltipDisplay,
        ComponentType::RepairCost,
        ComponentType::CreativeSlotLock,
        ComponentType::EnchantmentGlintOverride,
        ComponentType::IntangibleProjectile,
        ComponentType::Food,
        ComponentType::Consumable,
        ComponentType::UseRemainder,
        ComponentType::UseCooldown,
        ComponentType::DamageResistant,
        ComponentType::Tool,
        ComponentType::Weapon,
        ComponentType::AttackRange,
        ComponentType::Enchantable,
        ComponentType::Equippable,
        ComponentType::Repairable,
        ComponentType::Glider,
        ComponentType::TooltipStyle,
        ComponentType::DeathProtection,
        ComponentType::BlocksAttacks,
        ComponentType::PiercingWeapon,
        ComponentType::KineticWeapon,
        ComponentType::SwingAnimation,
        ComponentType::AdditionalTradeCost,
        ComponentType::StoredEnchantments,
        ComponentType::Dye,
        ComponentType::DyedColor,
        ComponentType::MapColor,
        ComponentType::MapId,
        ComponentType::MapDecorations,
        ComponentType::MapPostProcessing,
        ComponentType::ChargedProjectiles,
        ComponentType::BundleContents,
        ComponentType::PotionContents,
        ComponentType::PotionDurationScale,
        ComponentType::SuspiciousStewEffects,
        ComponentType::WritableBookContent,
        ComponentType::WrittenBookContent,
        ComponentType::Trim,
        ComponentType::DebugStickState,
        ComponentType::EntityData,
        ComponentType::BucketEntityData,
        ComponentType::BlockEntityData,
        ComponentType::Instrument,
        ComponentType::ProvidesTrimMaterial,
        ComponentType::OminousBottleAmplifier,
        ComponentType::JukeboxPlayable,
        ComponentType::ProvidesBannerPatterns,
        ComponentType::Recipes,
        ComponentType::LodestoneTracker,
        ComponentType::FireworkExplosion,
        ComponentType::Fireworks,
        ComponentType::Profile,
        ComponentType::NoteBlockSound,
        ComponentType::BannerPatterns,
        ComponentType::BaseColor,
        ComponentType::PotDecorations,
        ComponentType::Container,
        ComponentType::BlockState,
        ComponentType::Bees,
        ComponentType::SulfurCubeContent,
        ComponentType::Lock,
        ComponentType::ContainerLoot,
        ComponentType::BreakSound,
        ComponentType::VillagerVariant,
        ComponentType::WolfVariant,
        ComponentType::WolfSoundVariant,
        ComponentType::WolfCollar,
        ComponentType::FoxVariant,
        ComponentType::SalmonSize,
        ComponentType::ParrotVariant,
        ComponentType::TropicalFishPattern,
        ComponentType::TropicalFishBaseColor,
        ComponentType::TropicalFishPatternColor,
        ComponentType::MooshroomVariant,
        ComponentType::RabbitVariant,
        ComponentType::PigVariant,
        ComponentType::PigSoundVariant,
        ComponentType::CowVariant,
        ComponentType::CowSoundVariant,
        ComponentType::ChickenVariant,
        ComponentType::ChickenSoundVariant,
        ComponentType::ZombieNautilusVariant,
        ComponentType::FrogVariant,
        ComponentType::HorseVariant,
        ComponentType::PaintingVariant,
        ComponentType::LlamaVariant,
        ComponentType::AxolotlVariant,
        ComponentType::CatVariant,
        ComponentType::CatSoundVariant,
        ComponentType::CatCollar,
        ComponentType::SheepColor,
        ComponentType::ShulkerColor,
    ];
}

impl ComponentType {
    /// The number it travels as, in this server's own version.
    pub fn id(self) -> (r: u16)
        ensures
            r == component_id(self),
    {
        match self {
            ComponentType::CustomData => 0,
            ComponentType::MaxStackSize => 1,
            ComponentType::MaxDamage => 2,
            ComponentType::Damage => 3,
            ComponentType::Unbreakable => 4,
            ComponentType::UseEffects => 5,
            ComponentType::CustomName => 6,
            ComponentType::MinimumAttackCharge => 7,
            ComponentType::DamageType => 8,
            ComponentType::ItemName => 9,
            ComponentType::ItemModel => 10,
            ComponentType::Lore => 11,
            ComponentType::Rarity => 12,
            ComponentType::Enchantments => 13,
            ComponentType::CanPlaceOn => 14,
            ComponentType::CanBreak => 15,
            ComponentType::AttributeModifiers => 16,
            ComponentType::CustomModelData => 17,
            ComponentType::TooltipDisplay => 18,
            ComponentType::RepairCost => 19,
            ComponentType::CreativeSlotLock => 20,
            ComponentType::EnchantmentGlintOverride => 21,
            ComponentType::IntangibleProjectile => 22,
            ComponentType::Food => 23,
            ComponentType::Consumable => 24,
            ComponentType::UseRemainder => 25,
            ComponentType::UseCooldown => 26,
            ComponentType::DamageResistant => 27,
            ComponentType::Tool => 28,
            ComponentType::Weapon => 29,
            ComponentType::AttackRange => 30,
            ComponentType::Enchantable => 31,
            ComponentType::Equippable => 32,
            ComponentType::Repairable => 33,
            ComponentType::Glider => 34,
            ComponentType::TooltipStyle => 35,
            ComponentType::DeathProtection => 36,
            ComponentType::BlocksAttacks => 37,
            ComponentType::PiercingWeapon => 38,
            ComponentType::KineticWeapon => 39,
            ComponentType::SwingAnimation => 40,
            ComponentType::AdditionalTradeCost => 41,
            ComponentType::StoredEnchantments => 42,
            ComponentType::Dye => 43,
            ComponentType::DyedColor => 44,
            ComponentType::MapColor => 45,
            ComponentType::MapId => 46,
            ComponentType::MapDecorations => 47,
            ComponentType::MapPostProcessing => 48,
            ComponentType::ChargedProjectiles => 49,
            ComponentType::BundleContents => 50,
            ComponentType::PotionContents => 51,
            ComponentType::PotionDurationScale => 52,
            ComponentType::SuspiciousStewEffects => 53,
            ComponentType::WritableBookContent => 54,
            ComponentType::WrittenBookContent => 55,
            ComponentType::Trim => 56,
            ComponentType::DebugStickState => 57,
            ComponentType::EntityData => 58,
            ComponentType::BucketEntityData => 59,
            ComponentType::BlockEntityData => 60,
            ComponentType::Instrument => 61,
            ComponentType::ProvidesTrimMaterial => 62,
            ComponentType::OminousBottleAmplifier => 63,
            ComponentType::JukeboxPlayable => 64,
            ComponentType::ProvidesBannerPatterns => 65,
            ComponentType::Recipes => 66,
            ComponentType::LodestoneTracker => 67,
            ComponentType::FireworkExplosion => 68,
            ComponentType::Fireworks => 69,
            ComponentType::Profile => 70,
            ComponentType::NoteBlockSound => 71,
            ComponentType::BannerPatterns => 72,
            ComponentType::BaseColor => 73,
            ComponentType::PotDecorations => 74,
            ComponentType::Container => 75,
            ComponentType::BlockState => 76,
            ComponentType::Bees => 77,
            ComponentType::SulfurCubeContent => 78,
            ComponentType::Lock => 79,
            ComponentType::ContainerLoot => 80,
            ComponentType::BreakSound => 81,
            ComponentType::VillagerVariant => 82,
            ComponentType::WolfVariant => 83,
            ComponentType::WolfSoundVariant => 84,
            ComponentType::WolfCollar => 85,
            ComponentType::FoxVariant => 86,
            ComponentType::SalmonSize => 87,
            ComponentType::ParrotVariant => 88,
            ComponentType::TropicalFishPattern => 89,
            ComponentType::TropicalFishBaseColor => 90,
            ComponentType::TropicalFishPatternColor => 91,
            ComponentType::MooshroomVariant => 92,
            ComponentType::RabbitVariant => 93,
            ComponentType::PigVariant => 94,
            ComponentType::PigSoundVariant => 95,
            ComponentType::CowVariant => 96,
            ComponentType::CowSoundVariant => 97,
            ComponentType::ChickenVariant => 98,
            ComponentType::ChickenSoundVariant => 99,
            ComponentType::ZombieNautilusVariant => 100,
            ComponentType::FrogVariant => 101,
            ComponentType::HorseVariant => 102,
            ComponentType::PaintingVariant => 103,
            ComponentType::LlamaVariant => 104,
            ComponentType::AxolotlVariant => 105,
            ComponentType::CatVariant => 106,
            ComponentType::CatSoundVariant => 107,
            ComponentType::CatCollar => 108,
            ComponentType::SheepColor => 109,
            ComponentType::ShulkerColor => 110,
        }
    }

    /// Reads a kind from a resource location, with or without the `minecraft:` namespace.
    pub fn from_name(name: &str) -> (r: Option<Self>)
        ensures
            match r {
                Some(kind) => component_name(kind) == strip_default_namespace(name@),
                None => forall|kind: ComponentType| component_name(kind) != strip_default_namespace(name@),
            },
    {
        let name = without_default_namespace(name);
        if same_text(name, "custom_data") {
            return Some(ComponentType::CustomData);
        }
        if same_text(name, "max_stack_size") {
            return Some(ComponentType::MaxStackSize);
        }
        if same_text(name, "max_damage") {
            return Some(ComponentType::MaxDamage);
        }
        if same_text(name, "damage") {
            return Some(ComponentType::Damage);
        }
        if same_text(name, "unbreakable") {
            return Some(ComponentType::Unbreakable);
        }
        if same_text(name, "use_effects") {
            return Some(ComponentType::UseEffects);
        }
        if same_text(name, "custom_name") {
            return Some(ComponentType::CustomName);
        }
        if same_text(name, "minimum_attack_charge") {
            return Some(ComponentType::MinimumAttackCharge);
        }
        if same_text(name, "damage_type") {
            return Some(ComponentType::DamageType);
        }
        if same_text(name, "item_name") {
            return Some(ComponentType::ItemName);
        }
        if same_text(name, "item_model") {
            return Some(ComponentType::ItemModel);
        }
        if same_text(name, "lore") {
            return Some(ComponentType::Lore);
        }
        if same_text(name, "rarity") {
            return Some(ComponentType::Rarity);
        }
        if same_text(name, "enchantments") {
            return Some(ComponentType::Enchantments);
        }
        if same_text(name, "can_place_on") {
            return Some(ComponentType::CanPlaceOn);
        }
        if same_text(name, "can_break") {
            return Some(ComponentType::CanBreak);
        }
        if same_text(name, "attribute_modifiers") {
            return Some(ComponentType::AttributeModifiers);
        }
        if same_text(name, "custom_model_data") {
            return Some(ComponentType::CustomModelData);
        }
        if same_text(name, "tooltip_display") {
            return Some(ComponentType::TooltipDisplay);
        }
        if same_text(name, "repair_cost") {
            return Some(ComponentType::RepairCost);
        }
        if same_text(name, "creative_slot_lock") {
            return Some(ComponentType::CreativeSlotLock);
        }
        if same_text(name, "enchantment_glint_override") {
            return Some(ComponentType::EnchantmentGlintOverride);
        }
        if same_text(name, "intangible_projectile") {
            return Some(ComponentType::IntangibleProjectile);
        }
        if same_text(name, "food") {
            return Some(ComponentType::Food);
        }
        if same_text(name, "consumable") {
            return Some(ComponentType::Consumable);
        }
        if same_text(name, "use_remainder") {
            return Some(ComponentType::UseRemainder);
        }
        if same_text(name, "use_cooldown") {
            return Some(ComponentType::UseCooldown);
        }
        if same_text(name, "damage_resistant") {
            return Some(ComponentType::DamageResistant);
        }
        if same_text(name, "tool") {
            return Some(ComponentType::Tool);
        }
        if same_text(name, "weapon") {
            return Some(ComponentType::Weapon);
        }
        if same_text(name, "attack_range") {
            return Some(ComponentType::AttackRange);
        }
        if same_text(name, "enchantable") {
            return Some(ComponentType::Enchantable);
        }
        if same_text(name, "equippable") {
            return Some(ComponentType::Equippable);
        }
        if same_text(name, "repairable") {
            return Some(ComponentType::Repairable);
        }
        if same_text(name, "glider") {
            return Some(ComponentType::Glider);
        }
        if same_text(name, "tooltip_style") {
            return Some(ComponentType::TooltipStyle);
        }
        if same_text(name, "death_protection") {
            return Some(ComponentType::DeathProtection);
        }
        if same_text(name, "blocks_attacks") {
            return Some(ComponentType::BlocksAttacks);
        }
        if same_text(name, "piercing_weapon") {
            return Some(ComponentType::PiercingWeapon);
        }
        if same_text(name, "kinetic_weapon") {
            return Some(ComponentType::KineticWeapon);
        }
        if same_text(name, "swing_animation") {
            return Some(ComponentType::SwingAnimation);
        }
        if same_text(name, "additional_trade_cost") {
            return Some(ComponentType::AdditionalTradeCost);
        }
        if same_text(name, "stored_enchantments") {
            return Some(ComponentType::StoredEnchantments);
        }
        if same_text(name, "dye") {
            return Some(ComponentType::Dye);
        }
        if same_text(name, "dyed_color") {
            return Some(ComponentType::DyedColor);
        }
        if same_text(name, "map_color") {
            return Some(ComponentType::MapColor);
        }
        if same_text(name, "map_id") {
            return Some(ComponentType::MapId);
        }
        if same_text(name, "map_decorations") {
            return Some(ComponentType::MapDecorations);
        }
        if same_text(name, "map_post_processing") {
            return Some(ComponentType::MapPostProcessing);
        }
        if same_text(name, "charged_projectiles") {
            return Some(ComponentType::ChargedProjectiles);
        }
        if same_text(name, "bundle_contents") {
            return Some(ComponentType::BundleContents);
        }
        if same_text(name, "potion_contents") {
            return Some(ComponentType::PotionContents);
        }
        if same_text(name, "potion_duration_scale") {
            return Some(ComponentType::PotionDurationScale);
        }
        if same_text(name, "suspicious_stew_effects") {
            return Some(ComponentType::SuspiciousStewEffects);
        }
        if same_text(name, "writable_book_content") {
            return Some(ComponentType::WritableBookContent);
        }
        if same_text(name, "written_book_content") {
            return Some(ComponentType::WrittenBookContent);
        }
        if same_text(name, "trim") {
            return Some(ComponentType::Trim);
        }
        if same_text(name, "debug_stick_state") {
            return Some(ComponentType::DebugStickState);
        }
        if same_text(name, "entity_data") {
            return Some(ComponentType::EntityData);
        }
        if same_text(name, "bucket_entity_data") {
            return Some(ComponentType::BucketEntityData);
        }
        if same_text(name, "block_entity_data") {
            return Some(ComponentType::BlockEntityData);
        }
        if same_text(name, "instrument") {
            return Some(ComponentType::Instrument);
        }
        if same_text(name, "provides_trim_material") {
            return Some(ComponentType::ProvidesTrimMaterial);
        }
        if same_text(name, "ominous_bottle_amplifier") {
            return Some(ComponentType::OminousBottleAmplifier);
        }
        if same_text(name, "jukebox_playable") {
            return Some(ComponentType::JukeboxPlayable);
        }
        if same_text(name, "provides_banner_patterns") {
            return Some(ComponentType::ProvidesBannerPatterns);
        }
        if same_text(name, "recipes") {
            return Some(ComponentType::Recipes);
        }
        if same_text(name, "lodestone_tracker") {
            return Some(ComponentType::LodestoneTracker);
        }
        if same_text(name, "firework_explosion") {
            return Some(ComponentType::FireworkExplosion);
        }
        if same_text(name, "fireworks") {
            return Some(ComponentType::Fireworks);
        }
        if same_text(name, "profile") {
            return Some(ComponentType::Profile);
        }
        if same_text(name, "note_block_sound") {
            return Some(ComponentType::NoteBlockSound);
        }
        if same_text(name, "banner_patterns") {
            return Some(ComponentType::BannerPatterns);
        }
        if same_text(name, "base_color") {
            return Some(ComponentType::BaseColor);
        }
        if same_text(name, "pot_decorations") {
            return Some(ComponentType::PotDecorations);
        }
        if same_text(name, "container") {
            return Some(ComponentType::Container);
        }
        if same_text(name, "block_state") {
            return Some(ComponentType::BlockState);
        }
        if same_text(name, "bees") {
            return Some(ComponentType::Bees);
        }
        if same_text(name, "sulfur_cube_content") {
            return Some(ComponentType::SulfurCubeContent);
        }
        if same_text(name, "lock") {
            return Some(ComponentType::Lock);
        }
        if same_text(name, "container_loot") {
            return Some(ComponentType::ContainerLoot);
        }
        if same_text(name, "break_sound") {
            return Some(ComponentType::BreakSound);
        }
        if same_text(name, "villager/variant") {
            return Some(ComponentType::VillagerVariant);
        }
        if same_text(name, "wolf/variant") {
            return Some(ComponentType::WolfVariant);
        }
        if same_text(name, "wolf/sound_variant") {
            return Some(ComponentType::WolfSoundVariant);
        }
        if same_text(name, "wolf/collar") {
            return Some(ComponentType::WolfCollar);
        }
        if same_text(name, "fox/variant") {
            return Some(ComponentType::FoxVariant);
        }
        if same_text(name, "salmon/size") {
            return Some(ComponentType::SalmonSize);
        }
        if same_text(name, "parrot/variant") {
            return Some(ComponentType::ParrotVariant);
        }
        if same_text(name, "tropical_fish/pattern") {
            return Some(ComponentType::TropicalFishPattern);
        }
        if same_text(name, "tropical_fish/base_color") {
            return Some(ComponentType::TropicalFishBaseColor);
        }
        if same_text(name, "tropical_fish/pattern_color") {
            return Some(ComponentType::TropicalFishPatternColor);
        }
        if same_text(name, "mooshroom/variant") {
            return Some(ComponentType::MooshroomVariant);
        }
        if same_text(name, "rabbit/variant") {
            return Some(ComponentType::RabbitVariant);
        }
        if same_text(name, "pig/variant") {
            return Some(ComponentType::PigVariant);
        }
        if same_text(name, "pig/sound_variant") {
            return Some(ComponentType::PigSoundVariant);
        }
        if same_text(name, "cow/variant") {
            return Some(ComponentType::CowVariant);
        }
        if same_text(name, "cow/sound_variant") {
            return Some(ComponentType::CowSoundVariant);
        }
        if same_text(name, "chicken/variant") {
            return Some(ComponentType::ChickenVariant);
        }
        if same_text(name, "chicken/sound_variant") {
            return Some(ComponentType::ChickenSoundVariant);
        }
        if same_text(name, "zombie_nautilus/variant") {
            return Some(ComponentType::ZombieNautilusVariant);
        }
        if same_text(name, "frog/variant") {
            return Some(ComponentType::FrogVariant);
        }
        if same_text(name, "horse/variant") {
            return Some(ComponentType::HorseVariant);
        }
        if same_text(name, "painting/variant") {
            return Some(ComponentType::PaintingVariant);
        }
        if same_text(name, "llama/variant") {
            return Some(ComponentType::LlamaVariant);
        }
        if same_text(name, "axolotl/variant") {
            return Some(ComponentType::AxolotlVariant);
        }
        if same_text(name, "cat/variant") {
            return Some(ComponentType::CatVariant);
        }
        if same_text(name, "cat/sound_variant") {
            return Some(ComponentType::CatSoundVariant);
        }
        if same_text(name, "cat/collar") {
            return Some(ComponentType::CatCollar);
        }
        if same_text(name, "sheep/color") {
            return Some(ComponentType::SheepColor);
        }
        if same_text(name, "shulker/color") {
            return Some(ComponentType::ShulkerColor);
        }
        None
    }

    /// What it is called, without the namespace.
    pub fn to_name(self) -> (r: &'static str)
        ensures
            r@ == component_name(self),
    {
        match self {
            ComponentType::CustomData => "custom_data",
            ComponentType::MaxStackSize => "max_stack_size",
            ComponentType::MaxDamage => "max_damage",
            ComponentType::Damage => "damage",
            ComponentType::Unbreakable => "unbreakable",
            ComponentType::UseEffects => "use_effects",
            ComponentType::CustomName => "custom_name",
            ComponentType::MinimumAttackCharge => "minimum_attack_charge",
            ComponentType::DamageType => "damage_type",
            ComponentType::ItemName => "item_name",
            ComponentType::ItemModel => "item_model",
            ComponentType::Lore => "lore",
            ComponentType::Rarity => "rarity",
            ComponentType::Enchantments => "enchantments",
            ComponentType::CanPlaceOn => "can_place_on",
            ComponentType::CanBreak => "can_break",
            ComponentType::AttributeModifiers => "attribute_modifiers",
            ComponentType::CustomModelData => "custom_model_data",
            ComponentType::TooltipDisplay => "tooltip_display",
            ComponentType::RepairCost => "repair_cost",
            ComponentType::CreativeSlotLock => "creative_slot_lock",
            ComponentType::EnchantmentGlintOverride => "enchantment_glint_override",
            ComponentType::IntangibleProjectile => "intangible_projectile",
            ComponentType::Food => "food",
            ComponentType::Consumable => "consumable",
            ComponentType::UseRemainder => "use_remainder",
            ComponentType::UseCooldown => "use_cooldown",
            ComponentType::DamageResistant => "damage_resistant",
            ComponentType::Tool => "tool",
            ComponentType::Weapon => "weapon",
            ComponentType::AttackRange => "attack_range",
            ComponentType::Enchantable => "enchantable",
            ComponentType::Equippable => "equippable",
            ComponentType::Repairable => "repairable",
            ComponentType::Glider => "glider",
            ComponentType::TooltipStyle => "tooltip_style",
            ComponentType::DeathProtection => "death_protection",
            ComponentType::BlocksAttacks => "blocks_attacks",
            ComponentType::PiercingWeapon => "piercing_weapon",
            ComponentType::KineticWeapon => "kinetic_weapon",
            ComponentType::SwingAnimation => "swing_animation",
            ComponentType::AdditionalTradeCost => "additional_trade_cost",
            ComponentType::StoredEnchantments => "stored_enchantments",
            ComponentType::Dye => "dye",
            ComponentType::DyedColor => "dyed_color",
            ComponentType::MapColor => "map_color",
            ComponentType::MapId => "map_id",
            ComponentType::MapDecorations => "map_decorations",
            ComponentType::MapPostProcessing => "map_post_processing",
            ComponentType::ChargedProjectiles => "charged_projectiles",
            ComponentType::BundleContents => "bundle_contents",
            ComponentType::PotionContents => "potion_contents",
            ComponentType::PotionDurationScale => "potion_duration_scale",
            ComponentType::SuspiciousStewEffects => "suspicious_stew_effects",
            ComponentType::WritableBookContent => "writable_book_content",
            ComponentType::WrittenBookContent => "written_book_content",
            ComponentType::Trim => "trim",
            ComponentType::DebugStickState => "debug_stick_state",
            ComponentType::EntityData => "entity_data",
            ComponentType::BucketEntityData => "bucket_entity_data",
            ComponentType::BlockEntityData => "block_entity_data",
            ComponentType::Instrument => "instrument",
            ComponentType::ProvidesTrimMaterial => "provides_trim_material",
            ComponentType::OminousBottleAmplifier => "ominous_bottle_amplifier",
            ComponentType::JukeboxPlayable => "jukebox_playable",
            ComponentType::ProvidesBannerPatterns => "provides_banner_patterns",
            ComponentType::Recipes => "recipes",
            ComponentType::LodestoneTracker => "lodestone_tracker",
            ComponentType::FireworkExplosion => "firework_explosion",
            ComponentType::Fireworks => "fireworks",
            ComponentType::Profile => "profile",
            ComponentType::NoteBlockSound => "note_block_sound",
            ComponentType::BannerPatterns => "banner_patterns",
            ComponentType::BaseColor => "base_color",
            ComponentType::PotDecorations => "pot_decorations",
            ComponentType::Container => "container",
            ComponentType::BlockState => "block_state",
            ComponentType::Bees => "bees",
            ComponentType::SulfurCubeContent => "sulfur_cube_content",
            ComponentType::Lock => "lock",
            ComponentType::ContainerLoot => "container_loot",
            ComponentType::BreakSound => "break_sound",
            ComponentType::VillagerVariant => "villager/variant",
            ComponentType::WolfVariant => "wolf/variant",
            ComponentType::WolfSoundVariant => "wolf/sound_variant",
            ComponentType::WolfCollar => "wolf/collar",
            ComponentType::FoxVariant => "fox/variant",
            ComponentType::SalmonSize => "salmon/size",
            ComponentType::ParrotVariant => "parrot/variant",
            ComponentType::TropicalFishPattern => "tropical_fish/pattern",
            ComponentType::TropicalFishBaseColor => "tropical_fish/base_color",
            ComponentType::TropicalFishPatternColor => "tropical_fish/pattern_color",
            ComponentType::MooshroomVariant => "mooshroom/variant",
            ComponentType::RabbitVariant => "rabbit/variant",
            ComponentType::PigVariant => "pig/variant",
            ComponentType::PigSoundVariant => "pig/sound_variant",
            ComponentType::CowVariant => "cow/variant",
            ComponentType::CowSoundVariant => "cow/sound_variant",
            ComponentType::ChickenVariant => "chicken/variant",
            ComponentType::ChickenSoundVariant => "chicken/sound_variant",
            ComponentType::ZombieNautilusVariant => "zombie_nautilus/variant",
            ComponentType::FrogVariant => "frog/variant",
            ComponentType::HorseVariant => "horse/variant",
            ComponentType::PaintingVariant => "painting/variant",
            ComponentType::LlamaVariant => "llama/variant",
            ComponentType::AxolotlVariant => "axolotl/variant",
            ComponentType::CatVariant => "cat/variant",
            ComponentType::CatSoundVariant => "cat/sound_variant",
            ComponentType::CatCollar => "cat/collar",
            ComponentType::SheepColor => "sheep/color",
            ComponentType::ShulkerColor => "shulker/color",
        }
    }
}

/// No two kinds travel as the same number.
pub proof fn lemma_component_id_injective(a: ComponentType, b: ComponentType)
    ensures
        component_id(a) == component_id(b) ==> a == b,
{
}

/// The kind of component a name, without its namespace, belongs to, if any.
pub open spec fn component_named(s: Seq<char>) -> Option<ComponentType> {
    if s == "custom_data"@ {
        Some(ComponentType::CustomData)
    } else if s == "max_stack_size"@ {
        Some(ComponentType::MaxStackSize)
    } else if s == "max_damage"@ {
        Some(ComponentType::MaxDamage)
    } else if s == "damage"@ {
        Some(ComponentType::Damage)
    } else if s == "unbreakable"@ {
        Some(ComponentType::Unbreakable)
    } else if s == "use_effects"@ {
        Some(ComponentType::UseEffects)
    } else if s == "custom_name"@ {
        Some(ComponentType::CustomName)
    } else if s == "minimum_attack_charge"@ {
        Some(ComponentType::MinimumAttackCharge)
    } else if s == "damage_type"@ {
        Some(ComponentType::DamageType)
    } else if s == "item_name"@ {
        Some(ComponentType::ItemName)
    } else if s == "item_model"@ {
        Some(ComponentType::ItemModel)
    } else if s == "lore"@ {
        Some(ComponentType::Lore)
    } else if s == "rarity"@ {
        Some(ComponentType::Rarity)
    } else if s == "enchantments"@ {
        Some(ComponentType::Enchantments)
    } else if s == "can_place_on"@ {
        Some(ComponentType::CanPlaceOn)
    } else if s == "can_break"@ {
        Some(ComponentType::CanBreak)
    } else if s == "attribute_modifiers"@ {
        Some(ComponentType::AttributeModifiers)
    } else if s == "custom_model_data"@ {
        Some(ComponentType::CustomModelData)
    } else if s == "tooltip_display"@ {
        Some(ComponentType::TooltipDisplay)
    } else if s == "repair_cost"@ {
        Some(ComponentType::RepairCost)
    } else if s == "creative_slot_lock"@ {
        Some(ComponentType::CreativeSlotLock)
    } else if s == "enchantment_glint_override"@ {
        Some(ComponentType::EnchantmentGlintOverride)
    } else if s == "intangible_projectile"@ {
        Some(ComponentType::IntangibleProjectile)
    } else if s == "food"@ {
        Some(ComponentType::Food)
    } else if s == "consumable"@ {
        Some(ComponentType::Consumable)
    } else if s == "use_remainder"@ {
        Some(ComponentType::UseRemainder)
    } else if s == "use_cooldown"@ {
        Some(ComponentType::UseCooldown)
    } else if s == "damage_resistant"@ {
        Some(ComponentType::DamageResistant)
    } else if s == "tool"@ {
        Some(ComponentType::Tool)
    } else if s == "weapon"@ {
        Some(ComponentType::Weapon)
    } else if s == "attack_range"@ {
        Some(ComponentType::AttackRange)
    } else if s == "enchantable"@ {
        Some(ComponentType::Enchantable)
    } else if s == "equippable"@ {
        Some(ComponentType::Equippable)
    } else if s == "repairable"@ {
        Some(ComponentType::Repairable)
    } else if s == "glider"@ {
        Some(ComponentType::Glider)
    } else if s == "tooltip_style"@ {
        Some(ComponentType::TooltipStyle)
    } else if s == "death_protection"@ {
        Some(ComponentType::DeathProtection)
    } else if s == "blocks_attacks"@ {
        Some(ComponentType::BlocksAttacks)
    } else if s == "piercing_weapon"@ {
        Some(ComponentType::PiercingWeapon)
    } else if s == "kinetic_weapon"@ {
        Some(ComponentType::KineticWeapon)
    } else if s == "swing_animation"@ {
        Some(ComponentType::SwingAnimation)
    } else if s == "additional_trade_cost"@ {
        Some(ComponentType::AdditionalTradeCost)
    } else if s == "stored_enchantments"@ {
        Some(ComponentType::StoredEnchantments)
    } else if s == "dye"@ {
        Some(ComponentType::Dye)
    } else if s == "dyed_color"@ {
        Some(ComponentType::DyedColor)
    } else if s == "map_color"@ {
        Some(ComponentType::MapColor)
    } else if s == "map_id"@ {
        Some(ComponentType::MapId)
    } else if s == "map_decorations"@ {
        Some(ComponentType::MapDecorations)
    } else if s == "map_post_processing"@ {
        Some(ComponentType::MapPostProcessing)
    } else if s == "charged_projectiles"@ {
        Some(ComponentType::ChargedProjectiles)
    } else if s == "bundle_contents"@ {
        Some(ComponentType::BundleContents)
    } else if s == "potion_contents"@ {
        Some(ComponentType::PotionContents)
    } else if s == "potion_duration_scale"@ {
        Some(ComponentType::PotionDurationScale)
    } else if s == "suspicious_stew_effects"@ {
        Some(ComponentType::SuspiciousStewEffects)
    } else if s == "writable_book_content"@ {
        Some(ComponentType::WritableBookContent)
    } else if s == "written_book_content"@ {
        Some(ComponentType::WrittenBookContent)
    } else if s == "trim"@ {
        Some(ComponentType::Trim)
    } else if s == "debug_stick_state"@ {
        Some(ComponentType::DebugStickState)
    } else if s == "entity_data"@ {
        Some(ComponentType::EntityData)
    } else if s == "bucket_entity_data"@ {
        Some(ComponentType::BucketEntityData)
    } else if s == "block_entity_data"@ {
        Some(ComponentType::BlockEntityData)
    } else if s == "instrument"@ {
        Some(ComponentType::Instrument)
    } else if s == "provides_trim_material"@ {
        Some(ComponentType::ProvidesTrimMaterial)
    } else if s == "ominous_bottle_amplifier"@ {
        Some(ComponentType::OminousBottleAmplifier)
    } else if s == "jukebox_playable"@ {
        Some(ComponentType::JukeboxPlayable)
    } else if s == "provides_banner_patterns"@ {
        Some(ComponentType::ProvidesBannerPatterns)
    } else if s == "recipes"@ {
        Some(ComponentType::Recipes)
    } else if s == "lodestone_tracker"@ {
        Some(ComponentType::LodestoneTracker)
    } else if s == "firework_explosion"@ {
        Some(ComponentType::FireworkExplosion)
    } else if s == "fireworks"@ {
        Some(ComponentType::Fireworks)
    } else if s == "profile"@ {
        Some(ComponentType::Profile)
    } else if s == "note_block_sound"@ {
        Some(ComponentType::NoteBlockSound)
    } else if s == "banner_patterns"@ {
        Some(ComponentType::BannerPatterns)
    } else if s == "base_color"@ {
        Some(ComponentType::BaseColor)
    } else if s == "pot_decorations"@ {
        Some(ComponentType::PotDecorations)
    } else if s == "container"@ {
        Some(ComponentType::Container)
    } else if s == "block_state"@ {
        Some(ComponentType::BlockState)
    } else if s == "bees"@ {
        Some(ComponentType::Bees)
    } else if s == "sulfur_cube_content"@ {
        Some(ComponentType::SulfurCubeContent)
    } else if s == "lock"@ {
        Some(ComponentType::Lock)
    } else if s == "container_loot"@ {
        Some(ComponentType::ContainerLoot)
    } else if s == "break_sound"@ {
        Some(ComponentType::BreakSound)
    } else if s == "villager/variant"@ {
        Some(ComponentType::VillagerVariant)
    } else if s == "wolf/variant"@ {
        Some(ComponentType::WolfVariant)
    } else if s == "wolf/sound_variant"@ {
        Some(ComponentType::WolfSoundVariant)
    } else if s == "wolf/collar"@ {
        Some(ComponentType::WolfCollar)
    } else if s == "fox/variant"@ {
        Some(ComponentType::FoxVariant)
    } else if s == "salmon/size"@ {
        Some(ComponentType::SalmonSize)
    } else if s == "parrot/variant"@ {
        Some(ComponentType::ParrotVariant)
    } else if s == "tropical_fish/pattern"@ {
        Some(ComponentType::TropicalFishPattern)
    } else if s == "tropical_fish/base_color"@ {
        Some(ComponentType::TropicalFishBaseColor)
    } else if s == "tropical_fish/pattern_color"@ {
        Some(ComponentType::TropicalFishPatternColor)
    } else if s == "mooshroom/variant"@ {
        Some(ComponentType::MooshroomVariant)
    } else if s == "rabbit/variant"@ {
        Some(ComponentType::RabbitVariant)
    } else if s == "pig/variant"@ {
        Some(ComponentType::PigVariant)
    } else if s == "pig/sound_variant"@ {
        Some(ComponentType::PigSoundVariant)
    } else if s == "cow/variant"@ {
        Some(ComponentType::CowVariant)
    } else if s == "cow/sound_variant"@ {
        Some(ComponentType::CowSoundVariant)
    } else if s == "chicken/variant"@ {
        Some(ComponentType::ChickenVariant)
    } else if s == "chicken/sound_variant"@ {
        Some(ComponentType::ChickenSoundVariant)
    } else if s == "zombie_nautilus/variant"@ {
        Some(ComponentType::ZombieNautilusVariant)
    } else if s == "frog/variant"@ {
        Some(ComponentType::FrogVariant)
    } else if s == "horse/variant"@ {
        Some(ComponentType::HorseVariant)
    } else if s == "painting/variant"@ {
        Some(ComponentType::PaintingVariant)
    } else if s == "llama/variant"@ {
        Some(ComponentType::LlamaVariant)
    } else if s == "axolotl/variant"@ {
        Some(ComponentType::AxolotlVariant)
    } else if s == "cat/variant"@ {
        Some(ComponentType::CatVariant)
    } else if s == "cat/sound_variant"@ {
        Some(ComponentType::CatSoundVariant)
    } else if s == "cat/collar"@ {
        Some(ComponentType::CatCollar)
    } else if s == "sheep/color"@ {
        Some(ComponentType::SheepColor)
    } else if s == "shulker/color"@ {
        Some(ComponentType::ShulkerColor)
    } else {
        None
    }
}

/// How long each name is, and the characters that tell apart names of one length.
proof fn lemma_component_name_facts()
    ensures
        "minecraft:"@.len() == 10,
        "custom_data"@.len() == 11,
        "max_stack_size"@.len() == 14,
        "max_damage"@.len() == 10,
        "damage"@.len() == 6,
        "unbreakable"@.len() == 11,
        "use_effects"@.len() == 11,
        "custom_name"@.len() == 11,
        "minimum_attack_charge"@.len() == 21,
        "damage_type"@.len() == 11,
        "item_name"@.len() == 9,
        "item_model"@.len() == 10,
        "lore"@.len() == 4,
        "rarity"@.len() == 6,
        "enchantments"@.len() == 12,
        "can_place_on"@.len() == 12,
        "can_break"@.len() == 9,
        "attribute_modifiers"@.len() == 19,
        "custom_model_data"@.len() == 17,
        "tooltip_display"@.len() == 15,
        "repair_cost"@.len() == 11,
        "creative_slot_lock"@.len() == 18,
        "enchantment_glint_override"@.len() == 26,
        "intangible_projectile"@.len() == 21,
        "food"@.len() == 4,
        "consumable"@.len() == 10,
        "use_remainder"@.len() == 13,
        "use_cooldown"@.len() == 12,
        "damage_resistant"@.len() == 16,
        "tool"@.len() == 4,
        "weapon"@.len() == 6,
        "attack_range"@.len() == 12,
        "enchantable"@.len() == 11,
        "equippable"@.len() == 10,
        "repairable"@.len() == 10,
        "glider"@.len() == 6,
        "tooltip_style"@.len() == 13,
        "death_protection"@.len() == 16,
        "blocks_attacks"@.len() == 14,
        "piercing_weapon"@.len() == 15,
        "kinetic_weapon"@.len() == 14,
        "swing_animation"@.len() == 15,
        "additional_trade_cost"@.len() == 21,
        "stored_enchantments"@.len() == 19,
        "dye"@.len() == 3,
        "dyed_color"@.len() == 10,
        "map_color"@.len() == 9,
        "map_id"@.len() == 6,
        "map_decorations"@.len() == 15,
        "map_post_processing"@.len() == 19,
        "charged_projectiles"@.len() == 19,
        "bundle_contents"@.len() == 15,
        "potion_contents"@.len() == 15,
        "potion_duration_scale"@.len() == 21,
        "suspicious_stew_effects"@.len() == 23,
        "writable_book_content"@.len() == 21,
        "written_book_content"@.len() == 20,
        "trim"@.len() == 4,
        "debug_stick_state"@.len() == 17,
        "entity_data"@.len() == 11,
        "bucket_entity_data"@.len() == 18,
        "block_entity_data"@.len() == 17,
        "instrument"@.len() == 10,
        "provides_trim_material"@.len() == 22,
        "ominous_bottle_amplifier"@.len() == 24,
        "jukebox_playable"@.len() == 16,
        "provides_banner_patterns"@.len() == 24,
        "recipes"@.len() == 7,
        "lodestone_tracker"@.len() == 17,
        "firework_explosion"@.len() == 18,
        "fireworks"@.len() == 9,
        "profile"@.len() == 7,
        "note_block_sound"@.len() == 16,
        "banner_patterns"@.len() == 15,
        "base_color"@.len() == 10,
        "pot_decorations"@.len() == 15,
        "container"@.len() == 9,
        "block_state"@.len() == 11,
        "bees"@.len() == 4,
        "sulfur_cube_content"@.len() == 19,
        "lock"@.len() == 4,
        "container_loot"@.len() == 14,
        "break_sound"@.len() == 11,
        "villager/variant"@.len() == 16,
        "wolf/variant"@.len() == 12,
        "wolf/sound_variant"@.len() == 18,
        "wolf/collar"@.len() == 11,
        "fox/variant"@.len() == 11,
        "salmon/size"@.len() == 11,
        "parrot/variant"@.len() == 14,
        "tropical_fish/pattern"@.len() == 21,
        "tropical_fish/base_color"@.len() == 24,
        "tropical_fish/pattern_color"@.len() == 27,
        "mooshroom/variant"@.len() == 17,
        "rabbit/variant"@.len() == 14,
        "pig/variant"@.len() == 11,
        "pig/sound_variant"@.len() == 17,
        "cow/variant"@.len() == 11,
        "cow/sound_variant"@.len() == 17,
        "chicken/variant"@.len() == 15,
        "chicken/sound_variant"@.len() == 21,
        "zombie_nautilus/variant"@.len() == 23,
        "frog/variant"@.len() == 12,
        "horse/variant"@.len() == 13,
        "painting/variant"@.len() == 16,
        "llama/variant"@.len() == 13,
        "axolotl/variant"@.len() == 15,
        "cat/variant"@.len() == 11,
        "cat/sound_variant"@.len() == 17,
        "cat/collar"@.len() == 10,
        "sheep/color"@.len() == 11,
        "shulker/color"@.len() == 13,
        "additional_trade_cost"@[0] == 'a',
        "attack_range"@[0] == 'a',
        "attribute_modifiers"@[0] == 'a',
        "axolotl/variant"@[0] == 'a',
        "banner_patterns"@[0] == 'b',
        "banner_patterns"@[1] == 'a',
        "base_color"@[0] == 'b',
        "bees"@[0] == 'b',
        "block_entity_data"@[0] == 'b',
        "block_state"@[0] == 'b',
        "block_state"@[1] == 'l',
        "blocks_attacks"@[0] == 'b',
        "break_sound"@[0] == 'b',
        "break_sound"@[1] == 'r',
        "bucket_entity_data"@[0] == 'b',
        "bundle_contents"@[0] == 'b',
        "bundle_contents"@[1] == 'u',
        "can_break"@[0] == 'c',
        "can_break"@[1] == 'a',
        "can_place_on"@[0] == 'c',
        "cat/collar"@[0] == 'c',
        "cat/collar"@[1] == 'a',
        "cat/sound_variant"@[0] == 'c',
        "cat/sound_variant"@[1] == 'a',
        "cat/variant"@[0] == 'c',
        "cat/variant"@[1] == 'a',
        "charged_projectiles"@[0] == 'c',
        "chicken/sound_variant"@[0] == 'c',
        "chicken/variant"@[0] == 'c',
        "consumable"@[0] == 'c',
        "consumable"@[1] == 'o',
        "container"@[0] == 'c',
        "container"@[1] == 'o',
        "container_loot"@[0] == 'c',
        "cow/sound_variant"@[0] == 'c',
        "cow/sound_variant"@[1] == 'o',
        "cow/variant"@[0] == 'c',
        "cow/variant"@[1] == 'o',
        "creative_slot_lock"@[0] == 'c',
        "custom_data"@[0] == 'c',
        "custom_data"@[1] == 'u',
        "custom_data"@[7] == 'd',
        "custom_model_data"@[0] == 'c',
        "custom_model_data"@[1] == 'u',
        "custom_name"@[0] == 'c',
        "custom_name"@[1] == 'u',
        "custom_name"@[7] == 'n',
        "damage"@[0] == 'd',
        "damage_resistant"@[0] == 'd',
        "damage_resistant"@[1] == 'a',
        "damage_type"@[0] == 'd',
        "death_protection"@[0] == 'd',
        "death_protection"@[1] == 'e',
        "debug_stick_state"@[0] == 'd',
        "dyed_color"@[0] == 'd',
        "enchantable"@[0] == 'e',
        "enchantable"@[2] == 'c',
        "enchantment_glint_override"@[0] == 'e',
        "enchantments"@[0] == 'e',
        "entity_data"@[0] == 'e',
        "entity_data"@[2] == 't',
        "equippable"@[0] == 'e',
        "firework_explosion"@[0] == 'f',
        "fireworks"@[0] == 'f',
        "food"@[0] == 'f',
        "fox/variant"@[0] == 'f',
        "frog/variant"@[0] == 'f',
        "glider"@[0] == 'g',
        "horse/variant"@[0] == 'h',
        "instrument"@[0] == 'i',
        "instrument"@[1] == 'n',
        "intangible_projectile"@[0] == 'i',
        "item_model"@[0] == 'i',
        "item_model"@[1] == 't',
        "item_name"@[0] == 'i',
        "jukebox_playable"@[0] == 'j',
        "kinetic_weapon"@[0] == 'k',
        "llama/variant"@[0] == 'l',
        "lock"@[0] == 'l',
        "lock"@[2] == 'c',
        "lodestone_tracker"@[0] == 'l',
        "lore"@[0] == 'l',
        "lore"@[2] == 'r',
        "map_color"@[0] == 'm',
        "map_decorations"@[0] == 'm',
        "map_decorations"@[1] == 'a',
        "map_id"@[0] == 'm',
        "map_post_processing"@[0] == 'm',
        "map_post_processing"@[1] == 'a',
        "max_damage"@[0] == 'm',
        "max_damage"@[1] == 'a',
        "max_stack_size"@[0] == 'm',
        "max_stack_size"@[1] == 'a',
        "minecraft:"@[0] == 'm',
        "minecraft:"@[1] == 'i',
        "minecraft:"@[3] == 'e',
        "minimum_attack_charge"@[0] == 'm',
        "minimum_attack_charge"@[3] == 'i',
        "mooshroom/variant"@[0] == 'm',
        "mooshroom/variant"@[1] == 'o',
        "note_block_sound"@[0] == 'n',
        "ominous_bottle_amplifier"@[0] == 'o',
        "painting/variant"@[0] == 'p',
        "parrot/variant"@[0] == 'p',
        "piercing_weapon"@[0] == 'p',
        "piercing_weapon"@[1] == 'i',
        "pig/sound_variant"@[0] == 'p',
        "pig/variant"@[0] == 'p',
        "pot_decorations"@[0] == 'p',
        "pot_decorations"@[1] == 'o',
        "pot_decorations"@[3] == '_',
        "potion_contents"@[0] == 'p',
        "potion_contents"@[1] == 'o',
        "potion_contents"@[3] == 'i',
        "potion_duration_scale"@[0] == 'p',
        "profile"@[0] == 'p',
        "provides_banner_patterns"@[0] == 'p',
        "provides_trim_material"@[0] == 'p',
        "rabbit/variant"@[0] == 'r',
        "rarity"@[0] == 'r',
        "recipes"@[0] == 'r',
        "repair_cost"@[0] == 'r',
        "repairable"@[0] == 'r',
        "salmon/size"@[0] == 's',
        "salmon/size"@[1] == 'a',
        "sheep/color"@[0] == 's',
        "sheep/color"@[1] == 'h',
        "shulker/color"@[0] == 's',
        "stored_enchantments"@[0] == 's',
        "stored_enchantments"@[1] == 't',
        "sulfur_cube_content"@[0] == 's',
        "sulfur_cube_content"@[1] == 'u',
        "suspicious_stew_effects"@[0] == 's',
        "swing_animation"@[0] == 's',
        "tool"@[0] == 't',
        "tool"@[1] == 'o',
        "tooltip_display"@[0] == 't',
        "tooltip_style"@[0] == 't',
        "trim"@[0] == 't',
        "trim"@[1] == 'r',
        "tropical_fish/base_color"@[0] == 't',
        "tropical_fish/pattern"@[0] == 't',
        "tropical_fish/pattern_color"@[0] == 't',
        "unbreakable"@[0] == 'u',
        "unbreakable"@[1] == 'n',
        "use_cooldown"@[0] == 'u',
        "use_effects"@[0] == 'u',
        "use_effects"@[1] == 's',
        "use_remainder"@[0] == 'u',
        "villager/variant"@[0] == 'v',
        "weapon"@[0] == 'w',
        "wolf/collar"@[0] == 'w',
        "wolf/sound_variant"@[0] == 'w',
        "wolf/variant"@[0] == 'w',
        "writable_book_content"@[0] == 'w',
        "written_book_content"@[0] == 'w',
        "zombie_nautilus/variant"@[0] == 'z',
{
    reveal_strlit("minecraft:");
    reveal_strlit("custom_data");
    reveal_strlit("max_stack_size");
    reveal_strlit("max_damage");
    reveal_strlit("damage");
    reveal_strlit("unbreakable");
    reveal_strlit("use_effects");
    reveal_strlit("custom_name");
    reveal_strlit("minimum_attack_charge");
    reveal_strlit("damage_type");
    reveal_strlit("item_name");
    reveal_strlit("item_model");
    reveal_strlit("lore");
    reveal_strlit("rarity");
    reveal_strlit("enchantments");
    reveal_strlit("can_place_on");
    reveal_strlit("can_break");
    reveal_strlit("attribute_modifiers");
    reveal_strlit("custom_model_data");
    reveal_strlit("tooltip_display");
    reveal_strlit("repair_cost");
    reveal_strlit("creative_slot_lock");
    reveal_strlit("enchantment_glint_override");
    reveal_strlit("intangible_projectile");
    reveal_strlit("food");
    reveal_strlit("consumable");
    reveal_strlit("use_remainder");
    reveal_strlit("use_cooldown");
    reveal_strlit("damage_resistant");
    reveal_strlit("tool");
    reveal_strlit("weapon");
    reveal_strlit("attack_range");
    reveal_strlit("enchantable");
    reveal_strlit("equippable");
    reveal_strlit("repairable");
    reveal_strlit("glider");
    reveal_strlit("tooltip_style");
    reveal_strlit("death_protection");
    reveal_strlit("blocks_attacks");
    reveal_strlit("piercing_weapon");
    reveal_strlit("kinetic_weapon");
    reveal_strlit("swing_animation");
    reveal_strlit("additional_trade_cost");
    reveal_strlit("stored_enchantments");
    reveal_strlit("dye");
    reveal_strlit("dyed_color");
    reveal_strlit("map_color");
    reveal_strlit("map_id");
    reveal_strlit("map_decorations");
    reveal_strlit("map_post_processing");
    reveal_strlit("charged_projectiles");
    reveal_strlit("bundle_contents");
    reveal_strlit("potion_contents");
    reveal_strlit("potion_duration_scale");
    reveal_strlit("suspicious_stew_effects");
    reveal_strlit("writable_book_content");
    reveal_strlit("written_book_content");
    reveal_strlit("trim");
    reveal_strlit("debug_stick_state");
    reveal_strlit("entity_data");
    reveal_strlit("bucket_entity_data");
    reveal_strlit("block_entity_data");
    reveal_strlit("instrument");
    reveal_strlit("provides_trim_material");
    reveal_strlit("ominous_bottle_amplifier");
    reveal_strlit("jukebox_playable");
    reveal_strlit("provides_banner_patterns");
    reveal_strlit("recipes");
    reveal_strlit("lodestone_tracker");
    reveal_strlit("firework_explosion");
    reveal_strlit("fireworks");
    reveal_strlit("profile");
    reveal_strlit("note_block_sound");
    reveal_strlit("banner_patterns");
    reveal_strlit("base_color");
    reveal_strlit("pot_decorations");
    reveal_strlit("container");
    reveal_strlit("block_state");
    reveal_strlit("bees");
    reveal_strlit("sulfur_cube_content");
    reveal_strlit("lock");
    reveal_strlit("container_loot");
    reveal_strlit("break_sound");
    reveal_strlit("villager/variant");
    reveal_strlit("wolf/variant");
    reveal_strlit("wolf/sound_variant");
    reveal_strlit("wolf/collar");
    reveal_strlit("fox/variant");
    reveal_strlit("salmon/size");
    reveal_strlit("parrot/variant");
    reveal_strlit("tropical_fish/pattern");
    reveal_strlit("tropical_fish/base_color");
    reveal_strlit("tropical_fish/pattern_color");
    reveal_strlit("mooshroom/variant");
    reveal_strlit("rabbit/variant");
    reveal_strlit("pig/variant");
    reveal_strlit("pig/sound_variant");
    reveal_strlit("cow/variant");
    reveal_strlit("cow/sound_variant");
    reveal_strlit("chicken/variant");
    reveal_strlit("chicken/sound_variant");
    reveal_strlit("zombie_nautilus/variant");
    reveal_strlit("frog/variant");
    reveal_strlit("horse/variant");
    reveal_strlit("painting/variant");
    reveal_strlit("llama/variant");
    reveal_strlit("axolotl/variant");
    reveal_strlit("cat/variant");
    reveal_strlit("cat/sound_variant");
    reveal_strlit("cat/collar");
    reveal_strlit("sheep/color");
    reveal_strlit("shulker/color");
}

proof fn lemma_component_named(kind: ComponentType)
    ensures
        component_named(component_name(kind)) == Some(kind),
        strip_default_namespace(component_name(kind)) == component_name(kind),
{
    lemma_component_name_facts();
    match kind {
        ComponentType::CustomData => {
            assert("custom_data"@.take(10)[0] == "custom_data"@[0]);
        },
        ComponentType::MaxStackSize => {
            assert("max_stack_size"@.take(10)[1] == "max_stack_size"@[1]);
        },
        ComponentType::MaxDamage => {
            assert("max_damage"@.take(10)[1] == "max_damage"@[1]);
        },
        ComponentType::Damage => {},
        ComponentType::Unbreakable => {
            assert("unbreakable"@.take(10)[0] == "unbreakable"@[0]);
        },
        ComponentType::UseEffects => {
            assert("use_effects"@.take(10)[0] == "use_effects"@[0]);
        },
        ComponentType::CustomName => {
            assert("custom_name"@.take(10)[0] == "custom_name"@[0]);
        },
        ComponentType::MinimumAttackCharge => {
            assert("minimum_attack_charge"@.take(10)[3] == "minimum_attack_charge"@[3]);
        },
        ComponentType::DamageType => {
            assert("damage_type"@.take(10)[0] == "damage_type"@[0]);
        },
        ComponentType::ItemName => {},
        ComponentType::ItemModel => {
            assert("item_model"@.take(10)[0] == "item_model"@[0]);
        },
        ComponentType::Lore => {},
        ComponentType::Rarity => {},
        ComponentType::Enchantments => {
            assert("enchantments"@.take(10)[0] == "enchantments"@[0]);
        },
        ComponentType::CanPlaceOn => {
            assert("can_place_on"@.take(10)[0] == "can_place_on"@[0]);
        },
        ComponentType::CanBreak => {},
        ComponentType::AttributeModifiers => {
            assert("attribute_modifiers"@.take(10)[0] == "attribute_modifiers"@[0]);
        },
        ComponentType::CustomModelData => {
            assert("custom_model_data"@.take(10)[0] == "custom_model_data"@[0]);
        },
        ComponentType::TooltipDisplay => {
            assert("tooltip_display"@.take(10)[0] == "tooltip_display"@[0]);
        },
        ComponentType::RepairCost => {
            assert("repair_cost"@.take(10)[0] == "repair_cost"@[0]);
        },
        ComponentType::CreativeSlotLock => {
            assert("creative_slot_lock"@.take(10)[0] == "creative_slot_lock"@[0]);
        },
        ComponentType::EnchantmentGlintOverride => {
            assert("enchantment_glint_override"@.take(10)[0] == "enchantment_glint_override"@[0]);
        },
        ComponentType::IntangibleProjectile => {
            assert("intangible_projectile"@.take(10)[0] == "intangible_projectile"@[0]);
        },
        ComponentType::Food => {},
        ComponentType::Consumable => {
            assert("consumable"@.take(10)[0] == "consumable"@[0]);
        },
        ComponentType::UseRemainder => {
            assert("use_remainder"@.take(10)[0] == "use_remainder"@[0]);
        },
        ComponentType::UseCooldown => {
            assert("use_cooldown"@.take(10)[0] == "use_cooldown"@[0]);
        },
        ComponentType::DamageResistant => {
            assert("damage_resistant"@.take(10)[0] == "damage_resistant"@[0]);
        },
        ComponentType::Tool => {},
        ComponentType::Weapon => {},
        ComponentType::AttackRange => {
            assert("attack_range"@.take(10)[0] == "attack_range"@[0]);
        },
        ComponentType::Enchantable => {
            assert("enchantable"@.take(10)[0] == "enchantable"@[0]);
        },
        ComponentType::Equippable => {
            assert("equippable"@.take(10)[0] == "equippable"@[0]);
        },
        ComponentType::Repairable => {
            assert("repairable"@.take(10)[0] == "repairable"@[0]);
        },
        ComponentType::Glider => {},
        ComponentType::TooltipStyle => {
            assert("tooltip_style"@.take(10)[0] == "tooltip_style"@[0]);
        },
        ComponentType::DeathProtection => {
            assert("death_protection"@.take(10)[0] == "death_protection"@[0]);
        },
        ComponentType::BlocksAttacks => {
            assert("blocks_attacks"@.take(10)[0] == "blocks_attacks"@[0]);
        },
        ComponentType::PiercingWeapon => {
            assert("piercing_weapon"@.take(10)[0] == "piercing_weapon"@[0]);
        },
        ComponentType::KineticWeapon => {
            assert("kinetic_weapon"@.take(10)[0] == "kinetic_weapon"@[0]);
        },
        ComponentType::SwingAnimation => {
            assert("swing_animation"@.take(10)[0] == "swing_animation"@[0]);
        },
        ComponentType::AdditionalTradeCost => {
            assert("additional_trade_cost"@.take(10)[0] == "additional_trade_cost"@[0]);
        },
        ComponentType::StoredEnchantments => {
            assert("stored_enchantments"@.take(10)[0] == "stored_enchantments"@[0]);
        },
        ComponentType::Dye => {},
        ComponentType::DyedColor => {
            assert("dyed_color"@.take(10)[0] == "dyed_color"@[0]);
        },
        ComponentType::MapColor => {},
        ComponentType::MapId => {},
        ComponentType::MapDecorations => {
            assert("map_decorations"@.take(10)[1] == "map_decorations"@[1]);
        },
        ComponentType::MapPostProcessing => {
            assert("map_post_processing"@.take(10)[1] == "map_post_processing"@[1]);
        },
        ComponentType::ChargedProjectiles => {
            assert("charged_projectiles"@.take(10)[0] == "charged_projectiles"@[0]);
        },
        ComponentType::BundleContents => {
            assert("bundle_contents"@.take(10)[0] == "bundle_contents"@[0]);
        },
        ComponentType::PotionContents => {
            assert("potion_contents"@.take(10)[0] == "potion_contents"@[0]);
        },
        ComponentType::PotionDurationScale => {
            assert("potion_duration_scale"@.take(10)[0] == "potion_duration_scale"@[0]);
        },
        ComponentType::SuspiciousStewEffects => {
            assert("suspicious_stew_effects"@.take(10)[0] == "suspicious_stew_effects"@[0]);
        },
        ComponentType::WritableBookContent => {
            assert("writable_book_content"@.take(10)[0] == "writable_book_content"@[0]);
        },
        ComponentType::WrittenBookContent => {
            assert("written_book_content"@.take(10)[0] == "written_book_content"@[0]);
        },
        ComponentType::Trim => {},
        ComponentType::DebugStickState => {
            assert("debug_stick_state"@.take(10)[0] == "debug_stick_state"@[0]);
        },
        ComponentType::EntityData => {
            assert("entity_data"@.take(10)[0] == "entity_data"@[0]);
        },
        ComponentType::BucketEntityData => {
            assert("bucket_entity_data"@.take(10)[0] == "bucket_entity_data"@[0]);
        },
        ComponentType::BlockEntityData => {
            assert("block_entity_data"@.take(10)[0] == "block_entity_data"@[0]);
        },
        ComponentType::Instrument => {
            assert("instrument"@.take(10)[0] == "instrument"@[0]);
        },
        ComponentType::ProvidesTrimMaterial => {
            assert("provides_trim_material"@.take(10)[0] == "provides_trim_material"@[0]);
        },
        ComponentType::OminousBottleAmplifier => {
            assert("ominous_bottle_amplifier"@.take(10)[0] == "ominous_bottle_amplifier"@[0]);
        },
        ComponentType::JukeboxPlayable => {
            assert("jukebox_playable"@.take(10)[0] == "jukebox_playable"@[0]);
        },
        ComponentType::ProvidesBannerPatterns => {
            assert("provides_banner_patterns"@.take(10)[0] == "provides_banner_patterns"@[0]);
        },
        ComponentType::Recipes => {},
        ComponentType::LodestoneTracker => {
            assert("lodestone_tracker"@.take(10)[0] == "lodestone_tracker"@[0]);
        },
        ComponentType::FireworkExplosion => {
            assert("firework_explosion"@.take(10)[0] == "firework_explosion"@[0]);
        },
        ComponentType::Fireworks => {},
        ComponentType::Profile => {},
        ComponentType::NoteBlockSound => {
            assert("note_block_sound"@.take(10)[0] == "note_block_sound"@[0]);
        },
        ComponentType::BannerPatterns => {
            assert("banner_patterns"@.take(10)[0] == "banner_patterns"@[0]);
        },
        ComponentType::BaseColor => {
            assert("base_color"@.take(10)[0] == "base_color"@[0]);
        },
        ComponentType::PotDecorations => {
            assert("pot_decorations"@.take(10)[0] == "pot_decorations"@[0]);
        },
        ComponentType::Container => {},
        ComponentType::BlockState => {
            assert("block_state"@.take(10)[0] == "block_state"@[0]);
        },
        ComponentType::Bees => {},
        ComponentType::SulfurCubeContent => {
            assert("sulfur_cube_content"@.take(10)[0] == "sulfur_cube_content"@[0]);
        },
        ComponentType::Lock => {},
        ComponentType::ContainerLoot => {
            assert("container_loot"@.take(10)[0] == "container_loot"@[0]);
        },
        ComponentType::BreakSound => {
            assert("break_sound"@.take(10)[0] == "break_sound"@[0]);
        },
        ComponentType::VillagerVariant => {
            assert("villager/variant"@.take(10)[0] == "villager/variant"@[0]);
        },
        ComponentType::WolfVariant => {
            assert("wolf/variant"@.take(10)[0] == "wolf/variant"@[0]);
        },
        ComponentType::WolfSoundVariant => {
            assert("wolf/sound_variant"@.take(10)[0] == "wolf/sound_variant"@[0]);
        },
        ComponentType::WolfCollar => {
            assert("wolf/collar"@.take(10)[0] == "wolf/collar"@[0]);
        },
        ComponentType::FoxVariant => {
            assert("fox/variant"@.take(10)[0] == "fox/variant"@[0]);
        },
        ComponentType::SalmonSize => {
            assert("salmon/size"@.take(10)[0] == "salmon/size"@[0]);
        },
        ComponentType::ParrotVariant => {
            assert("parrot/variant"@.take(10)[0] == "parrot/variant"@[0]);
        },
        ComponentType::TropicalFishPattern => {
            assert("tropical_fish/pattern"@.take(10)[0] == "tropical_fish/pattern"@[0]);
        },
        ComponentType::TropicalFishBaseColor => {
            assert("tropical_fish/base_color"@.take(10)[0] == "tropical_fish/base_color"@[0]);
        },
        ComponentType::TropicalFishPatternColor => {
            assert("tropical_fish/pattern_color"@.take(10)[0] == "tropical_fish/pattern_color"@[0]);
        },
        ComponentType::MooshroomVariant => {
            assert("mooshroom/variant"@.take(10)[1] == "mooshroom/variant"@[1]);
        },
        ComponentType::RabbitVariant => {
            assert("rabbit/variant"@.take(10)[0] == "rabbit/variant"@[0]);
        },
        ComponentType::PigVariant => {
            assert("pig/variant"@.take(10)[0] == "pig/variant"@[0]);
        },
        ComponentType::PigSoundVariant => {
            assert("pig/sound_variant"@.take(10)[0] == "pig/sound_variant"@[0]);
        },
        ComponentType::CowVariant => {
            assert("cow/variant"@.take(10)[0] == "cow/variant"@[0]);
        },
        ComponentType::CowSoundVariant => {
            assert("cow/sound_variant"@.take(10)[0] == "cow/sound_variant"@[0]);
        },
        ComponentType::ChickenVariant => {
            assert("chicken/variant"@.take(10)[0] == "chicken/variant"@[0]);
        },
        ComponentType::ChickenSoundVariant => {
            assert("chicken/sound_variant"@.take(10)[0] == "chicken/sound_variant"@[0]);
        },
        ComponentType::ZombieNautilusVariant => {
            assert("zombie_nautilus/variant"@.take(10)[0] == "zombie_nautilus/variant"@[0]);
        },
        ComponentType::FrogVariant => {
            assert("frog/variant"@.take(10)[0] == "frog/variant"@[0]);
        },
        ComponentType::HorseVariant => {
            assert("horse/variant"@.take(10)[0] == "horse/variant"@[0]);
        },
        ComponentType::PaintingVariant => {
            assert("painting/variant"@.take(10)[0] == "painting/variant"@[0]);
        },
        ComponentType::LlamaVariant => {
            assert("llama/variant"@.take(10)[0] == "llama/variant"@[0]);
        },
        ComponentType::AxolotlVariant => {
            assert("axolotl/variant"@.take(10)[0] == "axolotl/variant"@[0]);
        },
        ComponentType::CatVariant => {
            assert("cat/variant"@.take(10)[0] == "cat/variant"@[0]);
        },
        ComponentType::CatSoundVariant => {
            assert("cat/sound_variant"@.take(10)[0] == "cat/sound_variant"@[0]);
        },
        ComponentType::CatCollar => {
            assert("cat/collar"@.take(10)[0] == "cat/collar"@[0]);
        },
        ComponentType::SheepColor => {
            assert("sheep/color"@.take(10)[0] == "sheep/color"@[0]);
        },
        ComponentType::ShulkerColor => {
            assert("shulker/color"@.take(10)[0] == "shulker/color"@[0]);
        },
    }
}

/// No two kinds of component share a name, and none is named with the `minecraft:` namespace in it: so
/// reading a name, bare or with `minecraft:` in front, gives the one it names and no other.
pub proof fn lemma_component_names_read_back(kind: ComponentType)
    ensures
        strip_default_namespace(component_name(kind)) == component_name(kind),
        strip_default_namespace("minecraft:"@ + component_name(kind)) == component_name(kind),
        forall|other: ComponentType| #[trigger] component_name(other) == component_name(kind) ==> other == kind,
{
    lemma_component_named(kind);
    reveal_strlit("minecraft:");
    let whole = "minecraft:"@ + component_name(kind);
    assert(whole.take(10) =~= "minecraft:"@);
    assert(whole.skip(10) =~= component_name(kind));
    assert forall|other: ComponentType| #[trigger] component_name(other) == component_name(kind) implies other == kind by {
        lemma_component_named(other);
    }
}

} // verus!
