use ferrumc::attributes::Operation;
use ferrumc::components::ComponentType;
use ferrumc::damage_types::{DamageType, Scaling};
use ferrumc::effect_kinds::{Category, Effect};

/// The kinds the packs added most recently, which a dump beside them did not have.
#[test]
fn every_kind_the_packs_define_is_here() {
    assert!(DamageType::from_name("spear").is_some());
    assert!(DamageType::from_name("sulfur_cube_hot").is_some());
}

/// Which group a kind is in decides what softens it, so these come from the packs rather than
/// from memory.
#[test]
fn a_kind_knows_which_groups_it_is_in() {
    // Starving goes through armour and through resistance; a sword does neither.
    assert!(DamageType::Starve.goes_through_armour());
    assert!(!DamageType::PlayerAttack.goes_through_armour());

    assert!(DamageType::Fall.is_fall());
    assert!(!DamageType::Fall.is_fire());
    assert!(DamageType::InFire.is_fire());
    assert!(DamageType::Drown.is_drowning());
    assert!(DamageType::Explosion.is_explosion());

    // The void is not stopped by anything at all.
    assert!(DamageType::OutOfWorld.goes_through_invulnerability());
}

#[test]
fn a_kind_reads_with_or_without_its_namespace() {
    assert_eq!(DamageType::from_name("minecraft:fall"), Some(DamageType::Fall));
    assert_eq!(DamageType::from_name("fall"), Some(DamageType::Fall));
    assert_eq!(DamageType::from_name("mypack:fall"), None);
    assert_eq!(DamageType::from_name("nonsense"), None);
    assert_eq!(DamageType::WitherSkull.to_name(), "wither_skull");
    assert_eq!(DamageType::PlayerAttack.message_id(), "player");
    assert_eq!(DamageType::Campfire.message_id(), "inFire");
    assert_eq!(DamageType::Explosion.scaling(), Scaling::Always);
    assert_eq!(DamageType::Fall.scaling(), Scaling::WhenCausedByLivingNonPlayer);
    assert!(DamageType::Starve.goes_through_effects());
    assert!(DamageType::GenericKill.goes_through_resistance());
    assert!(!DamageType::Fall.goes_through_the_cooldown());
    assert!(DamageType::Cactus.pushes_nothing());
    assert!(!DamageType::Arrow.pushes_nothing());
}

#[test]
fn every_kind_of_damage_reads_back_from_its_name() {
    for kind in [
        DamageType::Arrow,
        DamageType::Spear,
        DamageType::SonicBoom,
        DamageType::WindCharge,
        DamageType::MobAttackNoAggro,
    ] {
        assert_eq!(DamageType::from_name(kind.to_name()), Some(kind));
    }
}

#[test]
fn a_component_is_numbered_by_its_place_in_the_registry() {
    assert_eq!(ComponentType::CustomData.id(), 0);
    assert_eq!(ComponentType::MaxStackSize.id(), 1);
    assert_eq!(ComponentType::ShulkerColor.id(), 110);
    assert_eq!(ComponentType::from_name("minecraft:damage"), Some(ComponentType::Damage));
    assert_eq!(ComponentType::from_name("custom_name"), Some(ComponentType::CustomName));
    assert_eq!(ComponentType::Damage.to_name(), "damage");
    assert_eq!(ComponentType::from_name("not_a_component"), None);
}

#[test]
fn an_effect_knows_what_it_is_like() {
    assert_eq!(Effect::Speed.id(), 0);
    assert_eq!(Effect::Wither.id(), 19);
    assert_eq!(Effect::Poison.category(), Category::Harmful);
    assert_eq!(Effect::Absorption.category(), Category::Beneficial);
    assert_eq!(Effect::Speed.colour(), 3402751);
    assert!(Effect::InstantHealth.is_instant());
    assert!(!Effect::Regeneration.is_instant());
    assert_eq!(Effect::from_name("minecraft:night_vision"), Some(Effect::NightVision));
    assert_eq!(Effect::BadOmen.to_name(), "bad_omen");
    assert_eq!(Effect::from_name("nausea_ii"), None);
}

#[test]
fn an_operation_travels_as_its_place_in_the_order() {
    assert_eq!(Operation::AddValue.wire_id(), 0);
    assert_eq!(Operation::AddMultipliedBase.wire_id(), 1);
    assert_eq!(Operation::AddMultipliedTotal.wire_id(), 2);
}
