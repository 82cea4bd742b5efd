use ferrumc::components::ComponentType;
use ferrumc::damage_types::DamageType;
use ferrumc::wire_ids::ProtocolVersion;

#[test]
fn every_kind_the_registry_has_is_here() {
    assert_eq!(ComponentType::ALL.len(), 111);
    assert_eq!(
        ComponentType::from_name("minecraft:custom_name"),
        Some(ComponentType::CustomName)
    );
    assert_eq!(ComponentType::CustomName.to_name(), "custom_name");
}

/// A component's number is a place in the reader's own registry, and that registry went from
/// 57 kinds to 111 across the supported versions.
#[test]
fn the_same_kind_is_a_different_number_to_a_different_client() {
    assert_eq!(
        ComponentType::CustomName.wire_id(ProtocolVersion::V26_2),
        Some(6)
    );
    assert_eq!(
        ComponentType::CustomName.wire_id(ProtocolVersion::V1_21),
        Some(5)
    );
}

/// One a version has never heard of has no number: a component carries no length, so a wrong
/// one makes the rest of the stack unreadable.
#[test]
fn lib_a_kind_a_version_does_not_know_has_no_number() {
    assert_eq!(ComponentType::Weapon.wire_id(ProtocolVersion::V1_21), None);
    assert!(ComponentType::Weapon
        .wire_id(ProtocolVersion::V26_2)
        .is_some());
}

#[test]
fn a_number_reads_back_as_the_kind_that_client_meant() {
    for version in ProtocolVersion::ALL {
        for kind in [
            ComponentType::CustomName,
            ComponentType::Damage,
            ComponentType::Enchantments,
            ComponentType::CustomData,
        ] {
            let Some(id) = kind.wire_id(version) else {
                continue;
            };
            assert_eq!(
                ComponentType::from_wire_id(id, version),
                Some(kind),
                "{kind:?} on {version:?}"
            );
        }
    }
}

#[test]
fn every_kind_sits_at_its_own_number_in_the_list_of_all() {
    for (at, kind) in ComponentType::ALL.iter().enumerate() {
        assert_eq!(usize::from(kind.id()), at);
    }
    assert_eq!(ProtocolVersion::ALL.len(), 10);
    assert_eq!(ProtocolVersion::ALL[0], ProtocolVersion::V1_21);
    assert_eq!(ProtocolVersion::ALL[9], ProtocolVersion::V26_2);
}

/// The number a client reads is a place in its own registry, and the registry has grown across
/// the supported versions. Sending the newest number to an older client names a different kind.
#[test]
fn the_same_kind_has_different_numbers_on_different_versions() {
    let newest = DamageType::SonicBoom.wire_id(ProtocolVersion::V26_2);
    let oldest = DamageType::SonicBoom.wire_id(ProtocolVersion::V1_21);
    assert!(newest.is_some() && oldest.is_some());
    assert_ne!(newest, oldest, "the registry grew in between");
}

/// A kind of damage a version has never heard of has no number.
#[test]
fn a_damage_kind_a_version_does_not_know_has_no_number() {
    assert_eq!(DamageType::Spear.wire_id(ProtocolVersion::V1_21), None);
    assert!(DamageType::Spear.wire_id(ProtocolVersion::V26_2).is_some());
}

/// Every version knows the kinds that have always been there.
#[test]
fn every_version_knows_the_old_kinds() {
    for version in ProtocolVersion::ALL {
        for kind in [
            DamageType::Fall,
            DamageType::Drown,
            DamageType::OnFire,
            DamageType::InFire,
            DamageType::Lava,
            DamageType::OutOfWorld,
            DamageType::PlayerAttack,
        ] {
            assert!(kind.wire_id(version).is_some(), "{kind:?} on {version:?}");
        }
    }
}

#[test]
fn the_first_kind_of_damage_is_nought_to_every_client() {
    for version in ProtocolVersion::ALL {
        assert_eq!(DamageType::Arrow.wire_id(version), Some(0));
    }
}
