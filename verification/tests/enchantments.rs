use ferrumc::enchantment_kinds::EnchantmentSlot;
use ferrumc::enchantments::Enchantment;
use ferrumc::wire_ids::ProtocolVersion;

#[test]
fn the_enchantment_the_newest_version_added_is_here() {
    assert!(Enchantment::from_name("minecraft:lunge").is_some());
}

/// `lunge` was added in the middle of the alphabet, which moved the ones after it. A level of
/// sharpness sent as the newest numbers it is a different enchantment to an older client.
#[test]
fn an_enchantment_is_a_different_number_to_a_different_client() {
    let sharpness = Enchantment::from_name("sharpness").expect("it is an enchantment");
    assert_ne!(
        sharpness.wire_id(ProtocolVersion::V26_2),
        sharpness.wire_id(ProtocolVersion::V1_21)
    );
}

#[test]
fn one_a_version_does_not_know_has_no_number() {
    let lunge = Enchantment::from_name("lunge").expect("it is an enchantment");
    assert_eq!(lunge.wire_id(ProtocolVersion::V1_21), None);
    assert!(lunge.wire_id(ProtocolVersion::V26_2).is_some());
}

#[test]
fn a_number_reads_back_as_the_enchantment_that_client_meant() {
    for version in ProtocolVersion::ALL {
        for name in ["sharpness", "mending", "protection", "unbreaking"] {
            let known = Enchantment::from_name(name).expect("it is an enchantment");
            let Some(id) = known.wire_id(version) else {
                continue;
            };
            assert_eq!(
                Enchantment::from_wire_id(id, version).map(|read| read.name),
                Some(known.name),
                "{name} on {version:?}"
            );
        }
    }
}

#[test]
fn sharpness_is_what_the_packs_say_it_is() {
    let sharpness = Enchantment::from_name("minecraft:sharpness").expect("it is an enchantment");
    assert_eq!(sharpness.id, 33);
    assert_eq!(sharpness.description, "enchantment.minecraft.sharpness");
    assert_eq!(sharpness.anvil_cost, 1);
    assert_eq!(sharpness.slots, &[EnchantmentSlot::MAINHAND]);
    assert_eq!(sharpness.supported_items, "#minecraft:enchantable/sharp_weapon");
    assert_eq!(sharpness.weight, 10);
    assert_eq!(sharpness.max_level, 5);
    assert_eq!(
        sharpness.exclusive_set,
        Some("#minecraft:exclusive_set/damage")
    );
}

#[test]
fn a_table_asks_more_for_each_level_past_the_first() {
    let sharpness = Enchantment::from_id(33).expect("it is an enchantment");
    assert_eq!(sharpness.min_cost(1), 1);
    assert_eq!(sharpness.max_cost(1), 21);
    assert_eq!(sharpness.min_cost(5), 45);
    assert_eq!(sharpness.max_cost(5), 65);
}

#[test]
fn a_number_past_the_registry_is_no_enchantment() {
    assert!(Enchantment::from_id(42).is_some());
    assert!(Enchantment::from_id(43).is_none());
    assert!(Enchantment::from_name("mypack:invented").is_none());
    assert!(Enchantment::from_name("invented").is_none());
}

#[test]
fn every_enchantment_is_found_again_by_its_name() {
    for id in 0..43 {
        let known = Enchantment::from_id(id).expect("in range");
        assert_eq!(known.id, id);
        let found = Enchantment::from_name(known.name).expect("by its name");
        assert_eq!(found.id, id);
    }
}
