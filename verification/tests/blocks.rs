use ferrumc::block_properties::{light, needs_the_right_tool};
use ferrumc::entity_data::{has_bit, with_bit, EntityFlag};
use ferrumc::using::{Hand, UsingItem};

/// Three states: dirt (soft, dark), stone (needs a pickaxe), a torch (soft, light fourteen).
fn table() -> Vec<u8> {
    let mut packed = Vec::new();
    for (hardness, flags) in [(0.5f32, 0x00u8), (1.5, 0x80), (0.0, 0x0E)] {
        packed.extend_from_slice(&hardness.to_le_bytes());
        packed.push(flags);
    }
    packed
}

/// The game's packed block table is not among the sources here, so this asks the question of the
/// hand-made table above, in which state 0 is dirt and state 1 is stone, rather than of the real
/// states the game numbers them by.
#[test]
fn stone_needs_a_pickaxe_and_dirt_needs_nothing() {
    let packed = table();
    assert!(!needs_the_right_tool(&packed, 0));
    assert!(needs_the_right_tool(&packed, 1));
    assert!(!needs_the_right_tool(&packed, 2));
}

#[test]
fn a_state_gives_off_the_light_it_says() {
    let packed = table();
    assert_eq!(light(&packed, 0), 0);
    assert_eq!(light(&packed, 1), 0, "the flag is not light");
    assert_eq!(light(&packed, 2), 14);
}

#[test]
fn a_state_past_the_table_is_soft_and_dark() {
    let packed = table();
    assert!(!needs_the_right_tool(&packed, 3));
    assert_eq!(light(&packed, 3), 0);
    assert_eq!(light(&packed, u32::MAX), 0);
}

#[test]
fn one_bit_of_the_flags_byte_leaves_the_others_alone() {
    let mut flags = 0u8;
    flags = with_bit(flags, EntityFlag::Sprinting.mask(), true);
    flags = with_bit(flags, EntityFlag::Crouching.mask(), true);
    assert!(has_bit(flags, EntityFlag::Sprinting.mask()));
    assert!(has_bit(flags, EntityFlag::Crouching.mask()));

    flags = with_bit(flags, EntityFlag::Sprinting.mask(), false);
    assert!(!has_bit(flags, EntityFlag::Sprinting.mask()));
    assert!(
        has_bit(flags, EntityFlag::Crouching.mask()),
        "crouching and sprinting share a byte, and writing one is not writing the other"
    );
}

/// The item registry that numbers cooked beef is not among the sources here; the countdown does
/// not read the item, so any number stands in for it.
#[test]
fn a_use_counts_down_and_says_when_it_is_done() {
    let mut using = UsingItem { hand: Hand::Main, slot: 36, item: 1000, left: 3, takes: 3 };
    assert!(!using.tick());
    assert!(!using.tick());
    assert!(using.tick(), "the third tick finishes it");
    assert!(using.tick(), "and stays finished");
    assert_eq!(using.left, 0);
}
