use ferrumc::drops::{largest_orb, orbs_for, DroppedItem, ExperienceOrb, LIFETIME, MAX_STACK, PICKUP_DELAY};
use ferrumc::inventory::InventorySlot;

#[test]
fn experience_comes_in_the_sizes_the_game_gives_it() {
    assert_eq!(largest_orb(1), 1);
    assert_eq!(largest_orb(2), 1);
    assert_eq!(largest_orb(3), 3);
    assert_eq!(largest_orb(6), 3);
    assert_eq!(largest_orb(7), 7);
    assert_eq!(largest_orb(10_000), 2477);
}

#[test]
fn an_amount_breaks_into_orbs_that_add_up_to_it() {
    for amount in [1, 2, 5, 12, 100, 1234, 10_000] {
        let orbs: Vec<u32> = orbs_for(amount);
        assert_eq!(orbs.iter().sum::<u32>(), amount, "{amount} broke into {orbs:?}");
        assert!(!orbs.is_empty());
    }
}

#[test]
fn a_small_amount_is_one_orb() {
    assert_eq!(orbs_for(1), vec![1]);
    assert_eq!(orbs_for(3), vec![3]);
}

#[test]
fn a_large_amount_is_several_largest_first() {
    let orbs: Vec<u32> = orbs_for(100);
    assert_eq!(orbs, vec![73, 17, 7, 3]);
}

#[test]
fn nothing_at_all_makes_no_orbs() {
    assert_eq!(orbs_for(0).len(), 0);
}

#[test]
fn an_orb_gives_up_after_five_minutes() {
    let mut orb = ExperienceOrb::new(7);
    assert_eq!(orb.value, 7);
    assert!(!orb.expired());
    orb.age = LIFETIME;
    assert!(orb.expired());
}

#[test]
fn a_full_stack_has_nothing_to_gain_from_joining_another() {
    let mut full = DroppedItem::new(InventorySlot::empty());
    full.stack.count = i32::from(MAX_STACK);
    assert!(!full.will_merge());

    let half = DroppedItem::new(InventorySlot::empty());
    assert!(half.will_merge());
}

#[test]
fn something_that_has_lain_there_long_enough_gives_up() {
    let mut dropped = DroppedItem::new(InventorySlot::empty());
    assert!(!dropped.expired());
    dropped.age = LIFETIME;
    assert!(dropped.expired());
    assert!(
        !dropped.will_merge(),
        "and should not take a fresher one down with it"
    );
}

#[test]
fn something_just_dropped_waits_before_it_can_be_taken() {
    let mut dropped = DroppedItem::new(InventorySlot::empty());
    assert_eq!(dropped.pickup_delay, PICKUP_DELAY);
    assert!(!dropped.can_be_taken());
    dropped.pickup_delay = 0;
    assert!(dropped.can_be_taken());
}
