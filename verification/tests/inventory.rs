use ferrumc::components::ComponentType;
use ferrumc::inventory::{
    Inventory, InventoryError, InventorySlot, ItemID, DEFAULT_PLAYER_SIZE, HOTBAR_END, HOTBAR_START,
    MAIN_END, MAIN_START, OFFHAND_SLOT,
};
use ferrumc::stack_components::ComponentValue;

/// The most of one kind of item a slot holds, for the kinds these tests use.
const STACK: u8 = 64;
const ONE: u8 = 1;

/// A stack of one. A count of nothing is not a stack, whatever id is on it.
fn make_slot_with_id(id: i32) -> InventorySlot {
    InventorySlot::of(ItemID(id), 1)
}

#[test]
fn test_new_inventory() {
    let inv = Inventory::new(5);
    assert_eq!(inv.slots.len(), 5);
    assert!(inv.slots.iter().all(|s| s.is_none()));
}

#[test]
fn test_add_and_get_item() {
    let mut inv = Inventory::new(2);
    let slot = make_slot_with_id(1);
    assert!(inv.add_item(slot.duplicate(), None, STACK).is_empty());
    assert!(inv.get_item(0).unwrap().is_some());
    assert!(inv.get_item(1).unwrap().is_none());
}

#[test]
fn test_add_item_full() {
    let mut inv = Inventory::new(1);
    let slot = make_slot_with_id(1);
    assert!(inv.add_item(slot, None, STACK).is_empty());
    // A full inventory hands back what would not fit rather than refusing outright, so a
    // caller can put the rest back on the ground.
    let left = inv.add_item(make_slot_with_id(2), None, STACK);
    assert!(!left.is_empty());
}

#[test]
fn test_set_and_remove_item() {
    let mut inv = Inventory::new(1);
    let slot = make_slot_with_id(1);
    inv.set_item(0, slot).unwrap();
    assert!(inv.get_item(0).unwrap().is_some());
    inv.remove_item(0).unwrap();
    assert!(inv.get_item(0).unwrap().is_none());
}

#[test]
fn test_contains_item() {
    let mut inv = Inventory::new(2);
    let slot = make_slot_with_id(42);
    assert!(inv.add_item(slot, None, STACK).is_empty());
    assert!(inv.contains_item(42));
    assert!(!inv.contains_item(99));
}

#[test]
fn test_clear() {
    let mut inv = Inventory::new(2);
    inv.set_item(0, make_slot_with_id(1)).unwrap();
    inv.set_item(1, make_slot_with_id(2)).unwrap();
    inv.clear();
    assert!(inv.slots.iter().all(|s| s.is_none()));
}

#[test]
fn test_invalid_index() {
    let mut inv = Inventory::new(1);
    assert!(matches!(inv.get_item(2), Err(InventoryError::InvalidSlotIndex(2))));
    assert!(matches!(inv.set_item(2, make_slot_with_id(1)), Err(InventoryError::InvalidSlotIndex(2))));
    assert!(matches!(inv.remove_item(2), Err(InventoryError::InvalidSlotIndex(2))));
}

// The registry's own numbers.
const DIRT: ItemID = ItemID(55);
const SWORD: ItemID = ItemID(964);

fn a_player() -> Inventory {
    Inventory::new(DEFAULT_PLAYER_SIZE)
}

fn count_in(inventory: &Inventory, at: usize) -> i32 {
    inventory.get_item(at).ok().flatten().map_or(0, |held| held.count)
}

/// The whole point: a second handful of dirt goes on the first, not into a new slot.
#[test]
fn a_second_handful_tops_up_the_first() {
    let mut inventory = a_player();
    assert!(inventory.add_item(InventorySlot::of(DIRT, 30), None, STACK).is_empty());
    assert!(inventory.add_item(InventorySlot::of(DIRT, 20), None, STACK).is_empty());

    let held: i32 = (0..DEFAULT_PLAYER_SIZE).map(|at| count_in(&inventory, at)).sum();
    assert_eq!(held, 50);
    let used = (0..DEFAULT_PLAYER_SIZE).filter(|at| count_in(&inventory, *at) > 0).count();
    assert_eq!(used, 1, "one slot, not two");
}

#[test]
fn what_will_not_fit_spills_into_the_next_slot() {
    let mut inventory = a_player();
    assert!(inventory.add_item(InventorySlot::of(DIRT, 100), None, STACK).is_empty());

    let used: Vec<i32> = (HOTBAR_START..HOTBAR_END)
        .chain(MAIN_START..MAIN_END)
        .map(|at| count_in(&inventory, at))
        .filter(|count| *count > 0)
        .collect();
    assert_eq!(used, vec![64, 36], "a full stack and the rest");
}

/// A stack's ceiling is the item's own answer: sixteen for a pearl, one for a sword.
#[test]
fn a_stack_fills_only_to_its_own_ceiling() {
    let mut inventory = a_player();
    inventory.add_item(InventorySlot::of(ItemID(1144), 20), None, 16);
    let used: Vec<i32> = (HOTBAR_START..HOTBAR_END)
        .chain(MAIN_START..MAIN_END)
        .map(|at| count_in(&inventory, at))
        .filter(|count| *count > 0)
        .collect();
    assert_eq!(used, vec![16, 4]);
}

/// A named sword does not merge into a plain one, however alike they look.
#[test]
fn two_swords_that_are_not_the_same_thing_do_not_merge() {
    let mut inventory = a_player();
    let mut named = InventorySlot::of(SWORD, 1);
    named.components.set(ComponentType::CustomName, ComponentValue::Text(b"Sting".to_vec()));

    inventory.add_item(named, None, ONE);
    inventory.add_item(InventorySlot::of(SWORD, 1), None, ONE);

    let used = (0..DEFAULT_PLAYER_SIZE).filter(|at| count_in(&inventory, *at) > 0).count();
    assert_eq!(used, 2, "two swords, kept apart");
}

/// Something new never lands in the off hand, however empty it is.
#[test]
fn a_picked_up_block_does_not_land_in_the_shield_hand() {
    let mut inventory = a_player();
    inventory.add_item(InventorySlot::of(DIRT, 5), None, STACK);
    assert_eq!(count_in(&inventory, OFFHAND_SLOT), 0);
    assert_eq!(count_in(&inventory, HOTBAR_START), 5);
}

/// But one already held there is topped up, which is how a stack of pearls in the off hand
/// grows.
#[test]
fn what_is_already_in_the_off_hand_is_topped_up() {
    let mut inventory = a_player();
    inventory.set_item(OFFHAND_SLOT, InventorySlot::of(DIRT, 10)).expect("the slot exists");
    inventory.add_item(InventorySlot::of(DIRT, 5), None, STACK);
    assert_eq!(count_in(&inventory, OFFHAND_SLOT), 15);
}

/// And two of the same damaged sword do not either, since the damage is part of what it is.
#[test]
fn two_stacks_with_different_damage_are_two_stacks() {
    let mut inventory = a_player();
    let mut worn = InventorySlot::of(DIRT, 1);
    worn.components.set(ComponentType::Damage, ComponentValue::Number(3));

    inventory.add_item(worn, None, STACK);
    inventory.add_item(InventorySlot::of(DIRT, 1), None, STACK);
    assert_eq!((0..DEFAULT_PLAYER_SIZE).filter(|at| count_in(&inventory, *at) > 0).count(), 2);
}

/// What is being held is topped up first, which is what makes mining feel right.
#[test]
fn what_is_in_hand_is_filled_before_anything_else() {
    let mut inventory = a_player();
    let held = HOTBAR_START + 3;
    inventory.set_item(held, InventorySlot::of(DIRT, 10)).expect("the slot exists");
    inventory.set_item(MAIN_START, InventorySlot::of(DIRT, 10)).expect("the slot exists");

    inventory.add_item(InventorySlot::of(DIRT, 5), Some(3), STACK);
    assert_eq!(count_in(&inventory, held), 15, "the held stack grew");
    assert_eq!(count_in(&inventory, MAIN_START), 10, "and no other");
}

/// A full inventory hands back what would not fit rather than losing it.
#[test]
fn what_will_not_fit_comes_back() {
    let mut inventory = a_player();
    for at in (MAIN_START..MAIN_END).chain(HOTBAR_START..HOTBAR_END) {
        inventory.set_item(at, InventorySlot::of(SWORD, 1)).expect("the slot exists");
    }
    let left = inventory.add_item(InventorySlot::of(DIRT, 7), None, STACK);
    assert_eq!(left.count, 7, "nothing fitted, and nothing was lost");
    assert_eq!(left.item_id, Some(DIRT));
}

#[test]
fn a_partly_full_inventory_takes_what_it_can_and_hands_back_the_rest() {
    let mut inventory = a_player();
    for at in (MAIN_START..MAIN_END).chain(HOTBAR_START..HOTBAR_END) {
        inventory.set_item(at, InventorySlot::of(SWORD, 1)).expect("the slot exists");
    }
    inventory.set_item(MAIN_START, InventorySlot::of(DIRT, 60)).expect("the slot exists");

    let left = inventory.add_item(InventorySlot::of(DIRT, 10), None, STACK);
    assert_eq!(count_in(&inventory, MAIN_START), 64);
    assert_eq!(left.count, 6, "and six came back");
}

#[test]
fn nothing_at_all_goes_nowhere() {
    let mut inventory = a_player();
    assert!(inventory.add_item(InventorySlot::empty(), None, STACK).is_empty());
}

#[test]
fn an_item_is_found_where_it_lies() {
    let mut inventory = a_player();
    inventory.set_item(MAIN_START + 2, InventorySlot::of(DIRT, 3)).expect("the slot exists");
    assert_eq!(inventory.find_item(DIRT), Some(MAIN_START + 2));
    assert_eq!(inventory.find_item(SWORD), None);
}

#[test]
fn a_stack_put_away_with_an_update_lands_in_the_first_empty_slot_and_says_so() {
    let mut inventory = Inventory::new(3);
    inventory.set_item(0, InventorySlot::of(ItemID(1), 5)).expect("in range");
    let update = inventory
        .add_item_with_update(InventorySlot::of(ItemID(2), 7))
        .expect("there is room");
    assert_eq!(update.slot_index, 1);
    assert_eq!(update.slot.count, 7);
    assert_eq!(inventory.find_item(ItemID(2)), Some(1));

    inventory.set_item(2, InventorySlot::of(ItemID(3), 1)).expect("in range");
    assert_eq!(
        inventory.add_item_with_update(InventorySlot::of(ItemID(4), 1)).err(),
        Some(InventoryError::InventoryFull)
    );
}

#[test]
fn every_change_with_an_update_says_what_the_slot_now_holds() {
    let mut inventory = Inventory::new(2);
    let set = inventory
        .set_item_with_update(1, InventorySlot::of(ItemID(9), 3))
        .expect("in range");
    assert_eq!((set.slot_index, set.slot.count), (1, 3));
    assert_eq!(
        inventory.set_item_with_update(2, InventorySlot::of(ItemID(9), 3)).err(),
        Some(InventoryError::InvalidSlotIndex(2))
    );

    assert_eq!(
        inventory.remove_item_with_update(0).err(),
        Some(InventoryError::ItemNotFound)
    );
    let cleared = inventory.clear_slot_with_update(0).expect("in range");
    assert!(cleared.slot.is_empty(), "an empty slot is still told about");

    let removed = inventory.remove_item_with_update(1).expect("it held something");
    assert_eq!(removed.slot_index, 1);
    assert!(removed.slot.is_empty());
    assert_eq!(inventory.find_item(ItemID(9)), None);
}

#[test]
fn a_swap_with_an_update_tells_of_both_slots() {
    let mut inventory = Inventory::new(3);
    inventory.set_item(0, InventorySlot::of(ItemID(5), 2)).expect("in range");
    let updates = inventory.swap_slots_with_update(0, 2).expect("both in range");
    assert_eq!(updates.len(), 2);
    assert_eq!(updates[0].slot_index, 0);
    assert!(updates[0].slot.is_empty());
    assert_eq!(updates[1].slot_index, 2);
    assert_eq!(updates[1].slot.count, 2);
    assert_eq!(inventory.find_item(ItemID(5)), Some(2));

    assert!(inventory.swap_slots_with_update(1, 1).expect("in range").is_empty());
    assert_eq!(
        inventory.swap_slots_with_update(0, 3).err(),
        Some(InventoryError::InvalidSlotIndex(3))
    );
}

/// Putting dirt away leaves the sword where it was, keeps the count of dirt whole, and fills no
/// slot past the ceiling.
#[test]
fn putting_one_thing_away_leaves_every_other_thing_alone() {
    let mut inventory = Inventory::new(4);
    inventory.set_item(0, InventorySlot::of(SWORD, 1)).unwrap();
    inventory.set_item(1, InventorySlot::of(DIRT, 60)).unwrap();
    let back = inventory.add_item(InventorySlot::of(DIRT, 200), None, STACK);

    let sword = inventory.get_item(0).unwrap().expect("the sword is still there");
    assert_eq!(sword.item_id, Some(SWORD));
    assert_eq!(sword.count, 1);

    let dirt: i32 = (0..4)
        .filter(|at| inventory.get_item(*at).unwrap().map_or(false, |s| s.item_id == Some(DIRT)))
        .map(|at| count_in(&inventory, at))
        .sum();
    assert_eq!(dirt + back.count, 60 + 200);
    assert_eq!(back.item_id, Some(DIRT));
    assert_eq!(back.count, 260 - 64 * 3);
    assert!((1..4).all(|at| count_in(&inventory, at) <= 64));
}
