use ferrumc::components::ComponentType;
use ferrumc::inventory::{InventorySlot, ItemID};
use ferrumc::stack_components::{ComponentValue, Components};
use ferrumc::wire::{
    enchantment_from_wire_id, enchantment_wire_id, read_var_int, write_var_int, WireError,
};
use ferrumc::wire_ids::{ProtocolVersion, CURRENT};

const SHARPNESS: u16 = 33;
const LUNGE: u16 = 21;

/// A piece of text as the NBT it travels as: a compound holding it.
fn text(words: &str) -> Vec<u8> {
    let mut bytes = vec![10u8, 8];
    bytes.extend_from_slice(&4u16.to_be_bytes());
    bytes.extend_from_slice(b"text");
    bytes.extend_from_slice(&(words.len() as u16).to_be_bytes());
    bytes.extend_from_slice(words.as_bytes());
    bytes.push(0);
    bytes
}

fn there_and_back(components: &Components, version: ProtocolVersion) -> Components {
    let mut bytes = Vec::new();
    components.encode(&mut bytes, version);
    let (read, end) = Components::decode(&bytes, 0).expect("what was written reads back");
    assert_eq!(end, bytes.len(), "the whole of it was read, and nothing was left to be read as something else");
    read
}

fn a_named_and_enchanted_sword() -> Components {
    let mut components = Components::none();
    components.set(ComponentType::CustomName, ComponentValue::Text(text("Glamdring")));
    components.set(ComponentType::Damage, ComponentValue::Number(37));
    components.set(ComponentType::Enchantments, ComponentValue::Enchantments(vec![(SHARPNESS, 5)]));
    components
}

fn bytes_of(components: &Components, version: ProtocolVersion) -> Vec<u8> {
    let mut bytes = Vec::new();
    components.encode(&mut bytes, version);
    bytes
}

/// The phase's own question: does a named, enchanted, damaged item survive a round trip?
#[test]
fn a_named_enchanted_damaged_sword_survives_a_round_trip() {
    let sword = a_named_and_enchanted_sword();
    assert!(there_and_back(&sword, CURRENT).same_as(&sword));
}

#[test]
fn nothing_at_all_is_two_zeroes() {
    assert_eq!(bytes_of(&Components::none(), CURRENT), vec![0, 0], "no components set, and none taken away");
}

#[test]
fn a_component_taken_away_is_said_outright() {
    let mut components = Components::none();
    components.remove(ComponentType::Enchantments);
    assert_eq!(there_and_back(&components, CURRENT).removed(), vec![ComponentType::Enchantments]);
}

/// An enchantment travels as a place in the reader's own registry.
#[test]
fn an_enchantment_is_written_as_the_reading_client_numbers_it() {
    let sword = a_named_and_enchanted_sword();
    assert_ne!(bytes_of(&sword, ProtocolVersion::V26_2), bytes_of(&sword, ProtocolVersion::V1_21));
}

/// What an older client cannot be shown is left out of its bytes and nowhere else.
#[test]
fn an_enchantment_an_older_client_cannot_see_is_still_on_the_sword() {
    let mut sword = Components::none();
    sword.set(
        ComponentType::Enchantments,
        ComponentValue::Enchantments(vec![(SHARPNESS, 5), (LUNGE, 2)]),
    );
    let old = bytes_of(&sword, ProtocolVersion::V1_21);
    let newer = bytes_of(&sword, ProtocolVersion::V26_2);
    assert!(old.len() < newer.len(), "one enchantment fewer went out");
    assert_eq!(
        sword.get(ComponentType::Enchantments),
        Some(&ComponentValue::Enchantments(vec![(SHARPNESS, 5), (LUNGE, 2)])),
        "nothing was lost by showing it to someone who cannot see it"
    );
}

/// The same for a whole component: `weapon` is not in the oldest version.
#[test]
fn a_component_an_older_client_cannot_see_is_still_on_the_stack() {
    let mut stack = Components::none();
    stack.set(ComponentType::Weapon, ComponentValue::Nothing);
    stack.set(ComponentType::Damage, ComponentValue::Number(3));
    let old = bytes_of(&stack, ProtocolVersion::V1_21);
    assert_eq!(old[0], 1, "one component reached the older client");
    assert!(stack.get(ComponentType::Weapon).is_some(), "and the stack still has the other");
}

#[test]
fn a_component_a_client_has_never_heard_of_is_left_out_and_not_counted() {
    let mut components = Components::none();
    components.set(ComponentType::Damage, ComponentValue::Number(1));
    components.set(ComponentType::Weapon, ComponentValue::Nothing);
    let old = bytes_of(&components, ProtocolVersion::V1_21);
    assert_eq!(old[0], 1, "one component reached the older client");
}

#[test]
fn a_component_with_no_known_shape_is_refused_rather_than_stepped_over() {
    // Nothing carries a length, so a reader that guesses reads the rest as nonsense.
    let mut bytes = vec![1, 0];
    let unknown = ComponentType::Tool.wire_id(CURRENT).expect("this version has it");
    bytes.push(u8::try_from(unknown).expect("a small number"));
    bytes.extend_from_slice(&[0xDE, 0xAD]);
    assert_eq!(
        Components::decode(&bytes, 0).err(),
        Some(WireError::Unreadable(ComponentType::Tool))
    );
}

#[test]
fn something_this_server_cannot_read_still_survives_being_carried() {
    // Custom data is a compound nothing here looks inside, kept as it arrived.
    let mut components = Components::none();
    let mut compound = vec![10u8, 3];
    compound.extend_from_slice(&2u16.to_be_bytes());
    compound.extend_from_slice(b"id");
    compound.extend_from_slice(&9i32.to_be_bytes());
    compound.push(0);
    components.set(ComponentType::CustomData, ComponentValue::Nbt(compound.clone()));
    let back = there_and_back(&components, CURRENT);
    assert_eq!(back.get(ComponentType::CustomData), Some(&ComponentValue::Nbt(compound)));
}

#[test]
fn a_number_names_no_component_is_refused() {
    assert_eq!(Components::decode(&[1, 0, 0x7F], 0).err(), Some(WireError::NoSuchComponent(127)));
    assert_eq!(Components::decode(&[1], 0).err(), Some(WireError::Ended));
}

#[test]
fn every_shape_survives_a_round_trip() {
    let mut components = Components::none();
    components.set(ComponentType::Unbreakable, ComponentValue::Nothing);
    components.set(ComponentType::EnchantmentGlintOverride, ComponentValue::Flag(true));
    components.set(ComponentType::DyedColor, ComponentValue::Colour(-123456));
    components.set(ComponentType::Lore, ComponentValue::Lines(vec![text("one"), text("two")]));
    components.set(ComponentType::RepairCost, ComponentValue::Number(-1));
    components.remove(ComponentType::MaxStackSize);
    assert!(there_and_back(&components, CURRENT).same_as(&components));
}

#[test]
fn a_variable_length_number_takes_as_many_bytes_as_it_needs() {
    let mut bytes = Vec::new();
    write_var_int(&mut bytes, 0);
    write_var_int(&mut bytes, 127);
    write_var_int(&mut bytes, 128);
    write_var_int(&mut bytes, 300);
    write_var_int(&mut bytes, -1);
    assert_eq!(bytes, vec![0, 127, 0x80, 1, 0xAC, 2, 0xFF, 0xFF, 0xFF, 0xFF, 0x0F]);
    let mut at = 0;
    for expected in [0, 127, 128, 300, -1] {
        let (x, end) = read_var_int(&bytes, at).expect("it reads back");
        assert_eq!(x, expected);
        at = end;
    }
    assert_eq!(at, bytes.len());
    assert_eq!(read_var_int(&[0x80, 0x80, 0x80, 0x80, 0x80, 0x01], 0), Err(WireError::VarIntTooLong));
    assert_eq!(read_var_int(&[0x80], 0), Err(WireError::Ended));
}

#[test]
fn an_enchantment_is_numbered_by_each_version_and_back() {
    assert_eq!(enchantment_wire_id(SHARPNESS, ProtocolVersion::V26_2), Some(33));
    assert_eq!(enchantment_wire_id(SHARPNESS, ProtocolVersion::V1_21), Some(32));
    assert_eq!(enchantment_wire_id(LUNGE, ProtocolVersion::V1_21), None);
    assert_eq!(enchantment_from_wire_id(32, ProtocolVersion::V1_21), Some(SHARPNESS));
    assert_eq!(ComponentType::from_wire_id(3, ProtocolVersion::V1_21), Some(ComponentType::Damage));
    assert_eq!(ComponentType::Weapon.wire_id(ProtocolVersion::V1_21), None);
}

fn same_number(item: i32) -> i32 {
    item
}

fn slot_there_and_back(slot: &InventorySlot) -> InventorySlot {
    let mut bytes = Vec::new();
    slot.encode(&mut bytes, CURRENT, &same_number);
    let (read, end) = InventorySlot::decode(&bytes, 0).expect("it reads back");
    assert_eq!(end, bytes.len(), "the whole slot was read");
    read
}

#[test]
fn nothing_is_one_byte() {
    let mut bytes = Vec::new();
    InventorySlot::empty().encode(&mut bytes, CURRENT, &same_number);
    assert_eq!(bytes, vec![0]);
}

#[test]
fn a_plain_stack_survives_a_round_trip() {
    let stack = InventorySlot::of(ItemID(1), 64);
    let back = slot_there_and_back(&stack);
    assert_eq!(back.count, 64);
    assert_eq!(back.item_id, Some(ItemID(1)));
    assert!(back.components.is_empty());
}

/// What this replaced could not do: a stack carrying a component left its payload behind, and
/// everything after it was read at the wrong offset.
#[test]
fn a_stack_with_components_leaves_nothing_behind_it() {
    let mut stack = InventorySlot::of(ItemID(895), 1);
    stack.components.set(ComponentType::CustomName, ComponentValue::Text(text("Sting")));
    stack.components.set(ComponentType::Damage, ComponentValue::Number(12));
    let back = slot_there_and_back(&stack);
    assert!(back.same_thing_as(&stack));
    assert_eq!(back.count, 1);
}

/// Which is what makes reading a whole container safe.
#[test]
fn two_stacks_in_a_row_each_stop_where_they_end() {
    let mut first = InventorySlot::of(ItemID(895), 1);
    first.components.set(ComponentType::Damage, ComponentValue::Number(5));
    let second = InventorySlot::of(ItemID(1), 32);

    let mut bytes = Vec::new();
    first.encode(&mut bytes, CURRENT, &same_number);
    second.encode(&mut bytes, CURRENT, &same_number);

    let (one, end) = InventorySlot::decode(&bytes, 0).expect("the first reads");
    assert!(one.same_thing_as(&first));
    let (two, end) = InventorySlot::decode(&bytes, end).expect("the second reads");
    assert!(two.same_thing_as(&second));
    assert_eq!(two.count, 32);
    assert_eq!(end, bytes.len());
}

#[test]
fn a_named_sword_is_not_the_same_thing_as_a_plain_one() {
    let plain = InventorySlot::of(ItemID(895), 1);
    let mut named = plain.duplicate();
    named.components.set(ComponentType::CustomName, ComponentValue::Text(text("Sting")));
    assert!(plain.same_thing_as(&plain.duplicate()));
    assert!(!plain.same_thing_as(&named), "merging these would lose the name");
}
