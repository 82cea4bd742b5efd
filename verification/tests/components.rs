use ferrumc::components::ComponentType;
use ferrumc::stack_components::{shape_of, ComponentValue, Components, Shape};

#[test]
fn setting_one_that_was_taken_away_puts_it_back() {
    let mut components = Components::none();
    components.remove(ComponentType::Damage);
    components.set(ComponentType::Damage, ComponentValue::Number(1));
    assert_eq!(components.removed().len(), 0);
    assert_eq!(components.damage(), 1);
}

#[test]
fn two_stacks_built_in_different_orders_are_the_same_stack() {
    // Which is what lets them merge.
    let mut one = Components::none();
    one.set(ComponentType::Damage, ComponentValue::Number(3));
    one.set(ComponentType::Unbreakable, ComponentValue::Nothing);

    let mut other = Components::none();
    other.set(ComponentType::Unbreakable, ComponentValue::Nothing);
    other.set(ComponentType::Damage, ComponentValue::Number(3));

    assert!(one.same_as(&other));
}

#[test]
fn a_component_taken_away_is_listed_as_taken_away() {
    let mut components = Components::none();
    components.set(ComponentType::Enchantments, ComponentValue::Enchantments(vec![(1, 2)]));
    components.remove(ComponentType::Enchantments);
    assert_eq!(components.removed(), vec![ComponentType::Enchantments]);
    assert!(components.get(ComponentType::Enchantments).is_none());
    assert_eq!(components.enchantment(1), 0);
}

#[test]
fn a_stack_says_its_damage_and_its_enchantments() {
    let mut components = Components::none();
    assert_eq!(components.damage(), 0, "an undamaged stack");
    components.set(ComponentType::Damage, ComponentValue::Number(37));
    components.set(ComponentType::Enchantments, ComponentValue::Enchantments(vec![(9, 3), (4, 1)]));
    assert_eq!(components.damage(), 37);
    assert_eq!(components.enchantment(9), 3);
    assert_eq!(components.enchantment(4), 1);
    assert_eq!(components.enchantment(5), 0);
    assert_eq!(components.kinds_set(), vec![ComponentType::Damage, ComponentType::Enchantments]);
    assert!(components.duplicate().same_as(&components));
}

#[test]
fn a_value_knows_its_shape() {
    assert_eq!(ComponentValue::Number(3).shape(), Shape::Number);
    assert_eq!(shape_of(ComponentType::Damage), Some(Shape::Number));
}

#[test]
fn a_stack_lists_what_it_is_enchanted_with_and_how_strongly() {
    let mut components = Components::none();
    assert!(components.enchantments().is_empty());
    components.set(
        ComponentType::Enchantments,
        ComponentValue::Enchantments(vec![(33, 5), (99, 1), (23, 1)]),
    );
    let listed: Vec<(&str, u16)> = components
        .enchantments()
        .iter()
        .map(|(enchantment, level)| (enchantment.name, *level))
        .collect();
    assert_eq!(
        listed,
        vec![("sharpness", 5), ("mending", 1)],
        "a number no enchantment has is passed over"
    );
}

#[test]
fn a_stack_lists_what_it_sets_in_order_of_kind() {
    let mut components = Components::none();
    components.set(ComponentType::Enchantments, ComponentValue::Enchantments(vec![(33, 1)]));
    components.set(ComponentType::Damage, ComponentValue::Number(4));
    components.remove(ComponentType::Lore);
    let listed: Vec<ComponentType> = components.iter().iter().map(|(kind, _)| *kind).collect();
    assert_eq!(listed, vec![ComponentType::Damage, ComponentType::Enchantments]);
    assert_eq!(components.iter()[0].1, &ComponentValue::Number(4));
}
