use ferrumc::effect_kinds::{Effect, Operation};
use ferrumc::effects::{beat, on_added, ActiveEffects, AtOnce, Beat, Change, Instance, FOREVER};

#[test]
fn a_stronger_shorter_effect_hides_a_weaker_longer_one() {
    // Swiftness II from a splash potion, over a long swiftness I.
    let mut held = Instance::new(0, 200);
    assert!(held.update(&Instance::new(1, 20)));
    assert_eq!(held.amplifier, 1);
    assert_eq!(held.duration, 20);

    // And when the stronger one runs out, the weaker one is still going.
    for _ in 0..20 {
        held.tick_down();
    }
    assert_eq!(held.amplifier, 0, "the weaker one came back");
    assert_eq!(held.duration, 200);
}

#[test]
fn a_stronger_longer_effect_simply_replaces() {
    let mut held = Instance::new(0, 20);
    held.update(&Instance::new(1, 200));
    assert_eq!(held.amplifier, 1);
    assert_eq!(held.duration, 200);

    for _ in 0..200 {
        held.tick_down();
    }
    assert!(!held.running(), "nothing was waiting behind it");
}

#[test]
fn the_same_level_for_longer_just_extends() {
    let mut held = Instance::new(1, 20);
    assert!(held.update(&Instance::new(1, 200)));
    assert_eq!(held.duration, 200);
    assert_eq!(held.amplifier, 1);
}

#[test]
fn a_weaker_shorter_effect_changes_nothing() {
    let mut held = Instance::new(1, 200);
    assert!(!held.update(&Instance::new(0, 20)));
    assert_eq!(held.amplifier, 1);
    assert_eq!(held.duration, 200);
}

#[test]
fn a_weaker_longer_effect_waits_behind() {
    let mut held = Instance::new(1, 20);
    held.update(&Instance::new(0, 200));
    assert_eq!(held.amplifier, 1, "the stronger one is still in front");

    for _ in 0..20 {
        held.tick_down();
    }
    assert_eq!(held.amplifier, 0);
    assert_eq!(held.duration, 200);
}

#[test]
fn something_endless_never_runs_out() {
    let mut held = Instance::new(0, FOREVER);
    for _ in 0..10_000 {
        held.tick_down();
    }
    assert!(held.running());
    assert_eq!(held.duration, FOREVER);
}

#[test]
fn three_applications_come_back_strongest_first() {
    // A long weak one, a middling one, and a short strong one on top. Each comes forward as
    // the one in front of it runs out.
    let mut held = Instance::new(0, 300);
    held.update(&Instance::new(1, 100));
    held.update(&Instance::new(2, 10));

    assert_eq!(held.amplifier, 2);
    for _ in 0..10 {
        held.tick_down();
    }
    assert_eq!(held.amplifier, 1, "the middling one");
    for _ in 0..100 {
        held.tick_down();
    }
    assert_eq!(held.amplifier, 0, "and then the weak long one");
    assert_eq!(held.duration, 300);
}

#[test]
fn regeneration_heals_faster_the_stronger_it_is() {
    let heals_in = |amplifier: u8| {
        (0..200)
            .filter(|age| beat(Effect::Regeneration, amplifier, *age).is_some())
            .count()
    };
    assert_eq!(heals_in(0), 4, "once every fifty ticks");
    assert_eq!(heals_in(1), 8, "twice as often");
    assert_eq!(heals_in(2), 17, "every twelfth tick, which does not divide evenly");
    assert_eq!(heals_in(9), 200, "an interval shrunk to nothing fires every tick");
}

#[test]
fn poison_spares_and_wither_does_not() {
    assert_eq!(beat(Effect::Poison, 0, 0), Some(Beat::Hurt { spares: true }));
    assert_eq!(beat(Effect::Wither, 0, 0), Some(Beat::Wither));
    assert_eq!(beat(Effect::Wither, 0, -40), Some(Beat::Wither));
    assert_eq!(beat(Effect::Wither, 0, -39), None);
    assert_eq!(beat(Effect::Hunger, 3, 17), Some(Beat::Hunger));
}

#[test]
fn most_effects_do_nothing_beyond_what_they_move() {
    for effect in [
        Effect::Speed,
        Effect::Strength,
        Effect::Resistance,
        Effect::FireResistance,
        Effect::Invisibility,
    ] {
        assert_eq!(beat(effect, 0, 0), None, "{effect:?}");
    }
}

#[test]
fn something_that_lands_all_at_once_is_never_held() {
    let mut held = ActiveEffects::default();
    assert_eq!(on_added(Effect::InstantHealth, 0), Some(AtOnce::Heal(4)), "it does its work");
    let changed = held.add(Effect::InstantHealth, Instance::new(0, 1));
    assert!(!changed);
    assert!(held.is_empty(), "and is gone");
}

#[test]
fn absorption_tops_up_once_rather_than_every_tick() {
    let mut held = ActiveEffects::default();
    assert_eq!(on_added(Effect::Absorption, 1), Some(AtOnce::Absorb(8)), "four a level");
    held.add(Effect::Absorption, Instance::new(1, 100));
    let ticked = held.tick(0);
    assert!(
        ticked.doing.is_empty(),
        "and does nothing after, so what it gave can be spent"
    );
}

#[test]
fn healing_doubles_with_each_level_and_harming_starts_higher() {
    assert_eq!(on_added(Effect::InstantHealth, 0), Some(AtOnce::Heal(4)));
    assert_eq!(on_added(Effect::InstantHealth, 1), Some(AtOnce::Heal(8)));
    assert_eq!(on_added(Effect::InstantDamage, 0), Some(AtOnce::Hurt(6)));
}

#[test]
fn doubling_stops_at_twelve_levels_and_saturation_feeds_a_level_a_point() {
    assert_eq!(on_added(Effect::InstantHealth, 12), Some(AtOnce::Heal(16384)));
    assert_eq!(on_added(Effect::InstantHealth, 200), Some(AtOnce::Heal(16384)));
    assert_eq!(on_added(Effect::InstantDamage, 255), Some(AtOnce::Hurt(24576)));
    assert_eq!(on_added(Effect::Saturation, 2), Some(AtOnce::Feed(3)));
    assert_eq!(on_added(Effect::Speed, 2), None);
}

#[test]
fn a_set_keeps_its_effects_in_the_order_a_client_wants() {
    let mut held = ActiveEffects::default();
    held.add(Effect::Strength, Instance::new(0, 100));
    held.add(Effect::Speed, Instance::new(0, 100));
    held.add(Effect::Regeneration, Instance::new(0, 100));

    let order: Vec<u16> = held.iter().iter().map(|(effect, _)| effect.id()).collect();
    let mut sorted = order.clone();
    sorted.sort_unstable();
    assert_eq!(order, sorted);
    assert_eq!(order.len(), 3);
}

#[test]
fn an_effect_that_runs_out_says_so_once() {
    let mut held = ActiveEffects::default();
    held.add(Effect::Speed, Instance::new(0, 2));

    let ticked = held.tick(0);
    assert!(ticked.told.is_empty(), "one tick left is still running");

    let ticked = held.tick(1);
    assert_eq!(ticked.told, vec![(Effect::Speed, Change::Gone)]);
    assert!(held.is_empty());

    let ticked = held.tick(2);
    assert!(ticked.told.is_empty(), "and is not reported twice");
}

#[test]
fn one_coming_forward_from_behind_is_worth_telling_a_client() {
    let mut held = ActiveEffects::default();
    held.add(Effect::Speed, Instance::new(0, 100));
    held.add(Effect::Speed, Instance::new(1, 2));

    let ticked = held.tick(0);
    assert!(ticked.told.is_empty());
    let ticked = held.tick(1);
    assert_eq!(ticked.told, vec![(Effect::Speed, Change::Applied)]);
    assert_eq!(held.level(Effect::Speed), Some(1));
}

#[test]
fn milk_takes_everything_away() {
    let mut held = ActiveEffects::default();
    held.add(Effect::Speed, Instance::new(0, 100));
    held.add(Effect::Poison, Instance::new(0, 100));
    assert_eq!(held.clear().len(), 2);
    assert!(held.is_empty());
}

#[test]
fn a_level_reads_as_a_level_rather_than_an_amplifier() {
    let mut held = ActiveEffects::default();
    held.add(Effect::Speed, Instance::new(0, 100));
    assert_eq!(held.level(Effect::Speed), Some(1), "amplifier 0 is Speed I");
    assert_eq!(held.level(Effect::Poison), None);
    assert!(held.has(Effect::Speed));
    assert!(held.remove(Effect::Speed));
    assert!(!held.remove(Effect::Speed));
    assert!(!held.has(Effect::Speed));
}

#[test]
fn a_poisoned_tick_says_what_it_does() {
    let mut held = ActiveEffects::default();
    held.add(Effect::Poison, Instance::new(0, 50));
    let ticked = held.tick(7);
    assert_eq!(ticked.doing, vec![(Effect::Poison, Beat::Hurt { spares: true })]);
    assert_eq!(held.get(Effect::Poison).map(|i| i.duration), Some(49));
}

#[test]
fn an_effect_moves_its_own_attributes_by_one_level_s_worth() {
    let speed = Effect::Speed.modifiers();
    assert_eq!(speed.len(), 1);
    assert_eq!(speed[0].attribute, "movement_speed");
    assert_eq!(f64::from_bits(speed[0].amount_bits), 0.20000000298023224);
    assert_eq!(speed[0].operation, Operation::AddMultipliedTotal);
    assert_eq!(speed[0].name, "minecraft:effect.speed");

    let weakness = Effect::Weakness.modifiers();
    assert_eq!(f64::from_bits(weakness[0].amount_bits), -4.0);
    assert_eq!(weakness[0].operation, Operation::AddValue);
    assert!(Effect::Poison.modifiers().is_empty());
}
