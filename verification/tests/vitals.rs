use ferrumc::vitals::{
    breathe, burn, ignite, on_fire, DROWNING_AT, FIRE_BURNS_FOR, FULL_LUNGS, LAVA_BURNS_FOR,
};

/// What one mouthful of water costs, and what one tick of burning costs when it is paid.
const DROWNING_DAMAGE: f32 = 2.0;
const BURNING_DAMAGE: f32 = 1.0;

/// One tick of breathing, as the health it costs.
fn breathe_tick(air: &mut i16, underwater: bool, held_longer: bool) -> f32 {
    let (left, drowned) = breathe(*air, underwater, held_longer);
    *air = left;
    if drowned {
        DROWNING_DAMAGE
    } else {
        0.0
    }
}

/// One tick of burning, as the health it costs.
fn burn_tick(burning: &mut i16, in_lava: bool) -> f32 {
    let (left, hurts) = burn(*burning, in_lava);
    *burning = left;
    if hurts {
        BURNING_DAMAGE
    } else {
        0.0
    }
}

#[test]
fn holding_a_breath_longer_costs_no_air_that_tick() {
    let mut air = FULL_LUNGS;
    for _ in 0..10 {
        assert_eq!(breathe_tick(&mut air, true, true), 0.0);
    }
    assert_eq!(air, FULL_LUNGS, "not one tick of air went");
}

#[test]
fn the_last_bubble_is_not_where_the_drowning_starts() {
    let mut air = FULL_LUNGS;
    for _ in 0..FULL_LUNGS {
        assert_eq!(breathe_tick(&mut air, true, false), 0.0);
    }
    assert_eq!(air, 0);

    for _ in 0..-DROWNING_AT - 1 {
        assert_eq!(breathe_tick(&mut air, true, false), 0.0);
    }
    assert_eq!(breathe_tick(&mut air, true, false), DROWNING_DAMAGE);
    assert_eq!(air, 0, "and the lungs start over from empty");
}

#[test]
fn surfacing_fills_the_lungs_four_times_as_fast_as_holding_empties_them() {
    let mut air = FULL_LUNGS;
    for _ in 0..40 {
        let _ = breathe_tick(&mut air, true, false);
    }
    assert_eq!(air, FULL_LUNGS - 40);

    for _ in 0..10 {
        assert_eq!(breathe_tick(&mut air, false, false), 0.0);
    }
    assert_eq!(air, FULL_LUNGS);
}

#[test]
fn a_breath_at_the_surface_never_overfills() {
    assert_eq!(breathe(FULL_LUNGS - 1, false, false), (FULL_LUNGS, false));
    assert_eq!(breathe(10, false, true), (14, false));
}

#[test]
fn burning_costs_a_heart_a_second_not_a_heart_a_tick() {
    let mut burning = ignite(0, FIRE_BURNS_FOR);

    let mut paid = 0.0;
    let mut ticks = 0;
    while on_fire(burning) {
        paid += burn_tick(&mut burning, false);
        ticks += 1;
    }
    assert_eq!(ticks, FIRE_BURNS_FOR);
    assert_eq!(paid, 8.0, "eight seconds of fire is eight hearts of damage");
}

#[test]
fn something_already_burning_longer_keeps_its_own_time() {
    let burning = ignite(0, LAVA_BURNS_FOR);
    let burning = ignite(burning, FIRE_BURNS_FOR);
    assert_eq!(burning, LAVA_BURNS_FOR);
}

#[test]
fn something_standing_in_lava_is_not_billed_for_the_flames_as_well() {
    let mut burning = ignite(0, LAVA_BURNS_FOR);
    let mut paid = 0.0;
    for _ in 0..LAVA_BURNS_FOR {
        paid += burn_tick(&mut burning, true);
    }
    assert_eq!(paid, 0.0);
    assert!(!on_fire(burning));
}

#[test]
fn nothing_burns_that_is_not_alight() {
    assert_eq!(burn(0, false), (0, false));
    assert_eq!(burn(-3, false), (-3, false));
    assert_eq!(burn(20, false), (19, true));
    assert_eq!(burn(19, false), (18, false));
}
