use ferrumc::combat::{CombatProperties, DEFAULT_INVULNERABILITY_TICKS};
use ferrumc::damage::{can_be_hurt, difficulty_moves, Difficulty, Immunities, Swing, Target};
use ferrumc::damage_types::DamageType;

#[test]
fn a_name_an_operator_writes_is_understood() {
    assert_eq!(Difficulty::from_name("Hard"), Some(Difficulty::Hard));
    assert_eq!(Difficulty::from_name("nonsense"), None);
}

#[test]
fn a_difficulty_reads_in_any_case_and_travels_as_its_number() {
    assert_eq!(Difficulty::from_name("PEACEFUL"), Some(Difficulty::Peaceful));
    assert_eq!(Difficulty::from_name("eAsY"), Some(Difficulty::Easy));
    assert_eq!(Difficulty::from_name("normal"), Some(Difficulty::Normal));
    assert_eq!(Difficulty::from_name("hardcore"), None);
    assert_eq!(Difficulty::Peaceful.wire_id(), 0);
    assert_eq!(Difficulty::Hard.wire_id(), 3);
    assert_eq!(Difficulty::default(), Difficulty::Normal);
}

#[test]
fn being_flagged_invulnerable_stops_almost_everything() {
    let creative = Immunities {
        invulnerable: true,
        ..Immunities::default()
    };
    assert!(!can_be_hurt(DamageType::PlayerAttack, creative));
    assert!(
        can_be_hurt(DamageType::OutOfWorld, creative),
        "the void goes through the flag; that is what it is for"
    );
}

#[test]
fn what_cannot_burn_is_not_burnt_and_what_cannot_fall_is_not_hurt_by_landing() {
    let nether = Immunities {
        fire: true,
        ..Immunities::default()
    };
    assert!(!can_be_hurt(DamageType::InFire, nether));
    assert!(!can_be_hurt(DamageType::OnFire, nether));
    assert!(can_be_hurt(DamageType::Fall, nether));

    let golem = Immunities {
        falling: true,
        ..Immunities::default()
    };
    assert!(!can_be_hurt(DamageType::Fall, golem));
    assert!(can_be_hurt(DamageType::InFire, golem));
}

#[test]
fn nothing_in_the_packs_skips_the_reeling() {
    for kind in [
        DamageType::OutOfWorld,
        DamageType::GenericKill,
        DamageType::PlayerAttack,
        DamageType::Fall,
    ] {
        assert!(!kind.goes_through_the_cooldown(), "{kind:?}");
    }
}

#[test]
fn only_what_a_mob_did_moves_with_the_difficulty() {
    assert!(difficulty_moves(DamageType::MobAttack, true));
    assert!(!difficulty_moves(DamageType::MobAttack, false));
    assert!(difficulty_moves(DamageType::Explosion, false));
}

#[test]
fn a_swing_recharges_tick_by_tick() {
    let mut swing = Swing::default();
    swing.tick();
    swing.tick();
    assert_eq!(swing.ticker, 2);
    swing.swung();
    assert_eq!(swing.ticker, 0);
    let mut worn = Swing { ticker: u32::MAX };
    worn.tick();
    assert_eq!(worn.ticker, u32::MAX, "it stops counting rather than wrapping");
    assert!(Target { living: true }.living);
}

#[test]
fn an_entity_is_spared_for_a_while_after_a_hit() {
    let mut combat = CombatProperties::default();
    assert!(combat.can_be_damaged());
    combat.set_default_invulnerability();
    assert_eq!(combat.invulnerability_ticks, DEFAULT_INVULNERABILITY_TICKS);
    assert!(!combat.can_be_damaged());
    for _ in 0..DEFAULT_INVULNERABILITY_TICKS - 1 {
        assert!(!combat.tick());
        assert!(!combat.can_be_damaged(), "still spared before the last tick");
    }
    assert!(combat.tick(), "the last tick ends it");
    assert!(combat.can_be_damaged());
    assert!(!combat.tick(), "and there is nothing left to end");
    combat.set_invulnerable(3);
    combat.clear_invulnerability();
    assert!(combat.can_be_damaged());
    let marker = CombatProperties {
        attackable: false,
        invulnerability_ticks: 0,
    };
    assert!(!marker.can_be_damaged());
}
