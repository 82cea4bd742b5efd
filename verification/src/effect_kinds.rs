//! The potion effects the game has, and what each one is like.
use crate::text::{strip_default_namespace, without_default_namespace, same_text};
use vstd::prelude::*;

verus! {

/// Whether an effect helps, hurts, or does neither. A client draws the three differently
/// and milk takes all of them away regardless.
#[derive(Debug, Clone, Copy, PartialEq, Eq, Structural, Hash)]
pub enum Category {
    Beneficial,
    Neutral,
    Harmful,
}

/// How a modifier changes what an attribute is worth.
///
/// The same three the attribute system has; named again here so this module can be read
/// without one.
#[derive(Debug, Clone, Copy, PartialEq, Eq, Structural, Hash)]
pub enum Operation {
    AddValue,
    AddMultipliedBase,
    AddMultipliedTotal,
}

/// A potion effect.
#[derive(Debug, Clone, Copy, PartialEq, Eq, Structural, Hash)]
pub enum Effect {
    Absorption,
    BadOmen,
    Blindness,
    BreathOfTheNautilus,
    ConduitPower,
    Darkness,
    DolphinsGrace,
    FireResistance,
    Glowing,
    Haste,
    HealthBoost,
    HeroOfTheVillage,
    Hunger,
    Infested,
    InstantDamage,
    InstantHealth,
    Invisibility,
    JumpBoost,
    Levitation,
    Luck,
    MiningFatigue,
    Nausea,
    NightVision,
    Oozing,
    Poison,
    RaidOmen,
    Regeneration,
    Resistance,
    Saturation,
    SlowFalling,
    Slowness,
    Speed,
    Strength,
    TrialOmen,
    Unluck,
    WaterBreathing,
    Weakness,
    Weaving,
    WindCharged,
    Wither,
}

/// The number an effect travels as, in this server's own version.
pub open spec fn effect_id(effect: Effect) -> int {
    match effect {
        Effect::Absorption => 21,
        Effect::BadOmen => 30,
        Effect::Blindness => 14,
        Effect::BreathOfTheNautilus => 39,
        Effect::ConduitPower => 28,
        Effect::Darkness => 32,
        Effect::DolphinsGrace => 29,
        Effect::FireResistance => 11,
        Effect::Glowing => 23,
        Effect::Haste => 2,
        Effect::HealthBoost => 20,
        Effect::HeroOfTheVillage => 31,
        Effect::Hunger => 16,
        Effect::Infested => 38,
        Effect::InstantDamage => 6,
        Effect::InstantHealth => 5,
        Effect::Invisibility => 13,
        Effect::JumpBoost => 7,
        Effect::Levitation => 24,
        Effect::Luck => 25,
        Effect::MiningFatigue => 3,
        Effect::Nausea => 8,
        Effect::NightVision => 15,
        Effect::Oozing => 37,
        Effect::Poison => 18,
        Effect::RaidOmen => 34,
        Effect::Regeneration => 9,
        Effect::Resistance => 10,
        Effect::Saturation => 22,
        Effect::SlowFalling => 27,
        Effect::Slowness => 1,
        Effect::Speed => 0,
        Effect::Strength => 4,
        Effect::TrialOmen => 33,
        Effect::Unluck => 26,
        Effect::WaterBreathing => 12,
        Effect::Weakness => 17,
        Effect::Weaving => 36,
        Effect::WindCharged => 35,
        Effect::Wither => 19,
    }
}

/// Whether an effect helps, hurts, or does neither.
pub open spec fn effect_category(effect: Effect) -> Category {
    match effect {
        Effect::Absorption => Category::Beneficial,
        Effect::BadOmen => Category::Neutral,
        Effect::Blindness => Category::Harmful,
        Effect::BreathOfTheNautilus => Category::Beneficial,
        Effect::ConduitPower => Category::Beneficial,
        Effect::Darkness => Category::Harmful,
        Effect::DolphinsGrace => Category::Beneficial,
        Effect::FireResistance => Category::Beneficial,
        Effect::Glowing => Category::Neutral,
        Effect::Haste => Category::Beneficial,
        Effect::HealthBoost => Category::Beneficial,
        Effect::HeroOfTheVillage => Category::Beneficial,
        Effect::Hunger => Category::Harmful,
        Effect::Infested => Category::Harmful,
        Effect::InstantDamage => Category::Harmful,
        Effect::InstantHealth => Category::Beneficial,
        Effect::Invisibility => Category::Beneficial,
        Effect::JumpBoost => Category::Beneficial,
        Effect::Levitation => Category::Harmful,
        Effect::Luck => Category::Beneficial,
        Effect::MiningFatigue => Category::Harmful,
        Effect::Nausea => Category::Harmful,
        Effect::NightVision => Category::Beneficial,
        Effect::Oozing => Category::Harmful,
        Effect::Poison => Category::Harmful,
        Effect::RaidOmen => Category::Neutral,
        Effect::Regeneration => Category::Beneficial,
        Effect::Resistance => Category::Beneficial,
        Effect::Saturation => Category::Beneficial,
        Effect::SlowFalling => Category::Beneficial,
        Effect::Slowness => Category::Harmful,
        Effect::Speed => Category::Beneficial,
        Effect::Strength => Category::Beneficial,
        Effect::TrialOmen => Category::Neutral,
        Effect::Unluck => Category::Harmful,
        Effect::WaterBreathing => Category::Beneficial,
        Effect::Weakness => Category::Harmful,
        Effect::Weaving => Category::Harmful,
        Effect::WindCharged => Category::Harmful,
        Effect::Wither => Category::Harmful,
    }
}

/// The colour a client draws an effect, as packed red, green and blue.
pub open spec fn effect_colour(effect: Effect) -> int {
    match effect {
        Effect::Absorption => 2445989,
        Effect::BadOmen => 745784,
        Effect::Blindness => 2039587,
        Effect::BreathOfTheNautilus => 65518,
        Effect::ConduitPower => 1950417,
        Effect::Darkness => 2696993,
        Effect::DolphinsGrace => 8954814,
        Effect::FireResistance => 16750848,
        Effect::Glowing => 9740385,
        Effect::Haste => 14270531,
        Effect::HealthBoost => 16284963,
        Effect::HeroOfTheVillage => 4521796,
        Effect::Hunger => 5797459,
        Effect::Infested => 9214860,
        Effect::InstantDamage => 11101546,
        Effect::InstantHealth => 16262179,
        Effect::Invisibility => 16185078,
        Effect::JumpBoost => 16646020,
        Effect::Levitation => 13565951,
        Effect::Luck => 5882118,
        Effect::MiningFatigue => 4866583,
        Effect::Nausea => 5578058,
        Effect::NightVision => 12779366,
        Effect::Oozing => 10092451,
        Effect::Poison => 8889187,
        Effect::RaidOmen => 14565464,
        Effect::Regeneration => 13458603,
        Effect::Resistance => 9520880,
        Effect::Saturation => 16262179,
        Effect::SlowFalling => 15978425,
        Effect::Slowness => 9154528,
        Effect::Speed => 3402751,
        Effect::Strength => 16762624,
        Effect::TrialOmen => 1484454,
        Effect::Unluck => 12624973,
        Effect::WaterBreathing => 10017472,
        Effect::Weakness => 4738376,
        Effect::Weaving => 7891290,
        Effect::WindCharged => 12438015,
        Effect::Wither => 7561558,
    }
}

/// What an effect is called, without the namespace.
pub open spec fn effect_name(effect: Effect) -> Seq<char> {
    match effect {
        Effect::Absorption => "absorption"@,
        Effect::BadOmen => "bad_omen"@,
        Effect::Blindness => "blindness"@,
        Effect::BreathOfTheNautilus => "breath_of_the_nautilus"@,
        Effect::ConduitPower => "conduit_power"@,
        Effect::Darkness => "darkness"@,
        Effect::DolphinsGrace => "dolphins_grace"@,
        Effect::FireResistance => "fire_resistance"@,
        Effect::Glowing => "glowing"@,
        Effect::Haste => "haste"@,
        Effect::HealthBoost => "health_boost"@,
        Effect::HeroOfTheVillage => "hero_of_the_village"@,
        Effect::Hunger => "hunger"@,
        Effect::Infested => "infested"@,
        Effect::InstantDamage => "instant_damage"@,
        Effect::InstantHealth => "instant_health"@,
        Effect::Invisibility => "invisibility"@,
        Effect::JumpBoost => "jump_boost"@,
        Effect::Levitation => "levitation"@,
        Effect::Luck => "luck"@,
        Effect::MiningFatigue => "mining_fatigue"@,
        Effect::Nausea => "nausea"@,
        Effect::NightVision => "night_vision"@,
        Effect::Oozing => "oozing"@,
        Effect::Poison => "poison"@,
        Effect::RaidOmen => "raid_omen"@,
        Effect::Regeneration => "regeneration"@,
        Effect::Resistance => "resistance"@,
        Effect::Saturation => "saturation"@,
        Effect::SlowFalling => "slow_falling"@,
        Effect::Slowness => "slowness"@,
        Effect::Speed => "speed"@,
        Effect::Strength => "strength"@,
        Effect::TrialOmen => "trial_omen"@,
        Effect::Unluck => "unluck"@,
        Effect::WaterBreathing => "water_breathing"@,
        Effect::Weakness => "weakness"@,
        Effect::Weaving => "weaving"@,
        Effect::WindCharged => "wind_charged"@,
        Effect::Wither => "wither"@,
    }
}

/// The effects that land all at once rather than lasting.
pub open spec fn instant_effects() -> Set<Effect> {
    set![Effect::InstantDamage, Effect::InstantHealth, Effect::Saturation]
}

impl Effect {
    /// The number it travels as, in this server's own version.
    pub fn id(self) -> (r: u16)
        ensures
            r == effect_id(self),
    {
        match self {
            Effect::Absorption => 21,
            Effect::BadOmen => 30,
            Effect::Blindness => 14,
            Effect::BreathOfTheNautilus => 39,
            Effect::ConduitPower => 28,
            Effect::Darkness => 32,
            Effect::DolphinsGrace => 29,
            Effect::FireResistance => 11,
            Effect::Glowing => 23,
            Effect::Haste => 2,
            Effect::HealthBoost => 20,
            Effect::HeroOfTheVillage => 31,
            Effect::Hunger => 16,
            Effect::Infested => 38,
            Effect::InstantDamage => 6,
            Effect::InstantHealth => 5,
            Effect::Invisibility => 13,
            Effect::JumpBoost => 7,
            Effect::Levitation => 24,
            Effect::Luck => 25,
            Effect::MiningFatigue => 3,
            Effect::Nausea => 8,
            Effect::NightVision => 15,
            Effect::Oozing => 37,
            Effect::Poison => 18,
            Effect::RaidOmen => 34,
            Effect::Regeneration => 9,
            Effect::Resistance => 10,
            Effect::Saturation => 22,
            Effect::SlowFalling => 27,
            Effect::Slowness => 1,
            Effect::Speed => 0,
            Effect::Strength => 4,
            Effect::TrialOmen => 33,
            Effect::Unluck => 26,
            Effect::WaterBreathing => 12,
            Effect::Weakness => 17,
            Effect::Weaving => 36,
            Effect::WindCharged => 35,
            Effect::Wither => 19,
        }
    }

    /// Whether it helps, hurts, or does neither.
    pub fn category(self) -> (r: Category)
        ensures
            r == effect_category(self),
    {
        match self {
            Effect::Absorption => Category::Beneficial,
            Effect::BadOmen => Category::Neutral,
            Effect::Blindness => Category::Harmful,
            Effect::BreathOfTheNautilus => Category::Beneficial,
            Effect::ConduitPower => Category::Beneficial,
            Effect::Darkness => Category::Harmful,
            Effect::DolphinsGrace => Category::Beneficial,
            Effect::FireResistance => Category::Beneficial,
            Effect::Glowing => Category::Neutral,
            Effect::Haste => Category::Beneficial,
            Effect::HealthBoost => Category::Beneficial,
            Effect::HeroOfTheVillage => Category::Beneficial,
            Effect::Hunger => Category::Harmful,
            Effect::Infested => Category::Harmful,
            Effect::InstantDamage => Category::Harmful,
            Effect::InstantHealth => Category::Beneficial,
            Effect::Invisibility => Category::Beneficial,
            Effect::JumpBoost => Category::Beneficial,
            Effect::Levitation => Category::Harmful,
            Effect::Luck => Category::Beneficial,
            Effect::MiningFatigue => Category::Harmful,
            Effect::Nausea => Category::Harmful,
            Effect::NightVision => Category::Beneficial,
            Effect::Oozing => Category::Harmful,
            Effect::Poison => Category::Harmful,
            Effect::RaidOmen => Category::Neutral,
            Effect::Regeneration => Category::Beneficial,
            Effect::Resistance => Category::Beneficial,
            Effect::Saturation => Category::Beneficial,
            Effect::SlowFalling => Category::Beneficial,
            Effect::Slowness => Category::Harmful,
            Effect::Speed => Category::Beneficial,
            Effect::Strength => Category::Beneficial,
            Effect::TrialOmen => Category::Neutral,
            Effect::Unluck => Category::Harmful,
            Effect::WaterBreathing => Category::Beneficial,
            Effect::Weakness => Category::Harmful,
            Effect::Weaving => Category::Harmful,
            Effect::WindCharged => Category::Harmful,
            Effect::Wither => Category::Harmful,
        }
    }

    /// The colour a client draws it, as packed red, green and blue.
    pub fn colour(self) -> (r: i32)
        ensures
            r == effect_colour(self),
    {
        match self {
            Effect::Absorption => 2445989,
            Effect::BadOmen => 745784,
            Effect::Blindness => 2039587,
            Effect::BreathOfTheNautilus => 65518,
            Effect::ConduitPower => 1950417,
            Effect::Darkness => 2696993,
            Effect::DolphinsGrace => 8954814,
            Effect::FireResistance => 16750848,
            Effect::Glowing => 9740385,
            Effect::Haste => 14270531,
            Effect::HealthBoost => 16284963,
            Effect::HeroOfTheVillage => 4521796,
            Effect::Hunger => 5797459,
            Effect::Infested => 9214860,
            Effect::InstantDamage => 11101546,
            Effect::InstantHealth => 16262179,
            Effect::Invisibility => 16185078,
            Effect::JumpBoost => 16646020,
            Effect::Levitation => 13565951,
            Effect::Luck => 5882118,
            Effect::MiningFatigue => 4866583,
            Effect::Nausea => 5578058,
            Effect::NightVision => 12779366,
            Effect::Oozing => 10092451,
            Effect::Poison => 8889187,
            Effect::RaidOmen => 14565464,
            Effect::Regeneration => 13458603,
            Effect::Resistance => 9520880,
            Effect::Saturation => 16262179,
            Effect::SlowFalling => 15978425,
            Effect::Slowness => 9154528,
            Effect::Speed => 3402751,
            Effect::Strength => 16762624,
            Effect::TrialOmen => 1484454,
            Effect::Unluck => 12624973,
            Effect::WaterBreathing => 10017472,
            Effect::Weakness => 4738376,
            Effect::Weaving => 7891290,
            Effect::WindCharged => 12438015,
            Effect::Wither => 7561558,
        }
    }

    /// Whether it lands all at once rather than lasting.
    ///
    /// The three that do are healing, harming and saturation: they are applied once and
    /// never held.
    pub fn is_instant(self) -> (r: bool)
        ensures
            r == instant_effects().contains(self),
    {
        match self {
            Effect::InstantDamage
            | Effect::InstantHealth
            | Effect::Saturation => true,
            _ => false,
        }
    }

    /// Reads an effect from a resource location, with or without the `minecraft:` namespace.
    pub fn from_name(name: &str) -> (r: Option<Self>)
        ensures
            match r {
                Some(effect) => effect_name(effect) == strip_default_namespace(name@),
                None => forall|effect: Effect| effect_name(effect) != strip_default_namespace(name@),
            },
    {
        let name = without_default_namespace(name);
        if same_text(name, "absorption") {
            return Some(Effect::Absorption);
        }
        if same_text(name, "bad_omen") {
            return Some(Effect::BadOmen);
        }
        if same_text(name, "blindness") {
            return Some(Effect::Blindness);
        }
        if same_text(name, "breath_of_the_nautilus") {
            return Some(Effect::BreathOfTheNautilus);
        }
        if same_text(name, "conduit_power") {
            return Some(Effect::ConduitPower);
        }
        if same_text(name, "darkness") {
            return Some(Effect::Darkness);
        }
        if same_text(name, "dolphins_grace") {
            return Some(Effect::DolphinsGrace);
        }
        if same_text(name, "fire_resistance") {
            return Some(Effect::FireResistance);
        }
        if same_text(name, "glowing") {
            return Some(Effect::Glowing);
        }
        if same_text(name, "haste") {
            return Some(Effect::Haste);
        }
        if same_text(name, "health_boost") {
            return Some(Effect::HealthBoost);
        }
        if same_text(name, "hero_of_the_village") {
            return Some(Effect::HeroOfTheVillage);
        }
        if same_text(name, "hunger") {
            return Some(Effect::Hunger);
        }
        if same_text(name, "infested") {
            return Some(Effect::Infested);
        }
        if same_text(name, "instant_damage") {
            return Some(Effect::InstantDamage);
        }
        if same_text(name, "instant_health") {
            return Some(Effect::InstantHealth);
        }
        if same_text(name, "invisibility") {
            return Some(Effect::Invisibility);
        }
        if same_text(name, "jump_boost") {
            return Some(Effect::JumpBoost);
        }
        if same_text(name, "levitation") {
            return Some(Effect::Levitation);
        }
        if same_text(name, "luck") {
            return Some(Effect::Luck);
        }
        if same_text(name, "mining_fatigue") {
            return Some(Effect::MiningFatigue);
        }
        if same_text(name, "nausea") {
            return Some(Effect::Nausea);
        }
        if same_text(name, "night_vision") {
            return Some(Effect::NightVision);
        }
        if same_text(name, "oozing") {
            return Some(Effect::Oozing);
        }
        if same_text(name, "poison") {
            return Some(Effect::Poison);
        }
        if same_text(name, "raid_omen") {
            return Some(Effect::RaidOmen);
        }
        if same_text(name, "regeneration") {
            return Some(Effect::Regeneration);
        }
        if same_text(name, "resistance") {
            return Some(Effect::Resistance);
        }
        if same_text(name, "saturation") {
            return Some(Effect::Saturation);
        }
        if same_text(name, "slow_falling") {
            return Some(Effect::SlowFalling);
        }
        if same_text(name, "slowness") {
            return Some(Effect::Slowness);
        }
        if same_text(name, "speed") {
            return Some(Effect::Speed);
        }
        if same_text(name, "strength") {
            return Some(Effect::Strength);
        }
        if same_text(name, "trial_omen") {
            return Some(Effect::TrialOmen);
        }
        if same_text(name, "unluck") {
            return Some(Effect::Unluck);
        }
        if same_text(name, "water_breathing") {
            return Some(Effect::WaterBreathing);
        }
        if same_text(name, "weakness") {
            return Some(Effect::Weakness);
        }
        if same_text(name, "weaving") {
            return Some(Effect::Weaving);
        }
        if same_text(name, "wind_charged") {
            return Some(Effect::WindCharged);
        }
        if same_text(name, "wither") {
            return Some(Effect::Wither);
        }
        None
    }

    /// What it is called, without the namespace.
    pub fn to_name(self) -> (r: &'static str)
        ensures
            r@ == effect_name(self),
    {
        match self {
            Effect::Absorption => "absorption",
            Effect::BadOmen => "bad_omen",
            Effect::Blindness => "blindness",
            Effect::BreathOfTheNautilus => "breath_of_the_nautilus",
            Effect::ConduitPower => "conduit_power",
            Effect::Darkness => "darkness",
            Effect::DolphinsGrace => "dolphins_grace",
            Effect::FireResistance => "fire_resistance",
            Effect::Glowing => "glowing",
            Effect::Haste => "haste",
            Effect::HealthBoost => "health_boost",
            Effect::HeroOfTheVillage => "hero_of_the_village",
            Effect::Hunger => "hunger",
            Effect::Infested => "infested",
            Effect::InstantDamage => "instant_damage",
            Effect::InstantHealth => "instant_health",
            Effect::Invisibility => "invisibility",
            Effect::JumpBoost => "jump_boost",
            Effect::Levitation => "levitation",
            Effect::Luck => "luck",
            Effect::MiningFatigue => "mining_fatigue",
            Effect::Nausea => "nausea",
            Effect::NightVision => "night_vision",
            Effect::Oozing => "oozing",
            Effect::Poison => "poison",
            Effect::RaidOmen => "raid_omen",
            Effect::Regeneration => "regeneration",
            Effect::Resistance => "resistance",
            Effect::Saturation => "saturation",
            Effect::SlowFalling => "slow_falling",
            Effect::Slowness => "slowness",
            Effect::Speed => "speed",
            Effect::Strength => "strength",
            Effect::TrialOmen => "trial_omen",
            Effect::Unluck => "unluck",
            Effect::WaterBreathing => "water_breathing",
            Effect::Weakness => "weakness",
            Effect::Weaving => "weaving",
            Effect::WindCharged => "wind_charged",
            Effect::Wither => "wither",
        }
    }

}

/// No two effects travel as the same number.
pub proof fn lemma_effect_id_injective(a: Effect, b: Effect)
    ensures
        effect_id(a) == effect_id(b) ==> a == b,
{
}

/// The effect a name, without its namespace, belongs to, if any.
pub open spec fn effect_named(s: Seq<char>) -> Option<Effect> {
    if s == "absorption"@ {
        Some(Effect::Absorption)
    } else if s == "bad_omen"@ {
        Some(Effect::BadOmen)
    } else if s == "blindness"@ {
        Some(Effect::Blindness)
    } else if s == "breath_of_the_nautilus"@ {
        Some(Effect::BreathOfTheNautilus)
    } else if s == "conduit_power"@ {
        Some(Effect::ConduitPower)
    } else if s == "darkness"@ {
        Some(Effect::Darkness)
    } else if s == "dolphins_grace"@ {
        Some(Effect::DolphinsGrace)
    } else if s == "fire_resistance"@ {
        Some(Effect::FireResistance)
    } else if s == "glowing"@ {
        Some(Effect::Glowing)
    } else if s == "haste"@ {
        Some(Effect::Haste)
    } else if s == "health_boost"@ {
        Some(Effect::HealthBoost)
    } else if s == "hero_of_the_village"@ {
        Some(Effect::HeroOfTheVillage)
    } else if s == "hunger"@ {
        Some(Effect::Hunger)
    } else if s == "infested"@ {
        Some(Effect::Infested)
    } else if s == "instant_damage"@ {
        Some(Effect::InstantDamage)
    } else if s == "instant_health"@ {
        Some(Effect::InstantHealth)
    } else if s == "invisibility"@ {
        Some(Effect::Invisibility)
    } else if s == "jump_boost"@ {
        Some(Effect::JumpBoost)
    } else if s == "levitation"@ {
        Some(Effect::Levitation)
    } else if s == "luck"@ {
        Some(Effect::Luck)
    } else if s == "mining_fatigue"@ {
        Some(Effect::MiningFatigue)
    } else if s == "nausea"@ {
        Some(Effect::Nausea)
    } else if s == "night_vision"@ {
        Some(Effect::NightVision)
    } else if s == "oozing"@ {
        Some(Effect::Oozing)
    } else if s == "poison"@ {
        Some(Effect::Poison)
    } else if s == "raid_omen"@ {
        Some(Effect::RaidOmen)
    } else if s == "regeneration"@ {
        Some(Effect::Regeneration)
    } else if s == "resistance"@ {
        Some(Effect::Resistance)
    } else if s == "saturation"@ {
        Some(Effect::Saturation)
    } else if s == "slow_falling"@ {
        Some(Effect::SlowFalling)
    } else if s == "slowness"@ {
        Some(Effect::Slowness)
    } else if s == "speed"@ {
        Some(Effect::Speed)
    } else if s == "strength"@ {
        Some(Effect::Strength)
    } else if s == "trial_omen"@ {
        Some(Effect::TrialOmen)
    } else if s == "unluck"@ {
        Some(Effect::Unluck)
    } else if s == "water_breathing"@ {
        Some(Effect::WaterBreathing)
    } else if s == "weakness"@ {
        Some(Effect::Weakness)
    } else if s == "weaving"@ {
        Some(Effect::Weaving)
    } else if s == "wind_charged"@ {
        Some(Effect::WindCharged)
    } else if s == "wither"@ {
        Some(Effect::Wither)
    } else {
        None
    }
}

/// How long each name is, and the characters that tell apart names of one length.
proof fn lemma_effect_name_facts()
    ensures
        "minecraft:"@.len() == 10,
        "absorption"@.len() == 10,
        "bad_omen"@.len() == 8,
        "blindness"@.len() == 9,
        "breath_of_the_nautilus"@.len() == 22,
        "conduit_power"@.len() == 13,
        "darkness"@.len() == 8,
        "dolphins_grace"@.len() == 14,
        "fire_resistance"@.len() == 15,
        "glowing"@.len() == 7,
        "haste"@.len() == 5,
        "health_boost"@.len() == 12,
        "hero_of_the_village"@.len() == 19,
        "hunger"@.len() == 6,
        "infested"@.len() == 8,
        "instant_damage"@.len() == 14,
        "instant_health"@.len() == 14,
        "invisibility"@.len() == 12,
        "jump_boost"@.len() == 10,
        "levitation"@.len() == 10,
        "luck"@.len() == 4,
        "mining_fatigue"@.len() == 14,
        "nausea"@.len() == 6,
        "night_vision"@.len() == 12,
        "oozing"@.len() == 6,
        "poison"@.len() == 6,
        "raid_omen"@.len() == 9,
        "regeneration"@.len() == 12,
        "resistance"@.len() == 10,
        "saturation"@.len() == 10,
        "slow_falling"@.len() == 12,
        "slowness"@.len() == 8,
        "speed"@.len() == 5,
        "strength"@.len() == 8,
        "trial_omen"@.len() == 10,
        "unluck"@.len() == 6,
        "water_breathing"@.len() == 15,
        "weakness"@.len() == 8,
        "weaving"@.len() == 7,
        "wind_charged"@.len() == 12,
        "wither"@.len() == 6,
        "absorption"@[0] == 'a',
        "bad_omen"@[0] == 'b',
        "blindness"@[0] == 'b',
        "breath_of_the_nautilus"@[0] == 'b',
        "conduit_power"@[0] == 'c',
        "darkness"@[0] == 'd',
        "dolphins_grace"@[0] == 'd',
        "fire_resistance"@[0] == 'f',
        "glowing"@[0] == 'g',
        "haste"@[0] == 'h',
        "health_boost"@[0] == 'h',
        "hero_of_the_village"@[0] == 'h',
        "hunger"@[0] == 'h',
        "infested"@[0] == 'i',
        "instant_damage"@[0] == 'i',
        "instant_damage"@[8] == 'd',
        "instant_health"@[0] == 'i',
        "instant_health"@[8] == 'h',
        "invisibility"@[0] == 'i',
        "jump_boost"@[0] == 'j',
        "levitation"@[0] == 'l',
        "minecraft:"@[0] == 'm',
        "minecraft:"@[3] == 'e',
        "mining_fatigue"@[0] == 'm',
        "mining_fatigue"@[3] == 'i',
        "nausea"@[0] == 'n',
        "night_vision"@[0] == 'n',
        "oozing"@[0] == 'o',
        "poison"@[0] == 'p',
        "raid_omen"@[0] == 'r',
        "regeneration"@[0] == 'r',
        "resistance"@[0] == 'r',
        "saturation"@[0] == 's',
        "slow_falling"@[0] == 's',
        "slowness"@[0] == 's',
        "slowness"@[1] == 'l',
        "speed"@[0] == 's',
        "strength"@[0] == 's',
        "strength"@[1] == 't',
        "trial_omen"@[0] == 't',
        "unluck"@[0] == 'u',
        "water_breathing"@[0] == 'w',
        "weakness"@[0] == 'w',
        "weaving"@[0] == 'w',
        "wind_charged"@[0] == 'w',
        "wither"@[0] == 'w',
{
    reveal_strlit("minecraft:");
    reveal_strlit("absorption");
    reveal_strlit("bad_omen");
    reveal_strlit("blindness");
    reveal_strlit("breath_of_the_nautilus");
    reveal_strlit("conduit_power");
    reveal_strlit("darkness");
    reveal_strlit("dolphins_grace");
    reveal_strlit("fire_resistance");
    reveal_strlit("glowing");
    reveal_strlit("haste");
    reveal_strlit("health_boost");
    reveal_strlit("hero_of_the_village");
    reveal_strlit("hunger");
    reveal_strlit("infested");
    reveal_strlit("instant_damage");
    reveal_strlit("instant_health");
    reveal_strlit("invisibility");
    reveal_strlit("jump_boost");
    reveal_strlit("levitation");
    reveal_strlit("luck");
    reveal_strlit("mining_fatigue");
    reveal_strlit("nausea");
    reveal_strlit("night_vision");
    reveal_strlit("oozing");
    reveal_strlit("poison");
    reveal_strlit("raid_omen");
    reveal_strlit("regeneration");
    reveal_strlit("resistance");
    reveal_strlit("saturation");
    reveal_strlit("slow_falling");
    reveal_strlit("slowness");
    reveal_strlit("speed");
    reveal_strlit("strength");
    reveal_strlit("trial_omen");
    reveal_strlit("unluck");
    reveal_strlit("water_breathing");
    reveal_strlit("weakness");
    reveal_strlit("weaving");
    reveal_strlit("wind_charged");
    reveal_strlit("wither");
}

proof fn lemma_effect_named(kind: Effect)
    ensures
        effect_named(effect_name(kind)) == Some(kind),
        strip_default_namespace(effect_name(kind)) == effect_name(kind),
{
    lemma_effect_name_facts();
    match kind {
        Effect::Absorption => {
            assert("absorption"@.take(10)[0] == "absorption"@[0]);
        },
        Effect::BadOmen => {},
        Effect::Blindness => {},
        Effect::BreathOfTheNautilus => {
            assert("breath_of_the_nautilus"@.take(10)[0] == "breath_of_the_nautilus"@[0]);
        },
        Effect::ConduitPower => {
            assert("conduit_power"@.take(10)[0] == "conduit_power"@[0]);
        },
        Effect::Darkness => {},
        Effect::DolphinsGrace => {
            assert("dolphins_grace"@.take(10)[0] == "dolphins_grace"@[0]);
        },
        Effect::FireResistance => {
            assert("fire_resistance"@.take(10)[0] == "fire_resistance"@[0]);
        },
        Effect::Glowing => {},
        Effect::Haste => {},
        Effect::HealthBoost => {
            assert("health_boost"@.take(10)[0] == "health_boost"@[0]);
        },
        Effect::HeroOfTheVillage => {
            assert("hero_of_the_village"@.take(10)[0] == "hero_of_the_village"@[0]);
        },
        Effect::Hunger => {},
        Effect::Infested => {},
        Effect::InstantDamage => {
            assert("instant_damage"@.take(10)[0] == "instant_damage"@[0]);
        },
        Effect::InstantHealth => {
            assert("instant_health"@.take(10)[0] == "instant_health"@[0]);
        },
        Effect::Invisibility => {
            assert("invisibility"@.take(10)[0] == "invisibility"@[0]);
        },
        Effect::JumpBoost => {
            assert("jump_boost"@.take(10)[0] == "jump_boost"@[0]);
        },
        Effect::Levitation => {
            assert("levitation"@.take(10)[0] == "levitation"@[0]);
        },
        Effect::Luck => {},
        Effect::MiningFatigue => {
            assert("mining_fatigue"@.take(10)[3] == "mining_fatigue"@[3]);
        },
        Effect::Nausea => {},
        Effect::NightVision => {
            assert("night_vision"@.take(10)[0] == "night_vision"@[0]);
        },
        Effect::Oozing => {},
        Effect::Poison => {},
        Effect::RaidOmen => {},
        Effect::Regeneration => {
            assert("regeneration"@.take(10)[0] == "regeneration"@[0]);
        },
        Effect::Resistance => {
            assert("resistance"@.take(10)[0] == "resistance"@[0]);
        },
        Effect::Saturation => {
            assert("saturation"@.take(10)[0] == "saturation"@[0]);
        },
        Effect::SlowFalling => {
            assert("slow_falling"@.take(10)[0] == "slow_falling"@[0]);
        },
        Effect::Slowness => {},
        Effect::Speed => {},
        Effect::Strength => {},
        Effect::TrialOmen => {
            assert("trial_omen"@.take(10)[0] == "trial_omen"@[0]);
        },
        Effect::Unluck => {},
        Effect::WaterBreathing => {
            assert("water_breathing"@.take(10)[0] == "water_breathing"@[0]);
        },
        Effect::Weakness => {},
        Effect::Weaving => {},
        Effect::WindCharged => {
            assert("wind_charged"@.take(10)[0] == "wind_charged"@[0]);
        },
        Effect::Wither => {},
    }
}

/// No two effects share a name, and none is named with the `minecraft:` namespace in it: so
/// reading a name, bare or with `minecraft:` in front, gives the one it names and no other.
pub proof fn lemma_effect_names_read_back(kind: Effect)
    ensures
        strip_default_namespace(effect_name(kind)) == effect_name(kind),
        strip_default_namespace("minecraft:"@ + effect_name(kind)) == effect_name(kind),
        forall|other: Effect| #[trigger] effect_name(other) == effect_name(kind) ==> other == kind,
{
    lemma_effect_named(kind);
    reveal_strlit("minecraft:");
    let whole = "minecraft:"@ + effect_name(kind);
    assert(whole.take(10) =~= "minecraft:"@);
    assert(whole.skip(10) =~= effect_name(kind));
    assert forall|other: Effect| #[trigger] effect_name(other) == effect_name(kind) implies other == kind by {
        lemma_effect_named(other);
    }
}

/// One number an effect moves, and by how much for a single level.
///
/// The amount is what one level is worth, kept as the bits of the 64-bit float it is; every
/// level after the first is a multiple of it, which is why speed II is exactly twice speed I
/// rather than a separate modifier.
#[derive(Debug, Clone, Copy, PartialEq, Eq)]
pub struct EffectModifier {
    pub attribute: &'static str,
    pub amount_bits: u64,
    pub operation: Operation,
    /// What the modifier is called, which is how it is taken away again.
    pub name: &'static str,
}

impl EffectModifier {
    /// The modifier as plain values.
    pub open spec fn plain(self) -> (Seq<char>, u64, Operation, Seq<char>) {
        (self.attribute@, self.amount_bits, self.operation, self.name@)
    }
}

/// The attribute modifiers each effect applies while it lasts, as the attribute, the bits of the
/// amount one level is worth, the operation and the modifier's name.
pub open spec fn effect_modifiers(effect: Effect) -> Seq<(Seq<char>, u64, Operation, Seq<char>)> {
    match effect {
        Effect::Absorption => seq![("max_absorption"@, 0x4010000000000000u64, Operation::AddValue, "minecraft:effect.absorption"@)],
        Effect::BadOmen => Seq::empty(),
        Effect::Blindness => Seq::empty(),
        Effect::BreathOfTheNautilus => Seq::empty(),
        Effect::ConduitPower => Seq::empty(),
        Effect::Darkness => Seq::empty(),
        Effect::DolphinsGrace => Seq::empty(),
        Effect::FireResistance => Seq::empty(),
        Effect::Glowing => Seq::empty(),
        Effect::Haste => seq![("attack_speed"@, 0x3fb99999a0000000u64, Operation::AddMultipliedTotal, "minecraft:effect.haste"@)],
        Effect::HealthBoost => seq![("max_health"@, 0x4010000000000000u64, Operation::AddValue, "minecraft:effect.health_boost"@)],
        Effect::HeroOfTheVillage => Seq::empty(),
        Effect::Hunger => Seq::empty(),
        Effect::Infested => Seq::empty(),
        Effect::InstantDamage => Seq::empty(),
        Effect::InstantHealth => Seq::empty(),
        Effect::Invisibility => seq![("waypoint_transmit_range"@, 0xbff0000000000000u64, Operation::AddMultipliedTotal, "minecraft:effect.waypoint_transmit_range_hide"@)],
        Effect::JumpBoost => seq![("safe_fall_distance"@, 0x3ff0000000000000u64, Operation::AddValue, "minecraft:effect.jump_boost"@)],
        Effect::Levitation => Seq::empty(),
        Effect::Luck => seq![("luck"@, 0x3ff0000000000000u64, Operation::AddValue, "minecraft:effect.luck"@)],
        Effect::MiningFatigue => seq![("attack_speed"@, 0xbfb99999a0000000u64, Operation::AddMultipliedTotal, "minecraft:effect.mining_fatigue"@)],
        Effect::Nausea => Seq::empty(),
        Effect::NightVision => Seq::empty(),
        Effect::Oozing => Seq::empty(),
        Effect::Poison => Seq::empty(),
        Effect::RaidOmen => Seq::empty(),
        Effect::Regeneration => Seq::empty(),
        Effect::Resistance => Seq::empty(),
        Effect::Saturation => Seq::empty(),
        Effect::SlowFalling => Seq::empty(),
        Effect::Slowness => seq![("movement_speed"@, 0xbfc3333340000000u64, Operation::AddMultipliedTotal, "minecraft:effect.slowness"@)],
        Effect::Speed => seq![("movement_speed"@, 0x3fc99999a0000000u64, Operation::AddMultipliedTotal, "minecraft:effect.speed"@)],
        Effect::Strength => seq![("attack_damage"@, 0x4008000000000000u64, Operation::AddValue, "minecraft:effect.strength"@)],
        Effect::TrialOmen => Seq::empty(),
        Effect::Unluck => seq![("luck"@, 0xbff0000000000000u64, Operation::AddValue, "minecraft:effect.unluck"@)],
        Effect::WaterBreathing => Seq::empty(),
        Effect::Weakness => seq![("attack_damage"@, 0xc010000000000000u64, Operation::AddValue, "minecraft:effect.weakness"@)],
        Effect::Weaving => Seq::empty(),
        Effect::WindCharged => Seq::empty(),
        Effect::Wither => Seq::empty(),
    }
}

impl Effect {
    /// The attribute modifiers this effect applies while it lasts.
    pub fn modifiers(self) -> (r: Vec<EffectModifier>)
        ensures
            r@.map_values(|m: EffectModifier| m.plain()) == effect_modifiers(self),
    {
        match self {
            Effect::Absorption => {
                let r = vec![EffectModifier { attribute: "max_absorption", amount_bits: 0x4010000000000000u64, operation: Operation::AddValue, name: "minecraft:effect.absorption" }];
                assert(r@.map_values(|m: EffectModifier| m.plain()) =~= effect_modifiers(self));
                r
            },
            Effect::BadOmen => Vec::new(),
            Effect::Blindness => Vec::new(),
            Effect::BreathOfTheNautilus => Vec::new(),
            Effect::ConduitPower => Vec::new(),
            Effect::Darkness => Vec::new(),
            Effect::DolphinsGrace => Vec::new(),
            Effect::FireResistance => Vec::new(),
            Effect::Glowing => Vec::new(),
            Effect::Haste => {
                let r = vec![EffectModifier { attribute: "attack_speed", amount_bits: 0x3fb99999a0000000u64, operation: Operation::AddMultipliedTotal, name: "minecraft:effect.haste" }];
                assert(r@.map_values(|m: EffectModifier| m.plain()) =~= effect_modifiers(self));
                r
            },
            Effect::HealthBoost => {
                let r = vec![EffectModifier { attribute: "max_health", amount_bits: 0x4010000000000000u64, operation: Operation::AddValue, name: "minecraft:effect.health_boost" }];
                assert(r@.map_values(|m: EffectModifier| m.plain()) =~= effect_modifiers(self));
                r
            },
            Effect::HeroOfTheVillage => Vec::new(),
            Effect::Hunger => Vec::new(),
            Effect::Infested => Vec::new(),
            Effect::InstantDamage => Vec::new(),
            Effect::InstantHealth => Vec::new(),
            Effect::Invisibility => {
                let r = vec![EffectModifier { attribute: "waypoint_transmit_range", amount_bits: 0xbff0000000000000u64, operation: Operation::AddMultipliedTotal, name: "minecraft:effect.waypoint_transmit_range_hide" }];
                assert(r@.map_values(|m: EffectModifier| m.plain()) =~= effect_modifiers(self));
                r
            },
            Effect::JumpBoost => {
                let r = vec![EffectModifier { attribute: "safe_fall_distance", amount_bits: 0x3ff0000000000000u64, operation: Operation::AddValue, name: "minecraft:effect.jump_boost" }];
                assert(r@.map_values(|m: EffectModifier| m.plain()) =~= effect_modifiers(self));
                r
            },
            Effect::Levitation => Vec::new(),
            Effect::Luck => {
                let r = vec![EffectModifier { attribute: "luck", amount_bits: 0x3ff0000000000000u64, operation: Operation::AddValue, name: "minecraft:effect.luck" }];
                assert(r@.map_values(|m: EffectModifier| m.plain()) =~= effect_modifiers(self));
                r
            },
            Effect::MiningFatigue => {
                let r = vec![EffectModifier { attribute: "attack_speed", amount_bits: 0xbfb99999a0000000u64, operation: Operation::AddMultipliedTotal, name: "minecraft:effect.mining_fatigue" }];
                assert(r@.map_values(|m: EffectModifier| m.plain()) =~= effect_modifiers(self));
                r
            },
            Effect::Nausea => Vec::new(),
            Effect::NightVision => Vec::new(),
            Effect::Oozing => Vec::new(),
            Effect::Poison => Vec::new(),
            Effect::RaidOmen => Vec::new(),
            Effect::Regeneration => Vec::new(),
            Effect::Resistance => Vec::new(),
            Effect::Saturation => Vec::new(),
            Effect::SlowFalling => Vec::new(),
            Effect::Slowness => {
                let r = vec![EffectModifier { attribute: "movement_speed", amount_bits: 0xbfc3333340000000u64, operation: Operation::AddMultipliedTotal, name: "minecraft:effect.slowness" }];
                assert(r@.map_values(|m: EffectModifier| m.plain()) =~= effect_modifiers(self));
                r
            },
            Effect::Speed => {
                let r = vec![EffectModifier { attribute: "movement_speed", amount_bits: 0x3fc99999a0000000u64, operation: Operation::AddMultipliedTotal, name: "minecraft:effect.speed" }];
                assert(r@.map_values(|m: EffectModifier| m.plain()) =~= effect_modifiers(self));
                r
            },
            Effect::Strength => {
                let r = vec![EffectModifier { attribute: "attack_damage", amount_bits: 0x4008000000000000u64, operation: Operation::AddValue, name: "minecraft:effect.strength" }];
                assert(r@.map_values(|m: EffectModifier| m.plain()) =~= effect_modifiers(self));
                r
            },
            Effect::TrialOmen => Vec::new(),
            Effect::Unluck => {
                let r = vec![EffectModifier { attribute: "luck", amount_bits: 0xbff0000000000000u64, operation: Operation::AddValue, name: "minecraft:effect.unluck" }];
                assert(r@.map_values(|m: EffectModifier| m.plain()) =~= effect_modifiers(self));
                r
            },
            Effect::WaterBreathing => Vec::new(),
            Effect::Weakness => {
                let r = vec![EffectModifier { attribute: "attack_damage", amount_bits: 0xc010000000000000u64, operation: Operation::AddValue, name: "minecraft:effect.weakness" }];
                assert(r@.map_values(|m: EffectModifier| m.plain()) =~= effect_modifiers(self));
                r
            },
            Effect::Weaving => Vec::new(),
            Effect::WindCharged => Vec::new(),
            Effect::Wither => Vec::new(),
        }
    }
}

} // verus!
