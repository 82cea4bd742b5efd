//! The kinds of damage the packs define, and what each one is like.
use crate::text::{strip_default_namespace, without_default_namespace, same_text};
use vstd::prelude::*;

verus! {

/// When the difficulty moves how hard a kind of damage hits.
///
/// Only a mob's blow is softened on easy and sharpened on hard; a player's blow and the
/// world's own hazards land the same whatever the difficulty.
#[derive(Debug, Clone, Copy, PartialEq, Eq, Structural, Hash)]
pub enum Scaling {
    /// Never, whatever the difficulty.
    Never,
    /// Only when something living that is not a player is behind it.
    WhenCausedByLivingNonPlayer,
    /// Always.
    Always,
}

/// A kind of damage, in the order of the game's own registry.
#[derive(Debug, Clone, Copy, PartialEq, Eq, Structural, Hash)]
pub enum DamageType {
    Arrow,
    BadRespawnPoint,
    Cactus,
    Campfire,
    Cramming,
    DragonBreath,
    Drown,
    DryOut,
    EnderPearl,
    Explosion,
    Fall,
    FallingAnvil,
    FallingBlock,
    FallingStalactite,
    Fireball,
    Fireworks,
    FlyIntoWall,
    Freeze,
    Generic,
    GenericKill,
    HotFloor,
    InFire,
    InWall,
    IndirectMagic,
    Lava,
    LightningBolt,
    MaceSmash,
    Magic,
    MobAttack,
    MobAttackNoAggro,
    MobProjectile,
    OnFire,
    OutOfWorld,
    OutsideBorder,
    PlayerAttack,
    PlayerExplosion,
    SonicBoom,
    Spear,
    Spit,
    Stalagmite,
    Starve,
    Sting,
    SulfurCubeHot,
    SweetBerryBush,
    Thorns,
    Thrown,
    Trident,
    UnattributedFireball,
    WindCharge,
    Wither,
    WitherSkull,
}

/// The name a kind has in the packs, without its namespace.
pub open spec fn kind_name(kind: DamageType) -> Seq<char> {
    match kind {
        DamageType::Arrow => "arrow"@,
        DamageType::BadRespawnPoint => "bad_respawn_point"@,
        DamageType::Cactus => "cactus"@,
        DamageType::Campfire => "campfire"@,
        DamageType::Cramming => "cramming"@,
        DamageType::DragonBreath => "dragon_breath"@,
        DamageType::Drown => "drown"@,
        DamageType::DryOut => "dry_out"@,
        DamageType::EnderPearl => "ender_pearl"@,
        DamageType::Explosion => "explosion"@,
        DamageType::Fall => "fall"@,
        DamageType::FallingAnvil => "falling_anvil"@,
        DamageType::FallingBlock => "falling_block"@,
        DamageType::FallingStalactite => "falling_stalactite"@,
        DamageType::Fireball => "fireball"@,
        DamageType::Fireworks => "fireworks"@,
        DamageType::FlyIntoWall => "fly_into_wall"@,
        DamageType::Freeze => "freeze"@,
        DamageType::Generic => "generic"@,
        DamageType::GenericKill => "generic_kill"@,
        DamageType::HotFloor => "hot_floor"@,
        DamageType::InFire => "in_fire"@,
        DamageType::InWall => "in_wall"@,
        DamageType::IndirectMagic => "indirect_magic"@,
        DamageType::Lava => "lava"@,
        DamageType::LightningBolt => "lightning_bolt"@,
        DamageType::MaceSmash => "mace_smash"@,
        DamageType::Magic => "magic"@,
        DamageType::MobAttack => "mob_attack"@,
        DamageType::MobAttackNoAggro => "mob_attack_no_aggro"@,
        DamageType::MobProjectile => "mob_projectile"@,
        DamageType::OnFire => "on_fire"@,
        DamageType::OutOfWorld => "out_of_world"@,
        DamageType::OutsideBorder => "outside_border"@,
        DamageType::PlayerAttack => "player_attack"@,
        DamageType::PlayerExplosion => "player_explosion"@,
        DamageType::SonicBoom => "sonic_boom"@,
        DamageType::Spear => "spear"@,
        DamageType::Spit => "spit"@,
        DamageType::Stalagmite => "stalagmite"@,
        DamageType::Starve => "starve"@,
        DamageType::Sting => "sting"@,
        DamageType::SulfurCubeHot => "sulfur_cube_hot"@,
        DamageType::SweetBerryBush => "sweet_berry_bush"@,
        DamageType::Thorns => "thorns"@,
        DamageType::Thrown => "thrown"@,
        DamageType::Trident => "trident"@,
        DamageType::UnattributedFireball => "unattributed_fireball"@,
        DamageType::WindCharge => "wind_charge"@,
        DamageType::Wither => "wither"@,
        DamageType::WitherSkull => "wither_skull"@,
    }
}

/// The name a death message is written from.
pub open spec fn kind_message(kind: DamageType) -> Seq<char> {
    match kind {
        DamageType::Arrow => "arrow"@,
        DamageType::BadRespawnPoint => "badRespawnPoint"@,
        DamageType::Cactus => "cactus"@,
        DamageType::Campfire => "inFire"@,
        DamageType::Cramming => "cramming"@,
        DamageType::DragonBreath => "dragonBreath"@,
        DamageType::Drown => "drown"@,
        DamageType::DryOut => "dryout"@,
        DamageType::EnderPearl => "fall"@,
        DamageType::Explosion => "explosion"@,
        DamageType::Fall => "fall"@,
        DamageType::FallingAnvil => "anvil"@,
        DamageType::FallingBlock => "fallingBlock"@,
        DamageType::FallingStalactite => "fallingStalactite"@,
        DamageType::Fireball => "fireball"@,
        DamageType::Fireworks => "fireworks"@,
        DamageType::FlyIntoWall => "flyIntoWall"@,
        DamageType::Freeze => "freeze"@,
        DamageType::Generic => "generic"@,
        DamageType::GenericKill => "genericKill"@,
        DamageType::HotFloor => "hotFloor"@,
        DamageType::InFire => "inFire"@,
        DamageType::InWall => "inWall"@,
        DamageType::IndirectMagic => "indirectMagic"@,
        DamageType::Lava => "lava"@,
        DamageType::LightningBolt => "lightningBolt"@,
        DamageType::MaceSmash => "mace_smash"@,
        DamageType::Magic => "magic"@,
        DamageType::MobAttack => "mob"@,
        DamageType::MobAttackNoAggro => "mob"@,
        DamageType::MobProjectile => "mob"@,
        DamageType::OnFire => "onFire"@,
        DamageType::OutOfWorld => "outOfWorld"@,
        DamageType::OutsideBorder => "outsideBorder"@,
        DamageType::PlayerAttack => "player"@,
        DamageType::PlayerExplosion => "explosion.player"@,
        DamageType::SonicBoom => "sonic_boom"@,
        DamageType::Spear => "spear"@,
        DamageType::Spit => "mob"@,
        DamageType::Stalagmite => "stalagmite"@,
        DamageType::Starve => "starve"@,
        DamageType::Sting => "sting"@,
        DamageType::SulfurCubeHot => "sulfurCubeHot"@,
        DamageType::SweetBerryBush => "sweetBerryBush"@,
        DamageType::Thorns => "thorns"@,
        DamageType::Thrown => "thrown"@,
        DamageType::Trident => "trident"@,
        DamageType::UnattributedFireball => "onFire"@,
        DamageType::WindCharge => "mob"@,
        DamageType::Wither => "wither"@,
        DamageType::WitherSkull => "witherSkull"@,
    }
}

/// Whether the difficulty moves a kind, and when.
pub open spec fn kind_scaling(kind: DamageType) -> Scaling {
    match kind {
        DamageType::Arrow => Scaling::WhenCausedByLivingNonPlayer,
        DamageType::BadRespawnPoint => Scaling::Always,
        DamageType::Cactus => Scaling::WhenCausedByLivingNonPlayer,
        DamageType::Campfire => Scaling::WhenCausedByLivingNonPlayer,
        DamageType::Cramming => Scaling::WhenCausedByLivingNonPlayer,
        DamageType::DragonBreath => Scaling::WhenCausedByLivingNonPlayer,
        DamageType::Drown => Scaling::WhenCausedByLivingNonPlayer,
        DamageType::DryOut => Scaling::WhenCausedByLivingNonPlayer,
        DamageType::EnderPearl => Scaling::WhenCausedByLivingNonPlayer,
        DamageType::Explosion => Scaling::Always,
        DamageType::Fall => Scaling::WhenCausedByLivingNonPlayer,
        DamageType::FallingAnvil => Scaling::WhenCausedByLivingNonPlayer,
        DamageType::FallingBlock => Scaling::WhenCausedByLivingNonPlayer,
        DamageType::FallingStalactite => Scaling::WhenCausedByLivingNonPlayer,
        DamageType::Fireball => Scaling::WhenCausedByLivingNonPlayer,
        DamageType::Fireworks => Scaling::WhenCausedByLivingNonPlayer,
        DamageType::FlyIntoWall => Scaling::WhenCausedByLivingNonPlayer,
        DamageType::Freeze => Scaling::WhenCausedByLivingNonPlayer,
        DamageType::Generic => Scaling::WhenCausedByLivingNonPlayer,
        DamageType::GenericKill => Scaling::WhenCausedByLivingNonPlayer,
        DamageType::HotFloor => Scaling::WhenCausedByLivingNonPlayer,
        DamageType::InFire => Scaling::WhenCausedByLivingNonPlayer,
        DamageType::InWall => Scaling::WhenCausedByLivingNonPlayer,
        DamageType::IndirectMagic => Scaling::WhenCausedByLivingNonPlayer,
        DamageType::Lava => Scaling::WhenCausedByLivingNonPlayer,
        DamageType::LightningBolt => Scaling::WhenCausedByLivingNonPlayer,
        DamageType::MaceSmash => Scaling::WhenCausedByLivingNonPlayer,
        DamageType::Magic => Scaling::WhenCausedByLivingNonPlayer,
        DamageType::MobAttack => Scaling::WhenCausedByLivingNonPlayer,
        DamageType::MobAttackNoAggro => Scaling::WhenCausedByLivingNonPlayer,
        DamageType::MobProjectile => Scaling::WhenCausedByLivingNonPlayer,
        DamageType::OnFire => Scaling::WhenCausedByLivingNonPlayer,
        DamageType::OutOfWorld => Scaling::WhenCausedByLivingNonPlayer,
        DamageType::OutsideBorder => Scaling::WhenCausedByLivingNonPlayer,
        DamageType::PlayerAttack => Scaling::WhenCausedByLivingNonPlayer,
        DamageType::PlayerExplosion => Scaling::Always,
        DamageType::SonicBoom => Scaling::Always,
        DamageType::Spear => Scaling::WhenCausedByLivingNonPlayer,
        DamageType::Spit => Scaling::WhenCausedByLivingNonPlayer,
        DamageType::Stalagmite => Scaling::WhenCausedByLivingNonPlayer,
        DamageType::Starve => Scaling::WhenCausedByLivingNonPlayer,
        DamageType::Sting => Scaling::WhenCausedByLivingNonPlayer,
        DamageType::SulfurCubeHot => Scaling::WhenCausedByLivingNonPlayer,
        DamageType::SweetBerryBush => Scaling::WhenCausedByLivingNonPlayer,
        DamageType::Thorns => Scaling::WhenCausedByLivingNonPlayer,
        DamageType::Thrown => Scaling::WhenCausedByLivingNonPlayer,
        DamageType::Trident => Scaling::WhenCausedByLivingNonPlayer,
        DamageType::UnattributedFireball => Scaling::WhenCausedByLivingNonPlayer,
        DamageType::WindCharge => Scaling::WhenCausedByLivingNonPlayer,
        DamageType::Wither => Scaling::WhenCausedByLivingNonPlayer,
        DamageType::WitherSkull => Scaling::WhenCausedByLivingNonPlayer,
    }
}

/// The kinds in the packs' `bypasses_armor` group.
pub open spec fn armour_bypassing() -> Set<DamageType> {
    set![DamageType::Cramming, DamageType::DragonBreath, DamageType::Drown, DamageType::EnderPearl, DamageType::Fall, DamageType::FlyIntoWall, DamageType::Freeze, DamageType::Generic, DamageType::GenericKill, DamageType::InWall, DamageType::IndirectMagic, DamageType::Magic, DamageType::OnFire, DamageType::OutOfWorld, DamageType::OutsideBorder, DamageType::SonicBoom, DamageType::Stalagmite, DamageType::Starve, DamageType::Wither]
}

/// The kinds in the packs' `bypasses_effects` group.
pub open spec fn effect_bypassing() -> Set<DamageType> {
    set![DamageType::Starve]
}

/// The kinds in the packs' `bypasses_resistance` group.
pub open spec fn resistance_bypassing() -> Set<DamageType> {
    set![DamageType::GenericKill, DamageType::OutOfWorld]
}

/// The kinds in the packs' `bypasses_invulnerability` group.
pub open spec fn invulnerability_bypassing() -> Set<DamageType> {
    set![DamageType::GenericKill, DamageType::OutOfWorld]
}

/// The kinds in the packs' `bypasses_cooldown` group.
pub open spec fn cooldown_bypassing() -> Set<DamageType> {
    Set::empty()
}

/// The kinds in the packs' `is_fire` group.
pub open spec fn fire_kinds() -> Set<DamageType> {
    set![DamageType::Campfire, DamageType::Fireball, DamageType::HotFloor, DamageType::InFire, DamageType::Lava, DamageType::OnFire, DamageType::SulfurCubeHot, DamageType::UnattributedFireball]
}

/// The kinds in the packs' `is_fall` group.
pub open spec fn fall_kinds() -> Set<DamageType> {
    set![DamageType::EnderPearl, DamageType::Fall, DamageType::Stalagmite]
}

/// The kinds in the packs' `is_drowning` group.
pub open spec fn drowning_kinds() -> Set<DamageType> {
    set![DamageType::Drown]
}

/// The kinds in the packs' `is_explosion` group.
pub open spec fn explosion_kinds() -> Set<DamageType> {
    set![DamageType::BadRespawnPoint, DamageType::Explosion, DamageType::Fireworks, DamageType::PlayerExplosion]
}

/// The kinds in the packs' `no_knockback` group.
pub open spec fn knockback_free() -> Set<DamageType> {
    set![DamageType::BadRespawnPoint, DamageType::Cactus, DamageType::Campfire, DamageType::Cramming, DamageType::DragonBreath, DamageType::Drown, DamageType::DryOut, DamageType::EnderPearl, DamageType::Explosion, DamageType::Fall, DamageType::FlyIntoWall, DamageType::Freeze, DamageType::Generic, DamageType::GenericKill, DamageType::HotFloor, DamageType::InFire, DamageType::InWall, DamageType::Lava, DamageType::LightningBolt, DamageType::Magic, DamageType::OnFire, DamageType::OutOfWorld, DamageType::OutsideBorder, DamageType::PlayerExplosion, DamageType::Spear, DamageType::Stalagmite, DamageType::Starve, DamageType::SulfurCubeHot, DamageType::SweetBerryBush, DamageType::Wither]
}

impl DamageType {
    /// Reads a kind from its name in the packs, with or without the `minecraft:` namespace.
    pub fn from_name(name: &str) -> (r: Option<Self>)
        ensures
            match r {
                Some(kind) => kind_name(kind) == strip_default_namespace(name@),
                None => forall|kind: DamageType| kind_name(kind) != strip_default_namespace(name@),
            },
    {
        let name = without_default_namespace(name);
        if same_text(name, "arrow") {
            return Some(DamageType::Arrow);
        }
        if same_text(name, "bad_respawn_point") {
            return Some(DamageType::BadRespawnPoint);
        }
        if same_text(name, "cactus") {
            return Some(DamageType::Cactus);
        }
        if same_text(name, "campfire") {
            return Some(DamageType::Campfire);
        }
        if same_text(name, "cramming") {
            return Some(DamageType::Cramming);
        }
        if same_text(name, "dragon_breath") {
            return Some(DamageType::DragonBreath);
        }
        if same_text(name, "drown") {
            return Some(DamageType::Drown);
        }
        if same_text(name, "dry_out") {
            return Some(DamageType::DryOut);
        }
        if same_text(name, "ender_pearl") {
            return Some(DamageType::EnderPearl);
        }
        if same_text(name, "explosion") {
            return Some(DamageType::Explosion);
        }
        if same_text(name, "fall") {
            return Some(DamageType::Fall);
        }
        if same_text(name, "falling_anvil") {
            return Some(DamageType::FallingAnvil);
        }
        if same_text(name, "falling_block") {
            return Some(DamageType::FallingBlock);
        }
        if same_text(name, "falling_stalactite") {
            return Some(DamageType::FallingStalactite);
        }
        if same_text(name, "fireball") {
            return Some(DamageType::Fireball);
        }
        if same_text(name, "fireworks") {
            return Some(DamageType::Fireworks);
        }
        if same_text(name, "fly_into_wall") {
            return Some(DamageType::FlyIntoWall);
        }
        if same_text(name, "freeze") {
            return Some(DamageType::Freeze);
        }
        if same_text(name, "generic") {
            return Some(DamageType::Generic);
        }
        if same_text(name, "generic_kill") {
            return Some(DamageType::GenericKill);
        }
        if same_text(name, "hot_floor") {
            return Some(DamageType::HotFloor);
        }
        if same_text(name, "in_fire") {
            return Some(DamageType::InFire);
        }
        if same_text(name, "in_wall") {
            return Some(DamageType::InWall);
        }
        if same_text(name, "indirect_magic") {
            return Some(DamageType::IndirectMagic);
        }
        if same_text(name, "lava") {
            return Some(DamageType::Lava);
        }
        if same_text(name, "lightning_bolt") {
            return Some(DamageType::LightningBolt);
        }
        if same_text(name, "mace_smash") {
            return Some(DamageType::MaceSmash);
        }
        if same_text(name, "magic") {
            return Some(DamageType::Magic);
        }
        if same_text(name, "mob_attack") {
            return Some(DamageType::MobAttack);
        }
        if same_text(name, "mob_attack_no_aggro") {
            return Some(DamageType::MobAttackNoAggro);
        }
        if same_text(name, "mob_projectile") {
            return Some(DamageType::MobProjectile);
        }
        if same_text(name, "on_fire") {
            return Some(DamageType::OnFire);
        }
        if same_text(name, "out_of_world") {
            return Some(DamageType::OutOfWorld);
        }
        if same_text(name, "outside_border") {
            return Some(DamageType::OutsideBorder);
        }
        if same_text(name, "player_attack") {
            return Some(DamageType::PlayerAttack);
        }
        if same_text(name, "player_explosion") {
            return Some(DamageType::PlayerExplosion);
        }
        if same_text(name, "sonic_boom") {
            return Some(DamageType::SonicBoom);
        }
        if same_text(name, "spear") {
            return Some(DamageType::Spear);
        }
        if same_text(name, "spit") {
            return Some(DamageType::Spit);
        }
        if same_text(name, "stalagmite") {
            return Some(DamageType::Stalagmite);
        }
        if same_text(name, "starve") {
            return Some(DamageType::Starve);
        }
        if same_text(name, "sting") {
            return Some(DamageType::Sting);
        }
        if same_text(name, "sulfur_cube_hot") {
            return Some(DamageType::SulfurCubeHot);
        }
        if same_text(name, "sweet_berry_bush") {
            return Some(DamageType::SweetBerryBush);
        }
        if same_text(name, "thorns") {
            return Some(DamageType::Thorns);
        }
        if same_text(name, "thrown") {
            return Some(DamageType::Thrown);
        }
        if same_text(name, "trident") {
            return Some(DamageType::Trident);
        }
        if same_text(name, "unattributed_fireball") {
            return Some(DamageType::UnattributedFireball);
        }
        if same_text(name, "wind_charge") {
            return Some(DamageType::WindCharge);
        }
        if same_text(name, "wither") {
            return Some(DamageType::Wither);
        }
        if same_text(name, "wither_skull") {
            return Some(DamageType::WitherSkull);
        }
        None
    }

    /// The kind's name in the packs, without its namespace.
    pub fn to_name(&self) -> (r: &'static str)
        ensures
            r@ == kind_name(*self),
    {
        match self {
            DamageType::Arrow => "arrow",
            DamageType::BadRespawnPoint => "bad_respawn_point",
            DamageType::Cactus => "cactus",
            DamageType::Campfire => "campfire",
            DamageType::Cramming => "cramming",
            DamageType::DragonBreath => "dragon_breath",
            DamageType::Drown => "drown",
            DamageType::DryOut => "dry_out",
            DamageType::EnderPearl => "ender_pearl",
            DamageType::Explosion => "explosion",
            DamageType::Fall => "fall",
            DamageType::FallingAnvil => "falling_anvil",
            DamageType::FallingBlock => "falling_block",
            DamageType::FallingStalactite => "falling_stalactite",
            DamageType::Fireball => "fireball",
            DamageType::Fireworks => "fireworks",
            DamageType::FlyIntoWall => "fly_into_wall",
            DamageType::Freeze => "freeze",
            DamageType::Generic => "generic",
            DamageType::GenericKill => "generic_kill",
            DamageType::HotFloor => "hot_floor",
            DamageType::InFire => "in_fire",
            DamageType::InWall => "in_wall",
            DamageType::IndirectMagic => "indirect_magic",
            DamageType::Lava => "lava",
            DamageType::LightningBolt => "lightning_bolt",
            DamageType::MaceSmash => "mace_smash",
            DamageType::Magic => "magic",
            DamageType::MobAttack => "mob_attack",
            DamageType::MobAttackNoAggro => "mob_attack_no_aggro",
            DamageType::MobProjectile => "mob_projectile",
            DamageType::OnFire => "on_fire",
            DamageType::OutOfWorld => "out_of_world",
            DamageType::OutsideBorder => "outside_border",
            DamageType::PlayerAttack => "player_attack",
            DamageType::PlayerExplosion => "player_explosion",
            DamageType::SonicBoom => "sonic_boom",
            DamageType::Spear => "spear",
            DamageType::Spit => "spit",
            DamageType::Stalagmite => "stalagmite",
            DamageType::Starve => "starve",
            DamageType::Sting => "sting",
            DamageType::SulfurCubeHot => "sulfur_cube_hot",
            DamageType::SweetBerryBush => "sweet_berry_bush",
            DamageType::Thorns => "thorns",
            DamageType::Thrown => "thrown",
            DamageType::Trident => "trident",
            DamageType::UnattributedFireball => "unattributed_fireball",
            DamageType::WindCharge => "wind_charge",
            DamageType::Wither => "wither",
            DamageType::WitherSkull => "wither_skull",
        }
    }

    /// The name a death message is written from, which is not the name of the kind: falling is
    /// `fall`, burning is `onFire`, and being hit by a player is `player`.
    pub fn message_id(self) -> (r: &'static str)
        ensures
            r@ == kind_message(self),
    {
        match self {
            DamageType::Arrow => "arrow",
            DamageType::BadRespawnPoint => "badRespawnPoint",
            DamageType::Cactus => "cactus",
            DamageType::Campfire => "inFire",
            DamageType::Cramming => "cramming",
            DamageType::DragonBreath => "dragonBreath",
            DamageType::Drown => "drown",
            DamageType::DryOut => "dryout",
            DamageType::EnderPearl => "fall",
            DamageType::Explosion => "explosion",
            DamageType::Fall => "fall",
            DamageType::FallingAnvil => "anvil",
            DamageType::FallingBlock => "fallingBlock",
            DamageType::FallingStalactite => "fallingStalactite",
            DamageType::Fireball => "fireball",
            DamageType::Fireworks => "fireworks",
            DamageType::FlyIntoWall => "flyIntoWall",
            DamageType::Freeze => "freeze",
            DamageType::Generic => "generic",
            DamageType::GenericKill => "genericKill",
            DamageType::HotFloor => "hotFloor",
            DamageType::InFire => "inFire",
            DamageType::InWall => "inWall",
            DamageType::IndirectMagic => "indirectMagic",
            DamageType::Lava => "lava",
            DamageType::LightningBolt => "lightningBolt",
            DamageType::MaceSmash => "mace_smash",
            DamageType::Magic => "magic",
            DamageType::MobAttack => "mob",
            DamageType::MobAttackNoAggro => "mob",
            DamageType::MobProjectile => "mob",
            DamageType::OnFire => "onFire",
            DamageType::OutOfWorld => "outOfWorld",
            DamageType::OutsideBorder => "outsideBorder",
            DamageType::PlayerAttack => "player",
            DamageType::PlayerExplosion => "explosion.player",
            DamageType::SonicBoom => "sonic_boom",
            DamageType::Spear => "spear",
            DamageType::Spit => "mob",
            DamageType::Stalagmite => "stalagmite",
            DamageType::Starve => "starve",
            DamageType::Sting => "sting",
            DamageType::SulfurCubeHot => "sulfurCubeHot",
            DamageType::SweetBerryBush => "sweetBerryBush",
            DamageType::Thorns => "thorns",
            DamageType::Thrown => "thrown",
            DamageType::Trident => "trident",
            DamageType::UnattributedFireball => "onFire",
            DamageType::WindCharge => "mob",
            DamageType::Wither => "wither",
            DamageType::WitherSkull => "witherSkull",
        }
    }

    /// Whether the difficulty moves this kind of damage, and when.
    pub fn scaling(self) -> (r: Scaling)
        ensures
            r == kind_scaling(self),
    {
        match self {
            DamageType::Arrow => Scaling::WhenCausedByLivingNonPlayer,
            DamageType::BadRespawnPoint => Scaling::Always,
            DamageType::Cactus => Scaling::WhenCausedByLivingNonPlayer,
            DamageType::Campfire => Scaling::WhenCausedByLivingNonPlayer,
            DamageType::Cramming => Scaling::WhenCausedByLivingNonPlayer,
            DamageType::DragonBreath => Scaling::WhenCausedByLivingNonPlayer,
            DamageType::Drown => Scaling::WhenCausedByLivingNonPlayer,
            DamageType::DryOut => Scaling::WhenCausedByLivingNonPlayer,
            DamageType::EnderPearl => Scaling::WhenCausedByLivingNonPlayer,
            DamageType::Explosion => Scaling::Always,
            DamageType::Fall => Scaling::WhenCausedByLivingNonPlayer,
            DamageType::FallingAnvil => Scaling::WhenCausedByLivingNonPlayer,
            DamageType::FallingBlock => Scaling::WhenCausedByLivingNonPlayer,
            DamageType::FallingStalactite => Scaling::WhenCausedByLivingNonPlayer,
            DamageType::Fireball => Scaling::WhenCausedByLivingNonPlayer,
            DamageType::Fireworks => Scaling::WhenCausedByLivingNonPlayer,
            DamageType::FlyIntoWall => Scaling::WhenCausedByLivingNonPlayer,
            DamageType::Freeze => Scaling::WhenCausedByLivingNonPlayer,
            DamageType::Generic => Scaling::WhenCausedByLivingNonPlayer,
            DamageType::GenericKill => Scaling::WhenCausedByLivingNonPlayer,
            DamageType::HotFloor => Scaling::WhenCausedByLivingNonPlayer,
            DamageType::InFire => Scaling::WhenCausedByLivingNonPlayer,
            DamageType::InWall => Scaling::WhenCausedByLivingNonPlayer,
            DamageType::IndirectMagic => Scaling::WhenCausedByLivingNonPlayer,
            DamageType::Lava => Scaling::WhenCausedByLivingNonPlayer,
            DamageType::LightningBolt => Scaling::WhenCausedByLivingNonPlayer,
            DamageType::MaceSmash => Scaling::WhenCausedByLivingNonPlayer,
            DamageType::Magic => Scaling::WhenCausedByLivingNonPlayer,
            DamageType::MobAttack => Scaling::WhenCausedByLivingNonPlayer,
            DamageType::MobAttackNoAggro => Scaling::WhenCausedByLivingNonPlayer,
            DamageType::MobProjectile => Scaling::WhenCausedByLivingNonPlayer,
            DamageType::OnFire => Scaling::WhenCausedByLivingNonPlayer,
            DamageType::OutOfWorld => Scaling::WhenCausedByLivingNonPlayer,
            DamageType::OutsideBorder => Scaling::WhenCausedByLivingNonPlayer,
            DamageType::PlayerAttack => Scaling::WhenCausedByLivingNonPlayer,
            DamageType::PlayerExplosion => Scaling::Always,
            DamageType::SonicBoom => Scaling::Always,
            DamageType::Spear => Scaling::WhenCausedByLivingNonPlayer,
            DamageType::Spit => Scaling::WhenCausedByLivingNonPlayer,
            DamageType::Stalagmite => Scaling::WhenCausedByLivingNonPlayer,
            DamageType::Starve => Scaling::WhenCausedByLivingNonPlayer,
            DamageType::Sting => Scaling::WhenCausedByLivingNonPlayer,
            DamageType::SulfurCubeHot => Scaling::WhenCausedByLivingNonPlayer,
            DamageType::SweetBerryBush => Scaling::WhenCausedByLivingNonPlayer,
            DamageType::Thorns => Scaling::WhenCausedByLivingNonPlayer,
            DamageType::Thrown => Scaling::WhenCausedByLivingNonPlayer,
            DamageType::Trident => Scaling::WhenCausedByLivingNonPlayer,
            DamageType::UnattributedFireball => Scaling::WhenCausedByLivingNonPlayer,
            DamageType::WindCharge => Scaling::WhenCausedByLivingNonPlayer,
            DamageType::Wither => Scaling::WhenCausedByLivingNonPlayer,
            DamageType::WitherSkull => Scaling::WhenCausedByLivingNonPlayer,
        }
    }

    /// Whether this kind is in the packs' `bypasses_armor` group.
    pub fn goes_through_armour(self) -> (r: bool)
        ensures
            r == armour_bypassing().contains(self),
    {
        match self {
            DamageType::Cramming
            | DamageType::DragonBreath
            | DamageType::Drown
            | DamageType::EnderPearl
            | DamageType::Fall
            | DamageType::FlyIntoWall
            | DamageType::Freeze
            | DamageType::Generic
            | DamageType::GenericKill
            | DamageType::InWall
            | DamageType::IndirectMagic
            | DamageType::Magic
            | DamageType::OnFire
            | DamageType::OutOfWorld
            | DamageType::OutsideBorder
            | DamageType::SonicBoom
            | DamageType::Stalagmite
            | DamageType::Starve
            | DamageType::Wither => true,
            _ => false,
        }
    }

    /// Whether this kind is in the packs' `bypasses_effects` group.
    pub fn goes_through_effects(self) -> (r: bool)
        ensures
            r == effect_bypassing().contains(self),
    {
        match self {
            DamageType::Starve => true,
            _ => false,
        }
    }

    /// Whether this kind is in the packs' `bypasses_resistance` group.
    pub fn goes_through_resistance(self) -> (r: bool)
        ensures
            r == resistance_bypassing().contains(self),
    {
        match self {
            DamageType::GenericKill
            | DamageType::OutOfWorld => true,
            _ => false,
        }
    }

    /// Whether this kind is in the packs' `bypasses_invulnerability` group.
    pub fn goes_through_invulnerability(self) -> (r: bool)
        ensures
            r == invulnerability_bypassing().contains(self),
    {
        match self {
            DamageType::GenericKill
            | DamageType::OutOfWorld => true,
            _ => false,
        }
    }

    /// Whether this kind is in the packs' `bypasses_cooldown` group.
    pub fn goes_through_the_cooldown(self) -> (r: bool)
        ensures
            r == cooldown_bypassing().contains(self),
    {
        false
    }

    /// Whether this kind is in the packs' `is_fire` group.
    pub fn is_fire(self) -> (r: bool)
        ensures
            r == fire_kinds().contains(self),
    {
        match self {
            DamageType::Campfire
            | DamageType::Fireball
            | DamageType::HotFloor
            | DamageType::InFire
            | DamageType::Lava
            | DamageType::OnFire
            | DamageType::SulfurCubeHot
            | DamageType::UnattributedFireball => true,
            _ => false,
        }
    }

    /// Whether this kind is in the packs' `is_fall` group.
    pub fn is_fall(self) -> (r: bool)
        ensures
            r == fall_kinds().contains(self),
    {
        match self {
            DamageType::EnderPearl
            | DamageType::Fall
            | DamageType::Stalagmite => true,
            _ => false,
        }
    }

    /// Whether this kind is in the packs' `is_drowning` group.
    pub fn is_drowning(self) -> (r: bool)
        ensures
            r == drowning_kinds().contains(self),
    {
        match self {
            DamageType::Drown => true,
            _ => false,
        }
    }

    /// Whether this kind is in the packs' `is_explosion` group.
    pub fn is_explosion(self) -> (r: bool)
        ensures
            r == explosion_kinds().contains(self),
    {
        match self {
            DamageType::BadRespawnPoint
            | DamageType::Explosion
            | DamageType::Fireworks
            | DamageType::PlayerExplosion => true,
            _ => false,
        }
    }

    /// Whether this kind is in the packs' `no_knockback` group.
    pub fn pushes_nothing(self) -> (r: bool)
        ensures
            r == knockback_free().contains(self),
    {
        match self {
            DamageType::BadRespawnPoint
            | DamageType::Cactus
            | DamageType::Campfire
            | DamageType::Cramming
            | DamageType::DragonBreath
            | DamageType::Drown
            | DamageType::DryOut
            | DamageType::EnderPearl
            | DamageType::Explosion
            | DamageType::Fall
            | DamageType::FlyIntoWall
            | DamageType::Freeze
            | DamageType::Generic
            | DamageType::GenericKill
            | DamageType::HotFloor
            | DamageType::InFire
            | DamageType::InWall
            | DamageType::Lava
            | DamageType::LightningBolt
            | DamageType::Magic
            | DamageType::OnFire
            | DamageType::OutOfWorld
            | DamageType::OutsideBorder
            | DamageType::PlayerExplosion
            | DamageType::Spear
            | DamageType::Stalagmite
            | DamageType::Starve
            | DamageType::SulfurCubeHot
            | DamageType::SweetBerryBush
            | DamageType::Wither => true,
            _ => false,
        }
    }

}

/// The kind of damage a name, without its namespace, belongs to, if any.
pub open spec fn damage_named(s: Seq<char>) -> Option<DamageType> {
    if s == "arrow"@ {
        Some(DamageType::Arrow)
    } else if s == "bad_respawn_point"@ {
        Some(DamageType::BadRespawnPoint)
    } else if s == "cactus"@ {
        Some(DamageType::Cactus)
    } else if s == "campfire"@ {
        Some(DamageType::Campfire)
    } else if s == "cramming"@ {
        Some(DamageType::Cramming)
    } else if s == "dragon_breath"@ {
        Some(DamageType::DragonBreath)
    } else if s == "drown"@ {
        Some(DamageType::Drown)
    } else if s == "dry_out"@ {
        Some(DamageType::DryOut)
    } else if s == "ender_pearl"@ {
        Some(DamageType::EnderPearl)
    } else if s == "explosion"@ {
        Some(DamageType::Explosion)
    } else if s == "fall"@ {
        Some(DamageType::Fall)
    } else if s == "falling_anvil"@ {
        Some(DamageType::FallingAnvil)
    } else if s == "falling_block"@ {
        Some(DamageType::FallingBlock)
    } else if s == "falling_stalactite"@ {
        Some(DamageType::FallingStalactite)
    } else if s == "fireball"@ {
        Some(DamageType::Fireball)
    } else if s == "fireworks"@ {
        Some(DamageType::Fireworks)
    } else if s == "fly_into_wall"@ {
        Some(DamageType::FlyIntoWall)
    } else if s == "freeze"@ {
        Some(DamageType::Freeze)
    } else if s == "generic"@ {
        Some(DamageType::Generic)
    } else if s == "generic_kill"@ {
        Some(DamageType::GenericKill)
    } else if s == "hot_floor"@ {
        Some(DamageType::HotFloor)
    } else if s == "in_fire"@ {
        Some(DamageType::InFire)
    } else if s == "in_wall"@ {
        Some(DamageType::InWall)
    } else if s == "indirect_magic"@ {
        Some(DamageType::IndirectMagic)
    } else if s == "lava"@ {
        Some(DamageType::Lava)
    } else if s == "lightning_bolt"@ {
        Some(DamageType::LightningBolt)
    } else if s == "mace_smash"@ {
        Some(DamageType::MaceSmash)
    } else if s == "magic"@ {
        Some(DamageType::Magic)
    } else if s == "mob_attack"@ {
        Some(DamageType::MobAttack)
    } else if s == "mob_attack_no_aggro"@ {
        Some(DamageType::MobAttackNoAggro)
    } else if s == "mob_projectile"@ {
        Some(DamageType::MobProjectile)
    } else if s == "on_fire"@ {
        Some(DamageType::OnFire)
    } else if s == "out_of_world"@ {
        Some(DamageType::OutOfWorld)
    } else if s == "outside_border"@ {
        Some(DamageType::OutsideBorder)
    } else if s == "player_attack"@ {
        Some(DamageType::PlayerAttack)
    } else if s == "player_explosion"@ {
        Some(DamageType::PlayerExplosion)
    } else if s == "sonic_boom"@ {
        Some(DamageType::SonicBoom)
    } else if s == "spear"@ {
        Some(DamageType::Spear)
    } else if s == "spit"@ {
        Some(DamageType::Spit)
    } else if s == "stalagmite"@ {
        Some(DamageType::Stalagmite)
    } else if s == "starve"@ {
        Some(DamageType::Starve)
    } else if s == "sting"@ {
        Some(DamageType::Sting)
    } else if s == "sulfur_cube_hot"@ {
        Some(DamageType::SulfurCubeHot)
    } else if s == "sweet_berry_bush"@ {
        Some(DamageType::SweetBerryBush)
    } else if s == "thorns"@ {
        Some(DamageType::Thorns)
    } else if s == "thrown"@ {
        Some(DamageType::Thrown)
    } else if s == "trident"@ {
        Some(DamageType::Trident)
    } else if s == "unattributed_fireball"@ {
        Some(DamageType::UnattributedFireball)
    } else if s == "wind_charge"@ {
        Some(DamageType::WindCharge)
    } else if s == "wither"@ {
        Some(DamageType::Wither)
    } else if s == "wither_skull"@ {
        Some(DamageType::WitherSkull)
    } else {
        None
    }
}

/// How long each name is, and the characters that tell apart names of one length.
proof fn lemma_damage_name_facts()
    ensures
        "minecraft:"@.len() == 10,
        "arrow"@.len() == 5,
        "bad_respawn_point"@.len() == 17,
        "cactus"@.len() == 6,
        "campfire"@.len() == 8,
        "cramming"@.len() == 8,
        "dragon_breath"@.len() == 13,
        "drown"@.len() == 5,
        "dry_out"@.len() == 7,
        "ender_pearl"@.len() == 11,
        "explosion"@.len() == 9,
        "fall"@.len() == 4,
        "falling_anvil"@.len() == 13,
        "falling_block"@.len() == 13,
        "falling_stalactite"@.len() == 18,
        "fireball"@.len() == 8,
        "fireworks"@.len() == 9,
        "fly_into_wall"@.len() == 13,
        "freeze"@.len() == 6,
        "generic"@.len() == 7,
        "generic_kill"@.len() == 12,
        "hot_floor"@.len() == 9,
        "in_fire"@.len() == 7,
        "in_wall"@.len() == 7,
        "indirect_magic"@.len() == 14,
        "lava"@.len() == 4,
        "lightning_bolt"@.len() == 14,
        "mace_smash"@.len() == 10,
        "magic"@.len() == 5,
        "mob_attack"@.len() == 10,
        "mob_attack_no_aggro"@.len() == 19,
        "mob_projectile"@.len() == 14,
        "on_fire"@.len() == 7,
        "out_of_world"@.len() == 12,
        "outside_border"@.len() == 14,
        "player_attack"@.len() == 13,
        "player_explosion"@.len() == 16,
        "sonic_boom"@.len() == 10,
        "spear"@.len() == 5,
        "spit"@.len() == 4,
        "stalagmite"@.len() == 10,
        "starve"@.len() == 6,
        "sting"@.len() == 5,
        "sulfur_cube_hot"@.len() == 15,
        "sweet_berry_bush"@.len() == 16,
        "thorns"@.len() == 6,
        "thrown"@.len() == 6,
        "trident"@.len() == 7,
        "unattributed_fireball"@.len() == 21,
        "wind_charge"@.len() == 11,
        "wither"@.len() == 6,
        "wither_skull"@.len() == 12,
        "arrow"@[0] == 'a',
        "bad_respawn_point"@[0] == 'b',
        "cactus"@[0] == 'c',
        "campfire"@[0] == 'c',
        "campfire"@[1] == 'a',
        "cramming"@[0] == 'c',
        "cramming"@[1] == 'r',
        "dragon_breath"@[0] == 'd',
        "drown"@[0] == 'd',
        "dry_out"@[0] == 'd',
        "ender_pearl"@[0] == 'e',
        "explosion"@[0] == 'e',
        "fall"@[0] == 'f',
        "falling_anvil"@[0] == 'f',
        "falling_anvil"@[1] == 'a',
        "falling_anvil"@[8] == 'a',
        "falling_block"@[0] == 'f',
        "falling_block"@[1] == 'a',
        "falling_block"@[8] == 'b',
        "falling_stalactite"@[0] == 'f',
        "fireball"@[0] == 'f',
        "fireworks"@[0] == 'f',
        "fly_into_wall"@[0] == 'f',
        "fly_into_wall"@[1] == 'l',
        "freeze"@[0] == 'f',
        "generic"@[0] == 'g',
        "generic_kill"@[0] == 'g',
        "hot_floor"@[0] == 'h',
        "in_fire"@[0] == 'i',
        "in_fire"@[3] == 'f',
        "in_wall"@[0] == 'i',
        "in_wall"@[3] == 'w',
        "indirect_magic"@[0] == 'i',
        "lava"@[0] == 'l',
        "lightning_bolt"@[0] == 'l',
        "mace_smash"@[0] == 'm',
        "mace_smash"@[1] == 'a',
        "magic"@[0] == 'm',
        "minecraft:"@[0] == 'm',
        "minecraft:"@[1] == 'i',
        "mob_attack"@[0] == 'm',
        "mob_attack"@[1] == 'o',
        "mob_attack_no_aggro"@[1] == 'o',
        "mob_projectile"@[0] == 'm',
        "mob_projectile"@[1] == 'o',
        "on_fire"@[0] == 'o',
        "out_of_world"@[0] == 'o',
        "outside_border"@[0] == 'o',
        "player_attack"@[0] == 'p',
        "player_explosion"@[0] == 'p',
        "sonic_boom"@[0] == 's',
        "sonic_boom"@[1] == 'o',
        "spear"@[0] == 's',
        "spear"@[1] == 'p',
        "spit"@[0] == 's',
        "stalagmite"@[0] == 's',
        "stalagmite"@[1] == 't',
        "starve"@[0] == 's',
        "sting"@[0] == 's',
        "sting"@[1] == 't',
        "sulfur_cube_hot"@[0] == 's',
        "sweet_berry_bush"@[0] == 's',
        "thorns"@[0] == 't',
        "thorns"@[2] == 'o',
        "thrown"@[0] == 't',
        "thrown"@[2] == 'r',
        "trident"@[0] == 't',
        "unattributed_fireball"@[0] == 'u',
        "wind_charge"@[0] == 'w',
        "wither"@[0] == 'w',
        "wither_skull"@[0] == 'w',
{
    reveal_strlit("minecraft:");
    reveal_strlit("arrow");
    reveal_strlit("bad_respawn_point");
    reveal_strlit("cactus");
    reveal_strlit("campfire");
    reveal_strlit("cramming");
    reveal_strlit("dragon_breath");
    reveal_strlit("drown");
    reveal_strlit("dry_out");
    reveal_strlit("ender_pearl");
    reveal_strlit("explosion");
    reveal_strlit("fall");
    reveal_strlit("falling_anvil");
    reveal_strlit("falling_block");
    reveal_strlit("falling_stalactite");
    reveal_strlit("fireball");
    reveal_strlit("fireworks");
    reveal_strlit("fly_into_wall");
    reveal_strlit("freeze");
    reveal_strlit("generic");
    reveal_strlit("generic_kill");
    reveal_strlit("hot_floor");
    reveal_strlit("in_fire");
    reveal_strlit("in_wall");
    reveal_strlit("indirect_magic");
    reveal_strlit("lava");
    reveal_strlit("lightning_bolt");
    reveal_strlit("mace_smash");
    reveal_strlit("magic");
    reveal_strlit("mob_attack");
    reveal_strlit("mob_attack_no_aggro");
    reveal_strlit("mob_projectile");
    reveal_strlit("on_fire");
    reveal_strlit("out_of_world");
    reveal_strlit("outside_border");
    reveal_strlit("player_attack");
    reveal_strlit("player_explosion");
    reveal_strlit("sonic_boom");
    reveal_strlit("spear");
    reveal_strlit("spit");
    reveal_strlit("stalagmite");
    reveal_strlit("starve");
    reveal_strlit("sting");
    reveal_strlit("sulfur_cube_hot");
    reveal_strlit("sweet_berry_bush");
    reveal_strlit("thorns");
    reveal_strlit("thrown");
    reveal_strlit("trident");
    reveal_strlit("unattributed_fireball");
    reveal_strlit("wind_charge");
    reveal_strlit("wither");
    reveal_strlit("wither_skull");
}

proof fn lemma_damage_named(kind: DamageType)
    ensures
        damage_named(kind_name(kind)) == Some(kind),
        strip_default_namespace(kind_name(kind)) == kind_name(kind),
{
    lemma_damage_name_facts();
    match kind {
        DamageType::Arrow => {},
        DamageType::BadRespawnPoint => {
            assert("bad_respawn_point"@.take(10)[0] == "bad_respawn_point"@[0]);
        },
        DamageType::Cactus => {},
        DamageType::Campfire => {},
        DamageType::Cramming => {},
        DamageType::DragonBreath => {
            assert("dragon_breath"@.take(10)[0] == "dragon_breath"@[0]);
        },
        DamageType::Drown => {},
        DamageType::DryOut => {},
        DamageType::EnderPearl => {
            assert("ender_pearl"@.take(10)[0] == "ender_pearl"@[0]);
        },
        DamageType::Explosion => {},
        DamageType::Fall => {},
        DamageType::FallingAnvil => {
            assert("falling_anvil"@.take(10)[0] == "falling_anvil"@[0]);
        },
        DamageType::FallingBlock => {
            assert("falling_block"@.take(10)[0] == "falling_block"@[0]);
        },
        DamageType::FallingStalactite => {
            assert("falling_stalactite"@.take(10)[0] == "falling_stalactite"@[0]);
        },
        DamageType::Fireball => {},
        DamageType::Fireworks => {},
        DamageType::FlyIntoWall => {
            assert("fly_into_wall"@.take(10)[0] == "fly_into_wall"@[0]);
        },
        DamageType::Freeze => {},
        DamageType::Generic => {},
        DamageType::GenericKill => {
            assert("generic_kill"@.take(10)[0] == "generic_kill"@[0]);
        },
        DamageType::HotFloor => {},
        DamageType::InFire => {},
        DamageType::InWall => {},
        DamageType::IndirectMagic => {
            assert("indirect_magic"@.take(10)[0] == "indirect_magic"@[0]);
        },
        DamageType::Lava => {},
        DamageType::LightningBolt => {
            assert("lightning_bolt"@.take(10)[0] == "lightning_bolt"@[0]);
        },
        DamageType::MaceSmash => {
            assert("mace_smash"@.take(10)[1] == "mace_smash"@[1]);
        },
        DamageType::Magic => {},
        DamageType::MobAttack => {
            assert("mob_attack"@.take(10)[1] == "mob_attack"@[1]);
        },
        DamageType::MobAttackNoAggro => {
            assert("mob_attack_no_aggro"@.take(10)[1] == "mob_attack_no_aggro"@[1]);
        },
        DamageType::MobProjectile => {
            assert("mob_projectile"@.take(10)[1] == "mob_projectile"@[1]);
        },
        DamageType::OnFire => {},
        DamageType::OutOfWorld => {
            assert("out_of_world"@.take(10)[0] == "out_of_world"@[0]);
        },
        DamageType::OutsideBorder => {
            assert("outside_border"@.take(10)[0] == "outside_border"@[0]);
        },
        DamageType::PlayerAttack => {
            assert("player_attack"@.take(10)[0] == "player_attack"@[0]);
        },
        DamageType::PlayerExplosion => {
            assert("player_explosion"@.take(10)[0] == "player_explosion"@[0]);
        },
        DamageType::SonicBoom => {
            assert("sonic_boom"@.take(10)[0] == "sonic_boom"@[0]);
        },
        DamageType::Spear => {},
        DamageType::Spit => {},
        DamageType::Stalagmite => {
            assert("stalagmite"@.take(10)[0] == "stalagmite"@[0]);
        },
        DamageType::Starve => {},
        DamageType::Sting => {},
        DamageType::SulfurCubeHot => {
            assert("sulfur_cube_hot"@.take(10)[0] == "sulfur_cube_hot"@[0]);
        },
        DamageType::SweetBerryBush => {
            assert("sweet_berry_bush"@.take(10)[0] == "sweet_berry_bush"@[0]);
        },
        DamageType::Thorns => {},
        DamageType::Thrown => {},
        DamageType::Trident => {},
        DamageType::UnattributedFireball => {
            assert("unattributed_fireball"@.take(10)[0] == "unattributed_fireball"@[0]);
        },
        DamageType::WindCharge => {
            assert("wind_charge"@.take(10)[0] == "wind_charge"@[0]);
        },
        DamageType::Wither => {},
        DamageType::WitherSkull => {
            assert("wither_skull"@.take(10)[0] == "wither_skull"@[0]);
        },
    }
}

/// No two kinds of damage share a name, and none is named with the `minecraft:` namespace in it: so
/// reading a name, bare or with `minecraft:` in front, gives the one it names and no other.
pub proof fn lemma_damage_names_read_back(kind: DamageType)
    ensures
        strip_default_namespace(kind_name(kind)) == kind_name(kind),
        strip_default_namespace("minecraft:"@ + kind_name(kind)) == kind_name(kind),
        forall|other: DamageType| #[trigger] kind_name(other) == kind_name(kind) ==> other == kind,
{
    lemma_damage_named(kind);
    reveal_strlit("minecraft:");
    let whole = "minecraft:"@ + kind_name(kind);
    assert(whole.take(10) =~= "minecraft:"@);
    assert(whole.skip(10) =~= kind_name(kind));
    assert forall|other: DamageType| #[trigger] kind_name(other) == kind_name(kind) implies other == kind by {
        lemma_damage_named(other);
    }
}

} // verus!
