//! The closed sets of entity kinds that the simulation dispatches on.
use vstd::prelude::*;

verus! {

/// Anything that a spawner can place in the arena.
#[derive(Clone, Copy, Debug, PartialEq, Eq, Hash, Structural)]
pub enum SpawnableType {
    Consumable(ConsumableType),
    Item(ItemType),
    Effect(EffectType),
    Mob(MobType),
}

/// The allegiance and kind of a mob.
#[derive(Clone, Copy, Debug, PartialEq, Eq, Hash, Structural)]
pub enum MobType {
    Enemy(EnemyType),
    Ally(AllyType),
    Neutral(NeutralType),
}

#[derive(Clone, Copy, Debug, PartialEq, Eq, Hash, Structural)]
pub enum EnemyType {
    Pawn,
    Drone,
    StraferRight,
    StraferLeft,
    MissileLauncher,
    Missile,
    RepeaterBody,
    RepeaterHead,
    RepeaterLeftShoulder,
    RepeaterRightShoulder,
    RepeaterLeftArm,
    RepeaterRightArm,
}

#[derive(Clone, Copy, Debug, PartialEq, Eq, Hash, Structural)]
pub enum AllyType {
    Hauler,
}

#[derive(Clone, Copy, Debug, PartialEq, Eq, Hash, Structural)]
pub enum NeutralType {
    MoneyAsteroid,
}

#[derive(Clone, Copy, Debug, PartialEq, Eq, Hash, Structural)]
pub enum ConsumableType {
    DefenseWrench,
    Money1,
    Money5,
    HealthWrench,
    Armor,
}

#[derive(Clone, Copy, Debug, PartialEq, Eq, Hash, Structural)]
pub enum ItemType {
    SteelBarrel,
    PlasmaBlasts,
    HazardousReactor,
    WarpThruster,
    Tentaclover,
    DefenseSatellite,
    DoubleBarrel,
    YithianPlague,
    Spice,
    EnhancedPlating,
    StructureReinforcement,
    BlasterSizeEnhancer,
    FrequencyAugmentor,
    TractorBeam,
    BlastRepeller,
}

/// Visual effects that the simulation asks a collaborator to spawn.
#[derive(Clone, Copy, Debug, PartialEq, Eq, Hash, Structural)]
pub enum EffectType {
    AllyBlastExplosion,
    EnemyBlastExplosion,
    PoisonBlastExplosion,
    CriticalBlastExplosion,
    MobExplosion,
    Star,
    Giblets(MobType),
}

/// Who fired a blast, and what it rolled.
#[derive(Clone, Copy, Debug, PartialEq, Eq, Hash, Structural)]
pub enum BlastType {
    Ally,
    Enemy,
    AllyCritical,
    AllyPoison,
}

/// Sound cues that resolvers request from the audio collaborator.
#[derive(Clone, Copy, Debug, PartialEq, Eq, Hash, Structural)]
pub enum SoundEffect {
    MetalCrash,
    MetalPing,
    ForceField,
    ShotgunCock,
    Explosion,
    Pickup(ConsumableType),
}

/// True of the mob kind that detonates on contact.
pub open spec fn is_missile(t: MobType) -> bool {
    t == MobType::Enemy(EnemyType::Missile)
}

/// Tells whether a mob is the homing missile.
pub fn mob_is_missile(t: &MobType) -> (r: bool)
    ensures
        r == is_missile(*t),
{
    match t {
        MobType::Enemy(EnemyType::Missile) => true,
        _ => false,
    }
}

} // verus!
