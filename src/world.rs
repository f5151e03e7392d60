//! Entities, their store, and the event channels that connect the stages
//! of a tick.
use vstd::prelude::*;
use crate::geometry::{Hitbox2DComponent, Transform, Vector2};
use crate::health::HealthComponent;
use crate::kinds::{
    BlastType, ConsumableType, EffectType, ItemType, MobType, SoundEffect,
};
use crate::motion::{BarrierComponent, Motion2DComponent};

verus! {

/// Handle of an entity: the index of its slot. Slots are never reused, so
/// a handle to a deleted entity stays detectably dead.
#[derive(Clone, Copy, Debug, PartialEq, Eq, Structural)]
pub struct EntityId {
    pub index: usize,
}

#[derive(Clone, Copy, Debug, PartialEq, Eq, Structural)]
pub struct PlayerComponent {
    pub collision_damage: i32,
    /// A barrel roll is under way.
    pub rolling: bool,
    /// Rolling makes the ship immune to collision damage.
    pub steel_barrel: bool,
}

/// What a player is spawned with.
#[derive(Clone, Copy, Debug, PartialEq, Eq, Structural)]
pub struct PlayerEntityData {
    pub player_component: PlayerComponent,
}

#[derive(Clone, Copy, Debug, PartialEq, Eq, Structural)]
pub struct MobComponent {
    pub mob_type: MobType,
    pub collision_damage: i32,
    /// Taken from the defense pool when the mob reaches the bottom.
    pub defense_damage: i32,
    /// Health lost every tick.
    pub poison: i32,
    /// Where a homing mob is heading this tick.
    pub target_position: Option<Vector2>,
}

#[derive(Clone, Copy, Debug, PartialEq, Eq, Structural)]
pub struct BlastComponent {
    pub blast_type: BlastType,
    pub damage: i32,
    pub poison_damage: i32,
}

#[derive(Clone, Copy, Debug, PartialEq, Eq, Structural)]
pub struct ConsumableComponent {
    pub consumable_type: ConsumableType,
    pub sound_effect: SoundEffect,
}

/// The role of an entity, with what that role carries.
#[derive(Clone, Copy, Debug, PartialEq, Eq, Structural)]
pub enum Category {
    Player(PlayerComponent),
    Mob(MobComponent),
    Blast(BlastComponent),
    Item(ItemType),
    Consumable(ConsumableComponent),
    Barrier(BarrierComponent),
}

#[derive(Clone, Copy, Debug, PartialEq, Eq, Structural)]
pub struct Entity {
    pub category: Category,
    pub transform: Transform,
    pub hitbox: Hitbox2DComponent,
    pub motion: Motion2DComponent,
    pub health: HealthComponent,
}

/// Requests and reports handed to collaborators (audio, effects,
/// inventory, loot).
#[derive(Clone, Copy, Debug, PartialEq, Eq, Structural)]
pub enum Notification {
    PlayAudio(SoundEffect),
    SpawnEffect { effect: EffectType, x: i32, y: i32 },
    ItemGet { player: EntityId, item: ItemType },
    ConsumableGet { player: EntityId, consumable: ConsumableType },
    DropLoot { mob_type: MobType, x: i32, y: i32 },
}

/// One detected overlap, seen from `subject`, with both sides' velocity
/// and immovable flag as they were at detection. `collision_velocity`, used
/// for knockback, is the other side's velocity relative to the subject.
#[derive(Clone, Copy, Debug, PartialEq, Eq, Structural)]
pub struct CollisionEvent {
    pub subject: EntityId,
    pub subject_velocity: Vector2,
    pub subject_immovable: bool,
    pub other: EntityId,
    pub other_velocity: Vector2,
    pub other_immovable: bool,
    pub collision_velocity: Option<Vector2>,
}

#[derive(Clone, Copy, Debug, PartialEq, Eq, Structural)]
pub struct MobReachedBottomEvent {
    pub damage: i32,
}

#[derive(Clone, Copy, Debug, PartialEq, Eq, Structural)]
pub struct MobDestroyedEvent {
    pub mob: EntityId,
}

/// The entity in slot `id`, if it is alive.
pub open spec fn lookup(w: Seq<Option<Entity>>, id: EntityId) -> Option<Entity> {
    if id.index < w.len() {
        w[id.index as int]
    } else {
        None
    }
}

/// The store after deleting `id`; deleting a dead entity changes nothing.
pub open spec fn deleted(w: Seq<Option<Entity>>, id: EntityId) -> Seq<Option<Entity>> {
    if id.index < w.len() {
        w.update(id.index as int, None)
    } else {
        w
    }
}

/// The store with slot `id` holding `e`.
pub open spec fn replaced(w: Seq<Option<Entity>>, id: EntityId, e: Entity) -> Seq<Option<Entity>> {
    if id.index < w.len() {
        w.update(id.index as int, Some(e))
    } else {
        w
    }
}

/// The live entities, one slot each.
pub struct World {
    slots: Vec<Option<Entity>>,
}

impl View for World {
    type V = Seq<Option<Entity>>;

    closed spec fn view(&self) -> Seq<Option<Entity>> {
        self.slots@
    }
}

impl World {
    pub fn new() -> (r: World)
        ensures
            r@ == Seq::<Option<Entity>>::empty(),
    {
        World { slots: Vec::new() }
    }

    pub fn len(&self) -> (r: usize)
        ensures
            r == self@.len(),
    {
        self.slots.len()
    }

    /// Adds an entity in a fresh slot.
    pub fn spawn(&mut self, e: Entity) -> (r: EntityId)
        ensures
            final(self)@ == old(self)@.push(Some(e)),
            r.index == old(self)@.len(),
    {
        let r = EntityId { index: self.slots.len() };
        self.slots.push(Some(e));
        r
    }

    pub fn get(&self, id: EntityId) -> (r: Option<Entity>)
        ensures
            r == lookup(self@, id),
    {
        if id.index < self.slots.len() {
            self.slots[id.index]
        } else {
            None
        }
    }

    /// Stores `e` in slot `id`.
    pub fn set(&mut self, id: EntityId, e: Entity)
        ensures
            final(self)@ == replaced(old(self)@, id, e),
    {
        if id.index < self.slots.len() {
            self.slots.set(id.index, Some(e));
        }
    }

    /// Deletes an entity; deleting one that is already gone is a no-op.
    pub fn delete(&mut self, id: EntityId)
        ensures
            final(self)@ == deleted(old(self)@, id),
    {
        if id.index < self.slots.len() {
            self.slots.set(id.index, None);
        }
    }
}

/// Deleting twice is deleting once.
pub proof fn lemma_delete_idempotent(w: Seq<Option<Entity>>, id: EntityId)
    ensures
        deleted(deleted(w, id), id) == deleted(w, id),
{
    if id.index < w.len() {
        assert(deleted(deleted(w, id), id) =~= deleted(w, id));
    }
}

/// Where a consumer of a channel has read up to.
#[derive(Clone, Copy, Debug, PartialEq, Eq, Structural)]
pub struct ReaderId {
    pub cursor: usize,
}

/// An append-only queue of events with any number of independent readers.
pub struct EventChannel<T> {
    events: Vec<T>,
}

impl<T> View for EventChannel<T> {
    type V = Seq<T>;

    closed spec fn view(&self) -> Seq<T> {
        self.events@
    }
}

impl<T: Copy> EventChannel<T> {
    pub fn new() -> (r: EventChannel<T>)
        ensures
            r@ == Seq::<T>::empty(),
    {
        EventChannel { events: Vec::new() }
    }

    pub fn len(&self) -> (r: usize)
        ensures
            r == self@.len(),
    {
        self.events.len()
    }

    pub fn single_write(&mut self, e: T)
        ensures
            final(self)@ == old(self)@.push(e),
    {
        self.events.push(e);
    }

    /// A reader that will see the events written from now on.
    pub fn register_reader(&self) -> (r: ReaderId)
        ensures
            r.cursor == self@.len(),
    {
        ReaderId { cursor: self.events.len() }
    }

    pub fn event(&self, i: usize) -> (r: T)
        requires
            i < self@.len(),
        ensures
            r == self@[i as int],
    {
        self.events[i]
    }
}

} // verus!
