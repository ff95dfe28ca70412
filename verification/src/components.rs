//! The components and resources entities carry.
//!
//! Entities are named by plain ids; each per-frame rule takes the component
//! values it reads and returns the values and engine actions it produces.
//! Health is carried in tenths of a point, positions in tenths of a pixel.

use vstd::prelude::*;

use crate::geom::Vec2i;
use crate::geom::Vec3i;
use crate::items::Item;
use crate::items::ItemTypes;
use crate::timer::GameTimer;

verus! {

/// Health points are clamped into [0, HEALTH_CAP] when zombies attack.
pub const HEALTH_CAP: i64 = 100_000;

/// What happens to an entity when its health is spent.
#[derive(Clone, Copy, PartialEq, Eq, Structural, Debug)]
pub enum DestructKind {
    /// The entity alone is despawned.
    Despawn,
    /// The entity and its children are despawned.
    DespawnRecursive,
    /// Despawned, leaving a dead-zombie sprite behind.
    ZombieDead,
    /// Despawned, leaving a burst of turret debris behind.
    TurretDestroyed,
    /// Nothing; the game-over transition reacts instead.
    Nothing,
}

#[derive(Clone, Copy, PartialEq, Eq, Structural, Debug)]
pub struct EntityHealth {
    /// Health in tenths of a point.
    pub val: i64,
    /// What to do when the health is spent.
    pub func_destruct: DestructKind,
}

/// Velocity state, in tenths of a pixel per second.
#[derive(Clone, Copy, PartialEq, Eq, Structural, Debug)]
pub struct Rigidbody {
    pub vx: i64,
    pub vy: i64,
    pub friction: bool,
}

/// Axis-aligned collision box, full side lengths in tenths of a pixel.
#[derive(Clone, Copy, PartialEq, Eq, Structural, Debug)]
pub struct BoxCollider {
    pub size: Vec2i,
}

/// How valuable a target is to a zombie.
#[derive(Clone, Copy, PartialEq, Eq, Structural, Debug)]
pub enum TargetPriority {
    High,
    Medium,
    Low,
}

impl TargetPriority {
    /// The numeric rank zombies compare: High outranks Medium outranks Low.
    pub fn rank(&self) -> (r: u8)
        ensures
            r == self.spec_rank(),
    {
        match self {
            TargetPriority::High => 3,
            TargetPriority::Medium => 2,
            TargetPriority::Low => 1,
        }
    }

    pub open spec fn spec_rank(self) -> u8 {
        match self {
            TargetPriority::High => 3,
            TargetPriority::Medium => 2,
            TargetPriority::Low => 1,
        }
    }
}

/// A zombie's current destination.
#[derive(Clone, Copy, PartialEq, Eq, Structural, Debug)]
pub struct Pathfinder {
    pub target: Vec3i,
    /// Whether the destination is an attackable entity rather than a stroll point.
    pub target_entity: bool,
    pub target_priority: TargetPriority,
}

/// Growing wheat: sprite state 0..=2 advanced on a timer.
#[derive(Clone, Copy, PartialEq, Eq, Structural, Debug)]
pub struct Wheat {
    pub state: u8,
    pub timer: GameTimer,
}

/// A turret's current firing solution.
#[derive(Clone, Copy, PartialEq, Eq, Structural, Debug)]
pub struct TurretTargeting {
    pub target: Vec3i,
    pub shoot: bool,
}

#[derive(Clone, Copy, PartialEq, Eq, Structural, Debug)]
pub struct CollectableItem {
    pub item: Item,
}

#[derive(Clone, Copy, PartialEq, Eq, Structural, Debug)]
pub struct DropsItem {
    pub item: Item,
}

#[derive(Clone, Copy, PartialEq, Eq, Structural, Debug)]
pub enum InteractionType {
    ChestOpen,
}

#[derive(Clone, Copy, PartialEq, Eq, Structural, Debug)]
pub struct InteractableEntity {
    pub interact_type: InteractionType,
}

#[derive(Clone, Copy, PartialEq, Eq, Structural, Debug)]
pub struct InventoryItem {
    pub item: Item,
}

/// An open container inventory, remembering which entity it came from.
#[derive(Clone, Copy, PartialEq, Eq, Structural, Debug)]
pub struct ExternalInventory {
    pub entity_origin: u64,
}

/// A mining rig's production timer.
#[derive(Clone, Copy, PartialEq, Eq, Structural, Debug)]
pub struct MiningRig(pub GameTimer);

#[derive(Clone, Copy, PartialEq, Eq, Structural, Debug)]
pub struct Magazine(pub u8);

#[derive(Clone, Copy, PartialEq, Eq, Structural, Debug)]
pub struct ReloadTimer(pub GameTimer);

#[derive(Clone, Copy, PartialEq, Eq, Structural, Debug)]
pub struct TempZombieDead(pub GameTimer);

#[derive(Clone, Copy, PartialEq, Eq, Structural, Debug)]
pub struct TempTurretDestroyed(pub GameTimer);

#[derive(Clone, Copy, PartialEq, Eq, Structural, Debug)]
pub struct NewTargetTimer(pub GameTimer);

#[derive(Clone, Copy, PartialEq, Eq, Structural, Debug)]
pub struct Attackable(pub TargetPriority);

#[derive(Clone, Copy, PartialEq, Eq, Structural, Debug)]
pub struct ZombieAttackTimer(pub GameTimer);

#[derive(Clone, Copy, PartialEq, Eq, Structural, Debug)]
pub struct TurretShootTimer(pub GameTimer);

#[derive(Clone, Copy, PartialEq, Eq, Structural, Debug)]
pub struct TurretCoolTimer(pub GameTimer);

#[derive(Clone, Copy, PartialEq, Eq, Structural, Debug)]
pub struct TurretBulletTimer(pub GameTimer);

#[derive(Clone, Copy, PartialEq, Eq, Structural, Debug)]
pub struct Explosion(pub GameTimer);

// Marker components: which kind an entity is.

#[derive(Clone, Copy, PartialEq, Eq, Structural, Debug)]
pub struct StaticEntity;

#[derive(Clone, Copy, PartialEq, Eq, Structural, Debug)]
pub struct Tree;

#[derive(Clone, Copy, PartialEq, Eq, Structural, Debug)]
pub struct Player;

#[derive(Clone, Copy, PartialEq, Eq, Structural, Debug)]
pub struct Chest;

#[derive(Clone, Copy, PartialEq, Eq, Structural, Debug)]
pub struct HealthBar;

#[derive(Clone, Copy, PartialEq, Eq, Structural, Debug)]
pub struct Bullet;

#[derive(Clone, Copy, PartialEq, Eq, Structural, Debug)]
pub struct Zombie;

#[derive(Clone, Copy, PartialEq, Eq, Structural, Debug)]
pub struct WoodFence;

#[derive(Clone, Copy, PartialEq, Eq, Structural, Debug)]
pub struct WindMill;

#[derive(Clone, Copy, PartialEq, Eq, Structural, Debug)]
pub struct WindMillBlade;

#[derive(Clone, Copy, PartialEq, Eq, Structural, Debug)]
pub struct Wall;

#[derive(Clone, Copy, PartialEq, Eq, Structural, Debug)]
pub struct Turret;

#[derive(Clone, Copy, PartialEq, Eq, Structural, Debug)]
pub struct TripMine;

#[derive(Clone, Copy, PartialEq, Eq, Structural, Debug)]
pub struct Fence;

#[derive(Clone, Copy, PartialEq, Eq, Structural, Debug)]
pub struct Inventory;

#[derive(Clone, Copy, PartialEq, Eq, Structural, Debug)]
pub struct MainCamera;

#[derive(Clone, Copy, PartialEq, Eq, Structural, Debug)]
pub struct TextScoreboard;

#[derive(Clone, Copy, PartialEq, Eq, Structural, Debug)]
pub struct UiText;

/// The screens and phases the game moves through.
#[derive(Clone, Copy, PartialEq, Eq, Structural, Debug, Hash)]
pub enum AppState {
    MainMenu,
    GameSetup,
    InGame,
    Inventory,
    ExternalInventory,
    GameDestruct,
    Paused,
}

/// The mouse position in world coordinates, tenths of a pixel.
#[derive(Clone, Copy, PartialEq, Eq, Structural, Debug)]
pub struct MouseLoc {
    pub x: i64,
    pub y: i64,
}

impl MouseLoc {
    /// The mouse point lifted into the plane z = 0.
    pub fn get_vec3(&self) -> (r: Vec3i)
        ensures
            r == (Vec3i { x: self.x, y: self.y, z: 0 }),
    {
        Vec3i { x: self.x, y: self.y, z: 0 }
    }
}

/// Which block the player will build next.
#[derive(Clone, Copy, PartialEq, Eq, Structural, Debug)]
pub struct BlockSelection {
    pub block: ItemTypes,
}

/// One inventory panel on screen, named for whose items it shows.
#[derive(Clone, Copy, PartialEq, Eq, Structural, Debug)]
pub enum InvName {
    PlayerPanel,
    ExternalPanel,
}

/// The player pressed the interact key near a chest.
#[derive(Clone, Copy, PartialEq, Eq, Structural, Debug)]
pub struct ChestInteractEvent {
    pub chest_entity: u64,
}

/// A container's inventory changed and its entity must be updated.
#[derive(Clone, Debug)]
pub struct ChestChangeInventoryEvent {
    pub entity: u64,
    pub items: crate::items::InventoryItems,
}

/// A moving entity was stopped by a static one this frame.
#[derive(Clone, Copy, PartialEq, Eq, Structural, Debug)]
pub struct CollisionEvent {
    pub ent_a: u64,
    pub stat_b: u64,
}

/// An instruction to the engine to remove an entity.
#[derive(Clone, Copy, PartialEq, Eq, Structural, Debug)]
pub struct DespawnAction {
    pub entity: u64,
    /// Whether the entity's children go with it.
    pub recursive: bool,
}

} // verus!
