//! The buildable blocks: what each one is made of and how it behaves.
//!
//! Every spawn function returns the exact component record the block starts
//! with; the behaviours are per-frame rules over those components.

use vstd::prelude::*;

use crate::components::Attackable;
use crate::components::BoxCollider;
use crate::components::DespawnAction;
use crate::components::DestructKind;
use crate::components::EntityHealth;
use crate::components::Fence;
use crate::components::InteractableEntity;
use crate::components::InteractionType;
use crate::components::MiningRig;
use crate::components::Rigidbody;
use crate::components::TargetPriority;
use crate::components::Wheat;
use crate::geom::Vec2i;
use crate::geom::Vec3i;
use crate::geom::dist_sq;
use crate::geom::spec_clamp;
use crate::items::InventoryItems;
use crate::items::Item;
use crate::items::ItemTypes;
use crate::physics::FRAME_MS_LIMIT;
use crate::timer::GameTimer;

verus! {

/// Entities within 20 pixels of a fence crawl: 3 pixels per second.
pub const FENCE_SPEED: i64 = 30;

/// The blade turns at 1.5 * 3.14 radians per second, in milliradians.
pub const ROT_SPEED_MRAD: i64 = 4710;

/// Squared power radius of a windmill: 80 pixels, in tenths.
pub const POWER_RADIUS_SQ: i64 = 640_000;

/// A block sprite is one 20 by 20 pixel tile.
pub const BLOCK_SIZE: i64 = 200;

/// A chest: an interactable container with its own inventory.
#[derive(Clone, Debug)]
pub struct ChestBundle {
    pub sprite_index: usize,
    pub custom_size: Vec2i,
    pub pos: Vec3i,
    pub items: InventoryItems,
    pub interact: InteractableEntity,
    pub health: EntityHealth,
}

/// Build a chest holding the given items.
pub fn spawn_chest(parent_trans: Vec3i, inv_items: InventoryItems) -> (c: ChestBundle)
    ensures
        c.sprite_index == ItemTypes::Chest.spec_sprite_index(),
        c.custom_size == (Vec2i { x: BLOCK_SIZE, y: BLOCK_SIZE }),
        c.pos == parent_trans,
        c.items@ == inv_items@,
        c.interact == (InteractableEntity { interact_type: InteractionType::ChestOpen }),
        c.health == (EntityHealth { val: 5000, func_destruct: DestructKind::DespawnRecursive }),
{
    ChestBundle {
        sprite_index: ItemTypes::Chest.sprite_index(),
        custom_size: Vec2i { x: BLOCK_SIZE, y: BLOCK_SIZE },
        pos: parent_trans,
        items: inv_items,
        interact: InteractableEntity { interact_type: InteractionType::ChestOpen },
        health: EntityHealth { val: 5000, func_destruct: DestructKind::DespawnRecursive },
    }
}

/// The chest the world starts with: twenty coal above the origin.
pub fn chest_init_test() -> (c: ChestBundle)
    ensures
        c.pos == (Vec3i { x: 0, y: 1000, z: 25 }),
        c.items@ =~= seq![Item { item_type: ItemTypes::Coal, quantity: 20 }],
        c.sprite_index == ItemTypes::Chest.spec_sprite_index(),
{
    let mut items = InventoryItems::new();
    items.items.push(Item { item_type: ItemTypes::Coal, quantity: 20 });
    spawn_chest(Vec3i { x: 0, y: 1000, z: 25 }, items)
}

/// A block that only stands, takes damage and can be attacked.
#[derive(Clone, Copy, PartialEq, Eq, Structural, Debug)]
pub struct BlockBundle {
    pub sprite_index: usize,
    pub custom_size: Vec2i,
    pub pos: Vec3i,
    pub attackable: Attackable,
    pub health: EntityHealth,
}

/// Build a crafting table.
pub fn spawn_craftingtable(parent_trans: Vec3i) -> (b: BlockBundle)
    ensures
        b == (BlockBundle {
            sprite_index: ItemTypes::CraftingTable.spec_sprite_index(),
            custom_size: Vec2i { x: BLOCK_SIZE, y: BLOCK_SIZE },
            pos: parent_trans,
            attackable: Attackable(TargetPriority::Low),
            health: EntityHealth { val: 500, func_destruct: DestructKind::DespawnRecursive },
        }),
{
    BlockBundle {
        sprite_index: ItemTypes::CraftingTable.sprite_index(),
        custom_size: Vec2i { x: BLOCK_SIZE, y: BLOCK_SIZE },
        pos: parent_trans,
        attackable: Attackable(TargetPriority::Low),
        health: EntityHealth { val: 500, func_destruct: DestructKind::DespawnRecursive },
    }
}

/// An electric fence: slows whatever comes near; not solid.
#[derive(Clone, Copy, PartialEq, Eq, Structural, Debug)]
pub struct FenceBundle {
    pub sprite_index: usize,
    pub custom_size: Vec2i,
    pub pos: Vec3i,
    pub health: EntityHealth,
    pub fence: Fence,
}

/// Build an electric fence.
pub fn spawn_fence(parent_trans: Vec3i) -> (b: FenceBundle)
    ensures
        b == (FenceBundle {
            sprite_index: ItemTypes::Fence.spec_sprite_index(),
            custom_size: Vec2i { x: BLOCK_SIZE, y: BLOCK_SIZE },
            pos: parent_trans,
            health: EntityHealth { val: 5000, func_destruct: DestructKind::DespawnRecursive },
            fence: Fence,
        }),
{
    FenceBundle {
        sprite_index: ItemTypes::Fence.sprite_index(),
        custom_size: Vec2i { x: BLOCK_SIZE, y: BLOCK_SIZE },
        pos: parent_trans,
        health: EntityHealth { val: 5000, func_destruct: DestructKind::DespawnRecursive },
        fence: Fence,
    }
}

/// A solid block: static, collides, can be attacked.
#[derive(Clone, Copy, PartialEq, Eq, Structural, Debug)]
pub struct SolidBlockBundle {
    pub sprite_index: usize,
    pub custom_size: Vec2i,
    pub pos: Vec3i,
    pub attackable: Attackable,
    pub health: EntityHealth,
    pub collider: BoxCollider,
}

/// Build a stone wall.
pub fn spawn_wall(spawn_pos: Vec3i) -> (b: SolidBlockBundle)
    ensures
        b == (SolidBlockBundle {
            sprite_index: ItemTypes::WallBlock.spec_sprite_index(),
            custom_size: Vec2i { x: BLOCK_SIZE, y: BLOCK_SIZE },
            pos: spawn_pos,
            attackable: Attackable(TargetPriority::Low),
            health: EntityHealth { val: 4000, func_destruct: DestructKind::DespawnRecursive },
            collider: BoxCollider { size: Vec2i { x: BLOCK_SIZE, y: BLOCK_SIZE } },
        }),
{
    SolidBlockBundle {
        sprite_index: ItemTypes::WallBlock.sprite_index(),
        custom_size: Vec2i { x: BLOCK_SIZE, y: BLOCK_SIZE },
        pos: spawn_pos,
        attackable: Attackable(TargetPriority::Low),
        health: EntityHealth { val: 4000, func_destruct: DestructKind::DespawnRecursive },
        collider: BoxCollider { size: Vec2i { x: BLOCK_SIZE, y: BLOCK_SIZE } },
    }
}

/// Build a wooden fence: a solid, weaker wall.
pub fn spawn_woodfence(spawn_trans: Vec3i) -> (b: SolidBlockBundle)
    ensures
        b == (SolidBlockBundle {
            sprite_index: ItemTypes::WoodFence.spec_sprite_index(),
            custom_size: Vec2i { x: BLOCK_SIZE, y: BLOCK_SIZE },
            pos: spawn_trans,
            attackable: Attackable(TargetPriority::Low),
            health: EntityHealth { val: 4000, func_destruct: DestructKind::DespawnRecursive },
            collider: BoxCollider { size: Vec2i { x: BLOCK_SIZE, y: BLOCK_SIZE } },
        }),
{
    SolidBlockBundle {
        sprite_index: ItemTypes::WoodFence.sprite_index(),
        custom_size: Vec2i { x: BLOCK_SIZE, y: BLOCK_SIZE },
        pos: spawn_trans,
        attackable: Attackable(TargetPriority::Low),
        health: EntityHealth { val: 4000, func_destruct: DestructKind::DespawnRecursive },
        collider: BoxCollider { size: Vec2i { x: BLOCK_SIZE, y: BLOCK_SIZE } },
    }
}

/// Growing wheat.
#[derive(Clone, Copy, PartialEq, Eq, Structural, Debug)]
pub struct WheatBundle {
    pub sprite_index: usize,
    pub custom_size: Vec2i,
    pub pos: Vec3i,
    pub attackable: Attackable,
    pub health: EntityHealth,
    pub wheat: Wheat,
}

/// Plant wheat: it ripens in 45-second steps.
pub fn spawn_wheat(parent_trans: Vec3i) -> (b: WheatBundle)
    ensures
        b == (WheatBundle {
            sprite_index: 17,
            custom_size: Vec2i { x: BLOCK_SIZE, y: BLOCK_SIZE },
            pos: parent_trans,
            attackable: Attackable(TargetPriority::Low),
            health: EntityHealth { val: 10, func_destruct: DestructKind::DespawnRecursive },
            wheat: Wheat {
                state: 0,
                timer: GameTimer {
                    elapsed_ms: 0,
                    duration_ms: 45_000,
                    repeating: true,
                    just_finished: false,
                },
            },
        }),
{
    WheatBundle {
        sprite_index: 17,
        custom_size: Vec2i { x: BLOCK_SIZE, y: BLOCK_SIZE },
        pos: parent_trans,
        attackable: Attackable(TargetPriority::Low),
        health: EntityHealth { val: 10, func_destruct: DestructKind::DespawnRecursive },
        wheat: Wheat { state: 0, timer: GameTimer::from_millis(45_000, true) },
    }
}

/// A wheat plant with its on-screen sprite.
#[derive(Clone, Copy, PartialEq, Eq, Structural, Debug)]
pub struct WheatPlant {
    pub wheat: Wheat,
    pub sprite_index: usize,
}

/// What one frame does to one plant: the ripening clock runs, and each time
/// it finishes before full ripeness the plant moves to the next sprite.
pub open spec fn wheat_step(p: WheatPlant, dt_ms: i64) -> WheatPlant {
    let t2 = p.wheat.timer.spec_tick(dt_ms);
    if t2.just_finished && p.wheat.state < 2 {
        WheatPlant {
            wheat: Wheat { state: (p.wheat.state + 1) as u8, timer: t2 },
            sprite_index: (p.sprite_index + 1) as usize,
        }
    } else {
        WheatPlant { wheat: Wheat { state: p.wheat.state, timer: t2 }, ..p }
    }
}

/// Ripen every wheat plant for one frame.
pub fn wheat_behaviour(plants: &mut Vec<WheatPlant>, dt_ms: i64)
    requires
        forall|i: int|
            0 <= i < old(plants)@.len() ==> (#[trigger] old(plants)@[i]).wheat.timer.wf() && old(
                plants,
            )@[i].sprite_index < 1000,
        0 <= dt_ms <= FRAME_MS_LIMIT,
    ensures
        final(plants)@.len() == old(plants)@.len(),
        forall|i: int|
            0 <= i < old(plants)@.len() ==> final(plants)@[i] == wheat_step(
                #[trigger] old(plants)@[i],
                dt_ms,
            ),
{
    let n = plants.len();
    let mut i: usize = 0;
    while i < n
        invariant
            0 <= i <= n,
            n == plants@.len(),
            0 <= dt_ms <= FRAME_MS_LIMIT,
            forall|j: int|
                0 <= j < n ==> (#[trigger] old(plants)@[j]).wheat.timer.wf() && old(
                    plants,
                )@[j].sprite_index < 1000,
            forall|j: int| i <= j < n ==> plants@[j] == #[trigger] old(plants)@[j],
            forall|j: int|
                0 <= j < i ==> plants@[j] == wheat_step(#[trigger] old(plants)@[j], dt_ms),
        decreases n - i,
    {
        let mut p = plants[i];
        proof {
            assert(p == old(plants)@[i as int]);
        }
        p.wheat.timer.tick(dt_ms);
        if p.wheat.timer.just_finished && p.wheat.state < 2 {
            p.sprite_index = p.sprite_index + 1;
            p.wheat.state = p.wheat.state + 1;
        }
        plants.set(i, p);
        i = i + 1;
    }
}

/// A windmill: a static powered structure with a spinning blade child.
#[derive(Clone, Copy, PartialEq, Eq, Structural, Debug)]
pub struct WindmillBundle {
    pub sprite_index: usize,
    pub custom_size: Vec2i,
    pub pos: Vec3i,
    pub attackable: Attackable,
    pub collider: BoxCollider,
    pub health: EntityHealth,
    pub blade_sprite_index: usize,
    /// The blade hangs slightly above the structure, as a child transform.
    pub blade_offset: Vec3i,
}

/// Build a windmill with its blade.
pub fn spawn_windmill(parent_trans: Vec3i) -> (b: WindmillBundle)
    ensures
        b == (WindmillBundle {
            sprite_index: 15,
            custom_size: Vec2i { x: BLOCK_SIZE, y: BLOCK_SIZE },
            pos: parent_trans,
            attackable: Attackable(TargetPriority::Low),
            collider: BoxCollider { size: Vec2i { x: BLOCK_SIZE, y: BLOCK_SIZE } },
            health: EntityHealth { val: 2000, func_destruct: DestructKind::DespawnRecursive },
            blade_sprite_index: 16,
            blade_offset: Vec3i { x: 0, y: 50, z: 60 },
        }),
{
    WindmillBundle {
        sprite_index: 15,
        custom_size: Vec2i { x: BLOCK_SIZE, y: BLOCK_SIZE },
        pos: parent_trans,
        attackable: Attackable(TargetPriority::Low),
        collider: BoxCollider { size: Vec2i { x: BLOCK_SIZE, y: BLOCK_SIZE } },
        health: EntityHealth { val: 2000, func_destruct: DestructKind::DespawnRecursive },
        blade_sprite_index: 16,
        blade_offset: Vec3i { x: 0, y: 50, z: 60 },
    }
}

/// Turn every blade for one frame: the blades rotate clockwise about the
/// screen axis, so each angle falls by the rotation speed times the frame.
pub fn windmill_behaviour(blade_angles_mrad: &mut Vec<i64>, dt_ms: i64)
    requires
        forall|i: int|
            0 <= i < old(blade_angles_mrad)@.len() ==> -1_000_000_000_000 <= #[trigger] old(
                blade_angles_mrad,
            )@[i] <= 1_000_000_000_000,
        0 <= dt_ms <= FRAME_MS_LIMIT,
    ensures
        final(blade_angles_mrad)@.len() == old(blade_angles_mrad)@.len(),
        forall|i: int|
            0 <= i < old(blade_angles_mrad)@.len() ==> final(blade_angles_mrad)@[i]
                == #[trigger] old(blade_angles_mrad)@[i] - crate::geom::tdiv(
                ROT_SPEED_MRAD * dt_ms,
                1000,
            ),
{
    let n = blade_angles_mrad.len();
    let delta = crate::geom::div_t(ROT_SPEED_MRAD * dt_ms, 1000);
    proof {
        crate::geom::lemma_tdiv_bound((ROT_SPEED_MRAD * dt_ms) as int, 1000, 942_000);
    }
    let mut i: usize = 0;
    while i < n
        invariant
            0 <= i <= n,
            n == blade_angles_mrad@.len(),
            -1000 <= delta <= 1000,
            delta == crate::geom::tdiv(ROT_SPEED_MRAD * dt_ms, 1000),
            forall|j: int|
                0 <= j < n ==> -1_000_000_000_000 <= #[trigger] old(blade_angles_mrad)@[j]
                    <= 1_000_000_000_000,
            forall|j: int|
                i <= j < n ==> blade_angles_mrad@[j] == #[trigger] old(blade_angles_mrad)@[j],
            forall|j: int|
                0 <= j < i ==> blade_angles_mrad@[j] == #[trigger] old(blade_angles_mrad)@[j]
                    - delta,
        decreases n - i,
    {
        let a = blade_angles_mrad[i];
        proof {
            assert(a == old(blade_angles_mrad)@[i as int]);
        }
        blade_angles_mrad.set(i, a - delta);
        i = i + 1;
    }
}

/// What a spent windmill does: it despawns together with its blade.
pub fn windmill_destruct(entity: u64) -> (r: DespawnAction)
    ensures
        r == (DespawnAction { entity, recursive: true }),
{
    DespawnAction { entity, recursive: true }
}

/// A mining rig: a powered block that periodically drops ore.
#[derive(Clone, Copy, PartialEq, Eq, Structural, Debug)]
pub struct MiningRigBundle {
    pub sprite_index: usize,
    pub custom_size: Vec2i,
    pub pos: Vec3i,
    pub rig: MiningRig,
    pub attackable: Attackable,
    pub health: EntityHealth,
    pub collider: BoxCollider,
}

/// Build a mining rig: it mines one item every 55 seconds while powered.
pub fn spawn_miningrig(spawn_pos: Vec3i) -> (b: MiningRigBundle)
    ensures
        b == (MiningRigBundle {
            sprite_index: ItemTypes::MiningRig.spec_sprite_index(),
            custom_size: Vec2i { x: BLOCK_SIZE, y: BLOCK_SIZE },
            pos: spawn_pos,
            rig: MiningRig(
                GameTimer {
                    elapsed_ms: 0,
                    duration_ms: 55_000,
                    repeating: true,
                    just_finished: false,
                },
            ),
            attackable: Attackable(TargetPriority::Medium),
            health: EntityHealth { val: 10_000, func_destruct: DestructKind::DespawnRecursive },
            collider: BoxCollider { size: Vec2i { x: BLOCK_SIZE, y: BLOCK_SIZE } },
        }),
{
    MiningRigBundle {
        sprite_index: ItemTypes::MiningRig.sprite_index(),
        custom_size: Vec2i { x: BLOCK_SIZE, y: BLOCK_SIZE },
        pos: spawn_pos,
        rig: MiningRig(GameTimer::from_millis(55_000, true)),
        attackable: Attackable(TargetPriority::Medium),
        health: EntityHealth { val: 10_000, func_destruct: DestructKind::DespawnRecursive },
        collider: BoxCollider { size: Vec2i { x: BLOCK_SIZE, y: BLOCK_SIZE } },
    }
}

/// An entity the fences slow down.
#[derive(Clone, Copy, PartialEq, Eq, Structural, Debug)]
pub struct FencedBody {
    pub pos: Vec3i,
    pub rb: Rigidbody,
}

/// Some fence stands within 20 pixels.
pub open spec fn near_fence(pos: Vec3i, fences: Seq<Vec3i>) -> bool {
    exists|i: int|
        0 <= i < fences.len() && dist_sq(pos, fences[i]) < crate::zombie::SIGHT_WIDTH
            * crate::zombie::SIGHT_WIDTH
}

/// Slow everything near an electric fence to a crawl.
pub fn fence_behaviour(bodies: &mut Vec<FencedBody>, fences: &Vec<Vec3i>)
    requires
        forall|i: int| 0 <= i < old(bodies)@.len() ==> (#[trigger] old(bodies)@[i]).pos.in_world(),
        forall|i: int| 0 <= i < fences@.len() ==> (#[trigger] fences@[i]).in_world(),
    ensures
        final(bodies)@.len() == old(bodies)@.len(),
        forall|i: int|
            0 <= i < old(bodies)@.len() ==> final(bodies)@[i] == ({
                let o = #[trigger] old(bodies)@[i];
                if near_fence(o.pos, fences@) {
                    FencedBody {
                        rb: Rigidbody {
                            vx: spec_clamp(
                                o.rb.vx as int,
                                -FENCE_SPEED as int,
                                FENCE_SPEED as int,
                            ) as i64,
                            vy: spec_clamp(
                                o.rb.vy as int,
                                -FENCE_SPEED as int,
                                FENCE_SPEED as int,
                            ) as i64,
                            ..o.rb
                        },
                        ..o
                    }
                } else {
                    o
                }
            }),
{
    let n = bodies.len();
    let nf = fences.len();
    let mut i: usize = 0;
    while i < n
        invariant
            0 <= i <= n,
            n == bodies@.len(),
            nf == fences@.len(),
            forall|j: int| 0 <= j < n ==> (#[trigger] old(bodies)@[j]).pos.in_world(),
            forall|j: int| 0 <= j < nf ==> (#[trigger] fences@[j]).in_world(),
            forall|j: int| i <= j < n ==> bodies@[j] == #[trigger] old(bodies)@[j],
            forall|j: int|
                0 <= j < i ==> bodies@[j] == ({
                    let o = #[trigger] old(bodies)@[j];
                    if near_fence(o.pos, fences@) {
                        FencedBody {
                            rb: Rigidbody {
                                vx: spec_clamp(
                                    o.rb.vx as int,
                                    -FENCE_SPEED as int,
                                    FENCE_SPEED as int,
                                ) as i64,
                                vy: spec_clamp(
                                    o.rb.vy as int,
                                    -FENCE_SPEED as int,
                                    FENCE_SPEED as int,
                                ) as i64,
                                ..o.rb
                            },
                            ..o
                        }
                    } else {
                        o
                    }
                }),
        decreases n - i,
    {
        let mut b = bodies[i];
        proof {
            assert(b == old(bodies)@[i as int]);
        }
        let ghost b0 = b;
        let mut j: usize = 0;
        let mut near: bool = false;
        while j < nf
            invariant
                0 <= j <= nf,
                nf == fences@.len(),
                b0.pos.in_world(),
                forall|k: int| 0 <= k < nf ==> (#[trigger] fences@[k]).in_world(),
                near == exists|k: int|
                    0 <= k < j && dist_sq(b0.pos, fences@[k]) < crate::zombie::SIGHT_WIDTH
                        * crate::zombie::SIGHT_WIDTH,
                b == (if near {
                    FencedBody {
                        rb: Rigidbody {
                            vx: spec_clamp(
                                b0.rb.vx as int,
                                -FENCE_SPEED as int,
                                FENCE_SPEED as int,
                            ) as i64,
                            vy: spec_clamp(
                                b0.rb.vy as int,
                                -FENCE_SPEED as int,
                                FENCE_SPEED as int,
                            ) as i64,
                            ..b0.rb
                        },
                        ..b0
                    }
                } else {
                    b0
                }),
            decreases nf - j,
        {
            let f = fences[j];
            let d = crate::geom::dist_sq_i128(b.pos, f);
            if d < (crate::zombie::SIGHT_WIDTH * crate::zombie::SIGHT_WIDTH) as i128 {
                b.rb.vx = crate::geom::clamp_i64(b.rb.vx, -FENCE_SPEED, FENCE_SPEED);
                b.rb.vy = crate::geom::clamp_i64(b.rb.vy, -FENCE_SPEED, FENCE_SPEED);
                near = true;
            }
            j = j + 1;
        }
        proof {
            if near {
                assert(near_fence(b0.pos, fences@));
            } else {
                assert(!near_fence(b0.pos, fences@));
            }
        }
        bodies.set(i, b);
        i = i + 1;
    }
}

/// A mining rig standing in the world.
#[derive(Clone, Copy, PartialEq, Eq, Structural, Debug)]
pub struct RigUnit {
    pub pos: Vec3i,
    pub rig: MiningRig,
}

/// Some windmill reaches the rig (the rig accepts the radius itself).
pub open spec fn rig_powered(pos: Vec3i, windmills: Seq<Vec3i>) -> bool {
    exists|i: int| 0 <= i < windmills.len() && dist_sq(pos, windmills[i]) <= POWER_RADIUS_SQ
}

/// What one frame does to one rig: its clock runs only while powered.
pub open spec fn rig_step(r: RigUnit, windmills: Seq<Vec3i>, dt_ms: i64) -> RigUnit {
    if rig_powered(r.pos, windmills) {
        RigUnit { rig: MiningRig(r.rig.0.spec_tick(dt_ms)), ..r }
    } else {
        r
    }
}

/// The rig mines an item this frame.
pub open spec fn rig_fires(r: RigUnit, windmills: Seq<Vec3i>, dt_ms: i64) -> bool {
    rig_powered(r.pos, windmills) && r.rig.0.spec_tick(dt_ms).just_finished
}

/// Run every rig's clock and mine: each powered rig whose clock finishes
/// drops one piece of ore — iron or coal — within 40 pixels of itself.
pub fn miningrig_behaviour(
    rigs: &mut Vec<RigUnit>,
    windmills: &Vec<Vec3i>,
    dt_ms: i64,
) -> (drops: Vec<Option<crate::entities::DroppedSpawn>>)
    requires
        forall|i: int|
            0 <= i < old(rigs)@.len() ==> (#[trigger] old(rigs)@[i]).pos.in_world() && old(
                rigs,
            )@[i].rig.0.wf(),
        forall|i: int| 0 <= i < windmills@.len() ==> (#[trigger] windmills@[i]).in_world(),
        0 <= dt_ms <= FRAME_MS_LIMIT,
    ensures
        final(rigs)@.len() == old(rigs)@.len(),
        forall|i: int|
            0 <= i < old(rigs)@.len() ==> final(rigs)@[i] == rig_step(
                #[trigger] old(rigs)@[i],
                windmills@,
                dt_ms,
            ),
        drops@.len() == old(rigs)@.len(),
        forall|i: int|
            0 <= i < old(rigs)@.len() ==> ((#[trigger] drops@[i]) is Some <==> rig_fires(
                old(rigs)@[i],
                windmills@,
                dt_ms,
            )),
        forall|i: int|
            0 <= i < old(rigs)@.len() && (#[trigger] drops@[i]) is Some ==> {
                let d = drops@[i]->Some_0;
                &&& (d.item.item_type == ItemTypes::IronIngot || d.item.item_type
                    == ItemTypes::Coal)
                &&& d.item.quantity == 1
                &&& d.sprite_index == d.item.item_type.spec_sprite_index()
                &&& dist_sq(d.pos, old(rigs)@[i].pos) <= 160_000
            },
{
    let n = rigs.len();
    let nw = windmills.len();
    let mut drops: Vec<Option<crate::entities::DroppedSpawn>> = Vec::new();
    let mut i: usize = 0;
    while i < n
        invariant
            0 <= i <= n,
            n == rigs@.len(),
            n == old(rigs)@.len(),
            nw == windmills@.len(),
            0 <= dt_ms <= FRAME_MS_LIMIT,
            forall|j: int|
                0 <= j < n ==> (#[trigger] old(rigs)@[j]).pos.in_world() && old(
                    rigs,
                )@[j].rig.0.wf(),
            forall|j: int| 0 <= j < nw ==> (#[trigger] windmills@[j]).in_world(),
            forall|j: int| i <= j < n ==> rigs@[j] == #[trigger] old(rigs)@[j],
            forall|j: int|
                0 <= j < i ==> rigs@[j] == rig_step(#[trigger] old(rigs)@[j], windmills@, dt_ms),
            drops@.len() == i,
            forall|j: int|
                0 <= j < i ==> ((#[trigger] drops@[j]) is Some <==> rig_fires(
                    old(rigs)@[j],
                    windmills@,
                    dt_ms,
                )),
            forall|j: int|
                0 <= j < i && (#[trigger] drops@[j]) is Some ==> {
                    let d = drops@[j]->Some_0;
                    &&& (d.item.item_type == ItemTypes::IronIngot || d.item.item_type
                        == ItemTypes::Coal)
                    &&& d.item.quantity == 1
                    &&& d.sprite_index == d.item.item_type.spec_sprite_index()
                    &&& dist_sq(d.pos, old(rigs)@[j].pos) <= 160_000
                },
        decreases n - i,
    {
        let mut r = rigs[i];
        proof {
            assert(r == old(rigs)@[i as int]);
        }
        let mut powered: bool = false;
        let mut w: usize = 0;
        while w < nw
            invariant
                0 <= w <= nw,
                nw == windmills@.len(),
                r.pos.in_world(),
                forall|k: int| 0 <= k < nw ==> (#[trigger] windmills@[k]).in_world(),
                powered ==> rig_powered(r.pos, windmills@),
                !powered ==> forall|k: int|
                    0 <= k < w ==> dist_sq(r.pos, windmills@[k]) > POWER_RADIUS_SQ,
                powered ==> w == nw,
            decreases nw - w,
        {
            let d = crate::geom::dist_sq_i128(r.pos, windmills[w]);
            if d <= POWER_RADIUS_SQ as i128 {
                powered = true;
                w = nw;
            } else {
                w = w + 1;
            }
        }
        proof {
            if !powered {
                assert(!rig_powered(r.pos, windmills@));
            }
        }
        let mut mined: Option<crate::entities::DroppedSpawn> = None;
        if powered {
            r.rig.0.tick(dt_ms);
            if r.rig.0.just_finished {
                let ox = crate::rng::random_in(-282, 283);
                let oy = crate::rng::random_in(-282, 283);
                let kind = crate::rng::random_in(0, 2);
                let item = Item {
                    item_type: if kind == 0 {
                        ItemTypes::IronIngot
                    } else {
                        ItemTypes::Coal
                    },
                    quantity: 1,
                };
                let drop_pos = Vec3i { x: r.pos.x + ox, y: r.pos.y + oy, z: r.pos.z };
                let d = crate::entities::spawn_dropped(drop_pos, 1000, item);
                proof {
                    let ghost rp = r.pos;
                    assert(dist_sq(drop_pos, rp) <= 160_000) by (nonlinear_arith)
                        requires
                            -282 <= ox <= 282,
                            -282 <= oy <= 282,
                            drop_pos.x == rp.x + ox,
                            drop_pos.y == rp.y + oy,
                            drop_pos.z == rp.z,
                            dist_sq(drop_pos, rp) == (rp.x - drop_pos.x) * (rp.x - drop_pos.x) + (
                            rp.y - drop_pos.y) * (rp.y - drop_pos.y) + (rp.z - drop_pos.z) * (rp.z
                                - drop_pos.z),
                    ;
                    assert(rp == old(rigs)@[i as int].pos);
                }
                mined = Some(d);
            }
        }
        drops.push(mined);
        rigs.set(i, r);
        i = i + 1;
    }
    drops
}

/// A tripmine lying in wait.
#[derive(Clone, Copy, PartialEq, Eq, Structural, Debug)]
pub struct MineUnit {
    pub id: u64,
    pub pos: Vec3i,
}

/// A mine plus its marker components, as built.
#[derive(Clone, Copy, PartialEq, Eq, Structural, Debug)]
pub struct TripMineBundle {
    pub sprite_index: usize,
    pub custom_size: Vec2i,
    pub pos: Vec3i,
}

/// Build a tripmine: a static trap.
pub fn spawn_tripmine(parent_trans: Vec3i) -> (b: TripMineBundle)
    ensures
        b == (TripMineBundle {
            sprite_index: 12,
            custom_size: Vec2i { x: BLOCK_SIZE, y: BLOCK_SIZE },
            pos: parent_trans,
        }),
{
    TripMineBundle {
        sprite_index: 12,
        custom_size: Vec2i { x: BLOCK_SIZE, y: BLOCK_SIZE },
        pos: parent_trans,
    }
}

/// A blast in progress.
#[derive(Clone, Copy, PartialEq, Eq, Structural, Debug)]
pub struct ExplosionSpawn {
    pub sprite_index: usize,
    pub custom_size: Vec2i,
    pub pos: Vec3i,
    /// Sprite scale in thousandths; the blast starts four times life size.
    pub scale_milli: i64,
    pub timer: GameTimer,
}

/// The blast a mine leaves: a half-second, shrinking fireball.
pub open spec fn explosion_spawn(pos: Vec3i) -> ExplosionSpawn {
    ExplosionSpawn {
        sprite_index: 13,
        custom_size: Vec2i { x: BLOCK_SIZE, y: BLOCK_SIZE },
        pos,
        scale_milli: 4000,
        timer: GameTimer {
            elapsed_ms: 0,
            duration_ms: 500,
            repeating: false,
            just_finished: false,
        },
    }
}

/// Build the blast where a mine went off.
pub fn spawn_explosion(parent_trans: Vec3i) -> (e: ExplosionSpawn)
    ensures
        e == explosion_spawn(parent_trans),
{
    ExplosionSpawn {
        sprite_index: 13,
        custom_size: Vec2i { x: BLOCK_SIZE, y: BLOCK_SIZE },
        pos: parent_trans,
        scale_milli: 4000,
        timer: GameTimer::from_millis(500, false),
    }
}

/// A mine goes off when a zombie steps within 20 pixels.
pub open spec fn mine_triggered(m: MineUnit, zombies: Seq<Vec3i>) -> bool {
    exists|z: int| 0 <= z < zombies.len() && dist_sq(m.pos, zombies[z]) < 40_000
}

/// The despawns among the first `n` mines that go off.
pub open spec fn detonations_upto(mines: Seq<MineUnit>, zombies: Seq<Vec3i>, n: int) -> Seq<
    crate::components::DespawnAction,
>
    decreases n,
{
    if n <= 0 {
        Seq::empty()
    } else {
        let prev = detonations_upto(mines, zombies, n - 1);
        if mine_triggered(mines[n - 1], zombies) {
            prev + seq![DespawnAction { entity: mines[n - 1].id, recursive: false }]
        } else {
            prev
        }
    }
}

/// The blasts the first `n` mines leave.
pub open spec fn blasts_upto(mines: Seq<MineUnit>, zombies: Seq<Vec3i>, n: int) -> Seq<
    ExplosionSpawn,
>
    decreases n,
{
    if n <= 0 {
        Seq::empty()
    } else {
        let prev = blasts_upto(mines, zombies, n - 1);
        if mine_triggered(mines[n - 1], zombies) {
            prev + seq![explosion_spawn(mines[n - 1].pos)]
        } else {
            prev
        }
    }
}

/// Set off every mine a zombie has stepped on: the mine despawns and a
/// blast takes its place.
pub fn tripmine_detonator(mines: &Vec<MineUnit>, zombies: &Vec<Vec3i>) -> (r: (
    Vec<DespawnAction>,
    Vec<ExplosionSpawn>,
))
    requires
        forall|i: int| 0 <= i < mines@.len() ==> (#[trigger] mines@[i]).pos.in_world(),
        forall|i: int| 0 <= i < zombies@.len() ==> (#[trigger] zombies@[i]).in_world(),
    ensures
        r.0@ == detonations_upto(mines@, zombies@, mines@.len() as int),
        r.1@ == blasts_upto(mines@, zombies@, mines@.len() as int),
{
    let n = mines.len();
    let nz = zombies.len();
    let mut despawns: Vec<DespawnAction> = Vec::new();
    let mut blasts: Vec<ExplosionSpawn> = Vec::new();
    let mut i: usize = 0;
    while i < n
        invariant
            0 <= i <= n,
            n == mines@.len(),
            nz == zombies@.len(),
            forall|j: int| 0 <= j < n ==> (#[trigger] mines@[j]).pos.in_world(),
            forall|j: int| 0 <= j < nz ==> (#[trigger] zombies@[j]).in_world(),
            despawns@ == detonations_upto(mines@, zombies@, i as int),
            blasts@ == blasts_upto(mines@, zombies@, i as int),
        decreases n - i,
    {
        let m = mines[i];
        let mut hit: bool = false;
        let mut z: usize = 0;
        while z < nz
            invariant
                0 <= z <= nz,
                nz == zombies@.len(),
                m.pos.in_world(),
                forall|k: int| 0 <= k < nz ==> (#[trigger] zombies@[k]).in_world(),
                hit ==> mine_triggered(m, zombies@),
                !hit ==> forall|k: int| 0 <= k < z ==> dist_sq(m.pos, zombies@[k]) >= 40_000,
                hit ==> z == nz,
            decreases nz - z,
        {
            let d = crate::geom::dist_sq_i128(m.pos, zombies[z]);
            if d < 40_000 as i128 {
                hit = true;
                z = nz;
            } else {
                z = z + 1;
            }
        }
        if hit {
            despawns.push(DespawnAction { entity: m.id, recursive: false });
            let b = spawn_explosion(m.pos);
            blasts.push(b);
        } else {
            proof {
                assert(!mine_triggered(m, zombies@));
            }
        }
        i = i + 1;
    }
    (despawns, blasts)
}

/// A blast in flight, as the per-frame rule sees it.
#[derive(Clone, Copy, PartialEq, Eq, Structural, Debug)]
pub struct ExplosionUnit {
    pub id: u64,
    pub pos: Vec3i,
    pub scale_milli: i64,
    pub timer: GameTimer,
}

/// How many of the first `k` blasts reach the point.
pub open spec fn blast_count(explosions: Seq<ExplosionUnit>, tpos: Vec3i, k: int) -> int
    decreases k,
{
    if k <= 0 {
        0
    } else {
        blast_count(explosions, tpos, k - 1) + (if dist_sq(explosions[k - 1].pos, tpos)
            <= 1_000_000 {
            1int
        } else {
            0int
        })
    }
}

/// The despawns among the first `k` blasts whose clocks finish this frame.
pub open spec fn blast_despawns_upto(
    explosions: Seq<ExplosionUnit>,
    dt_ms: i64,
    k: int,
) -> Seq<DespawnAction>
    decreases k,
{
    if k <= 0 {
        Seq::empty()
    } else {
        let prev = blast_despawns_upto(explosions, dt_ms, k - 1);
        if explosions[k - 1].timer.spec_tick(dt_ms).just_finished {
            prev + seq![DespawnAction { entity: explosions[k - 1].id, recursive: false }]
        } else {
            prev
        }
    }
}

/// One frame of every blast: entities within 100 pixels of a blast burn for
/// 20 points a second per blast; each blast keeps 85 percent of its scale,
/// and despawns when its half second is up.
pub fn explosion_behaviour(
    explosions: &mut Vec<ExplosionUnit>,
    targets: &mut Vec<crate::zombie::HealthTarget>,
    dt_ms: i64,
) -> (despawns: Vec<DespawnAction>)
    requires
        forall|i: int|
            0 <= i < old(explosions)@.len() ==> (#[trigger] old(explosions)@[i]).pos.in_world()
                && old(explosions)@[i].timer.wf() && 0 <= old(explosions)@[i].scale_milli
                <= 1_000_000,
        forall|j: int|
            0 <= j < old(targets)@.len() ==> (#[trigger] old(targets)@[j]).pos.in_world()
                && -crate::components::HEALTH_CAP <= old(targets)@[j].health.val
                <= crate::components::HEALTH_CAP,
        old(explosions)@.len() <= 1000,
        0 <= dt_ms <= FRAME_MS_LIMIT,
    ensures
        final(explosions)@.len() == old(explosions)@.len(),
        forall|i: int|
            0 <= i < old(explosions)@.len() ==> final(explosions)@[i] == (ExplosionUnit {
                scale_milli: crate::geom::tdiv(
                    (#[trigger] old(explosions)@[i]).scale_milli as int * 850,
                    1000,
                ) as i64,
                timer: old(explosions)@[i].timer.spec_tick(dt_ms),
                ..old(explosions)@[i]
            }),
        final(targets)@.len() == old(targets)@.len(),
        forall|j: int|
            0 <= j < old(targets)@.len() ==> final(targets)@[j] == (crate::zombie::HealthTarget {
                health: crate::components::EntityHealth {
                    val: ((#[trigger] old(targets)@[j]).health.val - 2 * dt_ms * blast_count(
                        old(explosions)@,
                        old(targets)@[j].pos,
                        old(explosions)@.len() as int,
                    )) as i64,
                    ..old(targets)@[j].health
                },
                ..old(targets)@[j]
            }),
        despawns@ == blast_despawns_upto(old(explosions)@, dt_ms, old(explosions)@.len() as int),
{
    let n = explosions.len();
    let nt = targets.len();
    let mut despawns: Vec<DespawnAction> = Vec::new();
    let mut i: usize = 0;
    while i < n
        invariant
            0 <= i <= n,
            n == explosions@.len(),
            n == old(explosions)@.len(),
            n <= 1000,
            nt == targets@.len(),
            nt == old(targets)@.len(),
            0 <= dt_ms <= FRAME_MS_LIMIT,
            forall|j: int|
                0 <= j < n ==> (#[trigger] old(explosions)@[j]).pos.in_world() && old(
                    explosions,
                )@[j].timer.wf() && 0 <= old(explosions)@[j].scale_milli <= 1_000_000,
            forall|j: int|
                0 <= j < nt ==> (#[trigger] old(targets)@[j]).pos.in_world()
                    && -crate::components::HEALTH_CAP <= old(targets)@[j].health.val
                    <= crate::components::HEALTH_CAP,
            forall|j: int| i <= j < n ==> explosions@[j] == #[trigger] old(explosions)@[j],
            forall|j: int|
                0 <= j < i ==> explosions@[j] == (ExplosionUnit {
                    scale_milli: crate::geom::tdiv(
                        (#[trigger] old(explosions)@[j]).scale_milli as int * 850,
                        1000,
                    ) as i64,
                    timer: old(explosions)@[j].timer.spec_tick(dt_ms),
                    ..old(explosions)@[j]
                }),
            forall|j: int|
                0 <= j < nt ==> (#[trigger] targets@[j]) == (crate::zombie::HealthTarget {
                    health: crate::components::EntityHealth {
                        val: (old(targets)@[j].health.val - 2 * dt_ms * blast_count(
                            old(explosions)@,
                            old(targets)@[j].pos,
                            i as int,
                        )) as i64,
                        ..old(targets)@[j].health
                    },
                    ..old(targets)@[j]
                }),
            despawns@ == blast_despawns_upto(old(explosions)@, dt_ms, i as int),
        decreases n - i,
    {
        let mut ex = explosions[i];
        proof {
            assert(ex == old(explosions)@[i as int]);
        }
        let mut j: usize = 0;
        while j < nt
            invariant
                0 <= j <= nt,
                nt == targets@.len(),
                nt == old(targets)@.len(),
                0 <= i < n,
                n == old(explosions)@.len(),
                n <= 1000,
                0 <= dt_ms <= FRAME_MS_LIMIT,
                ex == old(explosions)@[i as int],
                ex.pos.in_world(),
                forall|k: int|
                    0 <= k < nt ==> (#[trigger] old(targets)@[k]).pos.in_world()
                        && -crate::components::HEALTH_CAP <= old(targets)@[k].health.val
                        <= crate::components::HEALTH_CAP,
                forall|k: int|
                    0 <= k < j ==> (#[trigger] targets@[k]) == (crate::zombie::HealthTarget {
                        health: crate::components::EntityHealth {
                            val: (old(targets)@[k].health.val - 2 * dt_ms * blast_count(
                                old(explosions)@,
                                old(targets)@[k].pos,
                                i + 1,
                            )) as i64,
                            ..old(targets)@[k].health
                        },
                        ..old(targets)@[k]
                    }),
                forall|k: int|
                    j <= k < nt ==> (#[trigger] targets@[k]) == (crate::zombie::HealthTarget {
                        health: crate::components::EntityHealth {
                            val: (old(targets)@[k].health.val - 2 * dt_ms * blast_count(
                                old(explosions)@,
                                old(targets)@[k].pos,
                                i as int,
                            )) as i64,
                            ..old(targets)@[k].health
                        },
                        ..old(targets)@[k]
                    }),
            decreases nt - j,
        {
            let t = targets[j];
            proof {
                let tpos = old(targets)@[j as int].pos;
                lemma_blast_count_bound(old(explosions)@, tpos, i as int);
                lemma_blast_count_bound(old(explosions)@, tpos, i + 1);
                crate::geom::lemma_mul_abs_bound(
                    2 * (dt_ms as int),
                    blast_count(old(explosions)@, tpos, i as int),
                    400,
                    1000,
                );
                if dist_sq(old(explosions)@[i as int].pos, tpos) <= 1_000_000 {
                    assert(blast_count(old(explosions)@, tpos, i + 1) == blast_count(
                        old(explosions)@,
                        tpos,
                        i as int,
                    ) + 1);
                } else {
                    assert(blast_count(old(explosions)@, tpos, i + 1) == blast_count(
                        old(explosions)@,
                        tpos,
                        i as int,
                    ));
                }
                let ci = blast_count(old(explosions)@, tpos, i as int);
                assert(2 * (dt_ms as int) * (ci + 1) == 2 * (dt_ms as int) * ci + 2 * (
                dt_ms as int)) by (nonlinear_arith);
                let ov = old(targets)@[j as int].health.val as int;
                assert(-crate::components::HEALTH_CAP - 400_000 <= ov - 2 * (dt_ms as int) * ci
                    <= crate::components::HEALTH_CAP + 400_000);
            }
            let d = crate::geom::dist_sq_i128(ex.pos, t.pos);
            if d <= 1_000_000 as i128 {
                let newval = t.health.val - 2 * dt_ms;
                targets.set(
                    j,
                    crate::zombie::HealthTarget {
                        health: crate::components::EntityHealth {
                            val: newval,
                            ..t.health
                        },
                        ..t
                    },
                );
            }
            j = j + 1;
        }
        proof {
            crate::geom::lemma_mul_abs_bound(ex.scale_milli as int, 850, 1_000_000, 850);
            crate::geom::lemma_tdiv_bound(ex.scale_milli as int * 850, 1000, 850_000_000);
        }
        ex.scale_milli = crate::geom::div_t(ex.scale_milli * 850, 1000);
        ex.timer.tick(dt_ms);
        if ex.timer.just_finished {
            despawns.push(DespawnAction { entity: ex.id, recursive: false });
        }
        explosions.set(i, ex);
        i = i + 1;
    }
    despawns
}

/// At most one point of blast count per blast.
proof fn lemma_blast_count_bound(explosions: Seq<ExplosionUnit>, tpos: Vec3i, k: int)
    requires
        0 <= k <= explosions.len(),
    ensures
        0 <= blast_count(explosions, tpos, k) <= k,
    decreases k,
{
    if k > 0 {
        lemma_blast_count_bound(explosions, tpos, k - 1);
    }
}

} // verus!
