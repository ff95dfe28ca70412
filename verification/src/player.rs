//! The player: starting loadout, health bar, item pickup and the keyboard.

use vstd::prelude::*;

use crate::components::AppState;
use crate::components::Attackable;
use crate::components::BlockSelection;
use crate::components::BoxCollider;
use crate::components::ChestInteractEvent;
use crate::components::DespawnAction;
use crate::components::DestructKind;
use crate::components::EntityHealth;
use crate::components::HEALTH_CAP;
use crate::components::InteractableEntity;
use crate::components::InteractionType;
use crate::components::Magazine;
use crate::components::ReloadTimer;
use crate::components::Rigidbody;
use crate::components::TargetPriority;
use crate::geom::Vec2i;
use crate::geom::Vec3i;
use crate::geom::dist_sq;
use crate::geom::spec_clamp;
use crate::items::InventoryItems;
use crate::items::Item;
use crate::items::ItemTypes;
use crate::items::add_item_spec;
use crate::items::first_index_of;
use crate::items::has_type;
use crate::physics::FRAME_MS_LIMIT;
use crate::timer::GameTimer;

verus! {

/// Items are collected within 10 pixels, squared, in tenths.
pub const COLL_DIST_SQ: i64 = 10_000;

/// The player's top speed: 40 pixels per second, in tenths.
pub const MOVESPEED: i64 = 400;

/// Keyboard acceleration: 600 pixels per second squared, in tenths.
pub const PLAYER_ACC: i64 = 6_000;

/// Interactions reach 60 pixels, squared, in tenths.
pub const INTERACTION_DISTANCE_SQ: i64 = 360_000;

/// Everything the player starts with.
#[derive(Clone, Debug)]
pub struct PlayerBundle {
    pub sprite_index: usize,
    pub pos: Vec3i,
    pub rb: Rigidbody,
    pub reload: ReloadTimer,
    pub magazine: Magazine,
    pub attackable: Attackable,
    pub collider: BoxCollider,
    pub items: InventoryItems,
    pub health: EntityHealth,
}

/// A colour in thousandths of each channel.
#[derive(Clone, Copy, PartialEq, Eq, Structural, Debug)]
pub struct ColorMilli {
    pub r: i64,
    pub g: i64,
    pub b: i64,
}

/// The green bar that mirrors the player's health.
#[derive(Clone, Copy, PartialEq, Eq, Structural, Debug)]
pub struct HealthBarBundle {
    pub color_milli: ColorMilli,
    pub custom_size: Vec2i,
    pub pos: Vec3i,
}

/// The stacks the player's inventory starts with.
pub open spec fn starting_items() -> Seq<Item> {
    seq![
        Item { item_type: ItemTypes::WoodFence, quantity: 30 },
        Item { item_type: ItemTypes::TurretBlock, quantity: 30 },
        Item { item_type: ItemTypes::TripMine, quantity: 30 },
        Item { item_type: ItemTypes::Fence, quantity: 30 },
        Item { item_type: ItemTypes::WindMill, quantity: 30 },
        Item { item_type: ItemTypes::Wheat, quantity: 30 },
        Item { item_type: ItemTypes::MiningRig, quantity: 2 },
        Item { item_type: ItemTypes::CraftingTable, quantity: 2 },
        Item { item_type: ItemTypes::Chest, quantity: 2 },
    ]
}

/// Build the player at the origin with the starting loadout, and the
/// health bar beside the top left corner of the screen.
pub fn player_setup() -> (r: (PlayerBundle, HealthBarBundle))
    ensures
        r.0.sprite_index == 1,
        r.0.pos == (Vec3i { x: 0, y: 0, z: 50 }),
        r.0.rb == (Rigidbody { vx: 0, vy: 0, friction: true }),
        r.0.reload.0 == (GameTimer {
            elapsed_ms: 0,
            duration_ms: 2000,
            repeating: true,
            just_finished: false,
        }),
        r.0.magazine.0 == crate::weapons::MAGAZINE_SIZE,
        r.0.attackable == Attackable(TargetPriority::High),
        r.0.collider == (BoxCollider { size: Vec2i { x: 100, y: 100 } }),
        r.0.items@ =~= starting_items(),
        r.0.health == (EntityHealth { val: 1000, func_destruct: DestructKind::Nothing }),
        r.1 == (HealthBarBundle {
            color_milli: ColorMilli { r: 0, g: 1000, b: 0 },
            custom_size: Vec2i { x: 1000, y: 100 },
            pos: Vec3i { x: (-4000) as i64, y: 3000, z: 100 },
        }),
{
    let mut items = InventoryItems::new();
    items.items.push(Item { item_type: ItemTypes::WoodFence, quantity: 30 });
    items.items.push(Item { item_type: ItemTypes::TurretBlock, quantity: 30 });
    items.items.push(Item { item_type: ItemTypes::TripMine, quantity: 30 });
    items.items.push(Item { item_type: ItemTypes::Fence, quantity: 30 });
    items.items.push(Item { item_type: ItemTypes::WindMill, quantity: 30 });
    items.items.push(Item { item_type: ItemTypes::Wheat, quantity: 30 });
    items.items.push(Item { item_type: ItemTypes::MiningRig, quantity: 2 });
    items.items.push(Item { item_type: ItemTypes::CraftingTable, quantity: 2 });
    items.items.push(Item { item_type: ItemTypes::Chest, quantity: 2 });
    let player = PlayerBundle {
        sprite_index: 1,
        pos: Vec3i { x: 0, y: 0, z: 50 },
        rb: Rigidbody { vx: 0, vy: 0, friction: true },
        reload: ReloadTimer(GameTimer::from_millis(2000, true)),
        magazine: Magazine(crate::weapons::MAGAZINE_SIZE),
        attackable: Attackable(TargetPriority::High),
        collider: BoxCollider { size: Vec2i { x: 100, y: 100 } },
        items,
        health: EntityHealth { val: 1000, func_destruct: DestructKind::Nothing },
    };
    let bar = HealthBarBundle {
        color_milli: ColorMilli { r: 0, g: 1000, b: 0 },
        custom_size: Vec2i { x: 1000, y: 100 },
        pos: Vec3i { x: (-4000) as i64, y: 3000, z: 100 },
    };
    (player, bar)
}

/// How the health bar must look for a given health, and whether the game
/// ends: the bar's width is the health itself, its colour fades from green
/// to red as health falls, and spent health ends the game.
pub fn player_health(health_val: i64) -> (r: (HealthBarBundle, Option<AppState>))
    requires
        -HEALTH_CAP <= health_val <= HEALTH_CAP,
    ensures
        r.0.custom_size == (Vec2i { x: health_val, y: 100 }),
        r.0.color_milli == (ColorMilli { r: (1000 - health_val) as i64, g: health_val, b: 0 }),
        r.1 == (if health_val <= 0 {
            Some(AppState::GameDestruct)
        } else {
            None::<AppState>
        }),
        r.0.pos == (Vec3i { x: (-4000) as i64, y: 3000, z: 100 }),
{
    let bar = HealthBarBundle {
        color_milli: ColorMilli { r: 1000 - health_val, g: health_val, b: 0 },
        custom_size: Vec2i { x: health_val, y: 100 },
        pos: Vec3i { x: (-4000) as i64, y: 3000, z: 100 },
    };
    let state = if health_val <= 0 {
        Some(AppState::GameDestruct)
    } else {
        None
    };
    (bar, state)
}

/// A collectable item lying in the world.
#[derive(Clone, Copy, PartialEq, Eq, Structural, Debug)]
pub struct CollectEntry {
    pub id: u64,
    pub pos: Vec3i,
    pub item: Item,
}

/// The inventory after picking up the in-range part of the first `n` drops.
pub open spec fn collected_upto(
    inv0: Seq<Item>,
    player_pos: Vec3i,
    drops: Seq<CollectEntry>,
    n: int,
) -> Seq<Item>
    decreases n,
{
    if n <= 0 {
        inv0
    } else {
        let prev = collected_upto(inv0, player_pos, drops, n - 1);
        if dist_sq(player_pos, drops[n - 1].pos) <= COLL_DIST_SQ {
            add_item_spec(prev, drops[n - 1].item)
        } else {
            prev
        }
    }
}

/// The drops despawned while picking up the first `n`.
pub open spec fn collected_despawns_upto(
    player_pos: Vec3i,
    drops: Seq<CollectEntry>,
    n: int,
) -> Seq<DespawnAction>
    decreases n,
{
    if n <= 0 {
        Seq::empty()
    } else {
        let prev = collected_despawns_upto(player_pos, drops, n - 1);
        if dist_sq(player_pos, drops[n - 1].pos) <= COLL_DIST_SQ {
            prev + seq![DespawnAction { entity: drops[n - 1].id, recursive: false }]
        } else {
            prev
        }
    }
}

/// Each pickup along the way must have room: the inventory stays short of
/// its size limit and no stack it bumps is full.
pub open spec fn collect_ok(
    inv0: Seq<Item>,
    player_pos: Vec3i,
    drops: Seq<CollectEntry>,
    n: int,
) -> bool
    decreases n,
{
    if n <= 0 {
        true
    } else {
        let prev = collected_upto(inv0, player_pos, drops, n - 1);
        &&& collect_ok(inv0, player_pos, drops, n - 1)
        &&& (dist_sq(player_pos, drops[n - 1].pos) <= COLL_DIST_SQ ==> prev.len() < usize::MAX - 1
            && (has_type(prev, drops[n - 1].item.item_type) ==> prev[first_index_of(
            prev,
            drops[n - 1].item.item_type,
        )].quantity < i8::MAX))
    }
}

/// Pick up every collectable within reach, in order.
pub fn collect_items(
    player_pos: Vec3i,
    inv: &mut InventoryItems,
    drops: &Vec<CollectEntry>,
) -> (despawns: Vec<DespawnAction>)
    requires
        player_pos.in_world(),
        forall|i: int| 0 <= i < drops@.len() ==> (#[trigger] drops@[i]).pos.in_world(),
        collect_ok(old(inv)@, player_pos, drops@, drops@.len() as int),
    ensures
        final(inv)@ == collected_upto(old(inv)@, player_pos, drops@, drops@.len() as int),
        despawns@ == collected_despawns_upto(player_pos, drops@, drops@.len() as int),
{
    let n = drops.len();
    let mut despawns: Vec<DespawnAction> = Vec::new();
    let mut i: usize = 0;
    while i < n
        invariant
            0 <= i <= n,
            n == drops@.len(),
            player_pos.in_world(),
            forall|j: int| 0 <= j < n ==> (#[trigger] drops@[j]).pos.in_world(),
            collect_ok(old(inv)@, player_pos, drops@, n as int),
            inv@ == collected_upto(old(inv)@, player_pos, drops@, i as int),
            despawns@ == collected_despawns_upto(player_pos, drops@, i as int),
        decreases n - i,
    {
        let d = drops[i];
        let dsq = crate::geom::dist_sq_i128(player_pos, d.pos);
        if dsq <= COLL_DIST_SQ as i128 {
            proof {
                lemma_collect_ok_prefix(old(inv)@, player_pos, drops@, (i + 1) as int, n as int);
            }
            inv.add_item(d.item);
            despawns.push(DespawnAction { entity: d.id, recursive: false });
        }
        i = i + 1;
    }
    despawns
}

/// Collect permission for a prefix follows from permission for the whole.
proof fn lemma_collect_ok_prefix(
    inv0: Seq<Item>,
    player_pos: Vec3i,
    drops: Seq<CollectEntry>,
    k: int,
    n: int,
)
    requires
        0 <= k <= n <= drops.len(),
        collect_ok(inv0, player_pos, drops, n),
    ensures
        collect_ok(inv0, player_pos, drops, k),
    decreases n - k,
{
    if k < n {
        lemma_collect_ok_prefix(inv0, player_pos, drops, k + 1, n);
    }
}

/// Which keys the player worked this frame.
#[derive(Clone, Copy, PartialEq, Eq, Structural, Debug)]
pub struct KeyInput {
    pub pressed_d: bool,
    pub pressed_a: bool,
    pub pressed_w: bool,
    pub pressed_s: bool,
    pub just_key1: bool,
    pub just_key2: bool,
    pub just_key3: bool,
    pub just_key4: bool,
    pub just_key5: bool,
    pub just_key6: bool,
    pub just_key7: bool,
    pub just_key8: bool,
    pub just_key9: bool,
    pub just_key0: bool,
    pub just_r: bool,
    pub just_i: bool,
    pub just_e: bool,
}

/// An entity the player can interact with.
#[derive(Clone, Copy, PartialEq, Eq, Structural, Debug)]
pub struct InteractEntry {
    pub id: u64,
    pub pos: Vec3i,
    pub interact: InteractableEntity,
}

/// The block the digit row selects, the last pressed digit winning.
pub open spec fn selected_block(input: KeyInput, old_sel: ItemTypes) -> ItemTypes {
    if input.just_key0 {
        ItemTypes::Chest
    } else if input.just_key9 {
        ItemTypes::CraftingTable
    } else if input.just_key8 {
        ItemTypes::MiningRig
    } else if input.just_key7 {
        ItemTypes::WoodFence
    } else if input.just_key6 {
        ItemTypes::WindMill
    } else if input.just_key5 {
        ItemTypes::Wheat
    } else if input.just_key4 {
        ItemTypes::Fence
    } else if input.just_key3 {
        ItemTypes::TripMine
    } else if input.just_key2 {
        ItemTypes::TurretBlock
    } else if input.just_key1 {
        ItemTypes::WallBlock
    } else {
        old_sel
    }
}

/// One axis of keyboard steering: accelerate by the held keys, then clamp
/// to the walking speed.
pub open spec fn steer(v: int, plus: bool, minus: bool, dt_ms: int) -> int {
    let after = v + (if plus {
        6 * dt_ms
    } else {
        0
    }) - (if minus {
        6 * dt_ms
    } else {
        0
    });
    spec_clamp(after, -MOVESPEED as int, MOVESPEED as int)
}

/// The chest-opening events the interact key raises among the first `n`
/// interactables: every chest within reach.
pub open spec fn interact_events_upto(
    player_pos: Vec3i,
    entries: Seq<InteractEntry>,
    n: int,
) -> Seq<ChestInteractEvent>
    decreases n,
{
    if n <= 0 {
        Seq::empty()
    } else {
        let prev = interact_events_upto(player_pos, entries, n - 1);
        if dist_sq(entries[n - 1].pos, player_pos) < INTERACTION_DISTANCE_SQ {
            prev + seq![ChestInteractEvent { chest_entity: entries[n - 1].id }]
        } else {
            prev
        }
    }
}

/// One frame of the keyboard: steer the player, switch the selected block,
/// empty the magazine on reload, open the inventory, and ring every chest
/// within reach on the interact key.
pub fn keyboard_actions(
    input: KeyInput,
    rb: &mut Rigidbody,
    player_pos: Vec3i,
    block: &mut BlockSelection,
    magazine: &mut Magazine,
    interactables: &Vec<InteractEntry>,
    dt_ms: i64,
) -> (r: (Option<AppState>, Vec<ChestInteractEvent>))
    requires
        crate::physics::speed_ok(old(rb).vx),
        crate::physics::speed_ok(old(rb).vy),
        player_pos.in_world(),
        forall|i: int| 0 <= i < interactables@.len() ==> (#[trigger] interactables@[i]).pos.in_world(),
        0 <= dt_ms <= FRAME_MS_LIMIT,
    ensures
        final(rb).vx == steer(old(rb).vx as int, input.pressed_d, input.pressed_a, dt_ms as int),
        final(rb).vy == steer(old(rb).vy as int, input.pressed_w, input.pressed_s, dt_ms as int),
        final(rb).friction == old(rb).friction,
        final(block).block == selected_block(input, old(block).block),
        final(magazine).0 == (if input.just_r {
            0
        } else {
            old(magazine).0
        }),
        r.0 == (if input.just_i {
            Some(AppState::Inventory)
        } else {
            None::<AppState>
        }),
        r.1@ == (if input.just_e {
            interact_events_upto(player_pos, interactables@, interactables@.len() as int)
        } else {
            Seq::<ChestInteractEvent>::empty()
        }),
{
    if input.pressed_d {
        rb.vx = rb.vx + 6 * dt_ms;
    }
    if input.pressed_a {
        rb.vx = rb.vx - 6 * dt_ms;
    }
    if input.pressed_w {
        rb.vy = rb.vy + 6 * dt_ms;
    }
    if input.pressed_s {
        rb.vy = rb.vy - 6 * dt_ms;
    }
    if input.just_key1 {
        block.block = ItemTypes::WallBlock;
    }
    if input.just_key2 {
        block.block = ItemTypes::TurretBlock;
    }
    if input.just_key3 {
        block.block = ItemTypes::TripMine;
    }
    if input.just_key4 {
        block.block = ItemTypes::Fence;
    }
    if input.just_key5 {
        block.block = ItemTypes::Wheat;
    }
    if input.just_key6 {
        block.block = ItemTypes::WindMill;
    }
    if input.just_key7 {
        block.block = ItemTypes::WoodFence;
    }
    if input.just_key8 {
        block.block = ItemTypes::MiningRig;
    }
    if input.just_key9 {
        block.block = ItemTypes::CraftingTable;
    }
    if input.just_key0 {
        block.block = ItemTypes::Chest;
    }
    if input.just_r {
        magazine.0 = 0;
    }
    let state = if input.just_i {
        Some(AppState::Inventory)
    } else {
        None
    };
    let mut events: Vec<ChestInteractEvent> = Vec::new();
    if input.just_e {
        let n = interactables.len();
        let mut i: usize = 0;
        while i < n
            invariant
                0 <= i <= n,
                n == interactables@.len(),
                player_pos.in_world(),
                forall|j: int|
                    0 <= j < n ==> (#[trigger] interactables@[j]).pos.in_world(),
                events@ == interact_events_upto(player_pos, interactables@, i as int),
            decreases n - i,
        {
            let e = interactables[i];
            let d = crate::geom::dist_sq_i128(e.pos, player_pos);
            if d < INTERACTION_DISTANCE_SQ as i128 {
                match e.interact.interact_type {
                    InteractionType::ChestOpen => {
                        events.push(ChestInteractEvent { chest_entity: e.id });
                    },
                }
            }
            i = i + 1;
        }
    }
    rb.vx = crate::geom::clamp_i64(rb.vx, -MOVESPEED, MOVESPEED);
    rb.vy = crate::geom::clamp_i64(rb.vy, -MOVESPEED, MOVESPEED);
    (state, events)
}

/// The player's send-off: nothing despawns; the game-over transition reacts
/// to spent health instead.
pub fn player_destruct() -> (r: Option<DespawnAction>)
    ensures
        r is None,
{
    None
}

} // verus!
