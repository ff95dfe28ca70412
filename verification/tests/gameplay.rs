use survival_core::blocks::{
    chest_init_test, explosion_behaviour, fence_behaviour, miningrig_behaviour, spawn_miningrig,
    spawn_tripmine, spawn_wall, spawn_wheat, tripmine_detonator, wheat_behaviour, windmill_behaviour,
    ExplosionUnit, FencedBody, MineUnit, RigUnit, WheatPlant,
};
use survival_core::components::{
    AppState, BlockSelection, DestructKind, EntityHealth, InvName, Magazine, MouseLoc, Rigidbody,
};
use survival_core::construct::{build, snap_coord_exec, BuildAction};
use survival_core::entities::{
    destruct_cleanup, drop_items, entity_destruct, entity_health, mutual_repulsion, Dropper,
    HealthEntity,
};
use survival_core::geom::{Vec2i, Vec3i};
use survival_core::interaction::{chest_open, inventory_handler, ChestEntity};
use survival_core::inventory_ui::{change_inventory, inventory_spawn, InvItemEntry};
use survival_core::items::{InventoryItems, Item, ItemTypes};
use survival_core::physics::PhysicsBody;
use survival_core::player::{
    collect_items, keyboard_actions, player_health, player_setup, CollectEntry, InteractEntry,
    KeyInput,
};
use survival_core::timer::GameTimer;
use survival_core::turret::{spawn_turret, turret_targeting, TurretUnit};
use survival_core::weapons::{shot_bullets, spawn_bullet, BulletState};
use survival_core::zombie::{
    attack_health_entities, spawn_chungus_zombie, spawn_zombie, zombie_spawner, HealthTarget,
    ZombieAttacker,
};

fn v3(x: i64, y: i64, z: i64) -> Vec3i {
    Vec3i { x, y, z }
}

fn no_keys() -> KeyInput {
    KeyInput {
        pressed_d: false,
        pressed_a: false,
        pressed_w: false,
        pressed_s: false,
        just_key1: false,
        just_key2: false,
        just_key3: false,
        just_key4: false,
        just_key5: false,
        just_key6: false,
        just_key7: false,
        just_key8: false,
        just_key9: false,
        just_key0: false,
        just_r: false,
        just_i: false,
        just_e: false,
    }
}

#[test]
fn snapping_rounds_to_the_nearest_cell_toward_zero_below() {
    assert_eq!(snap_coord_exec(150), 200);
    assert_eq!(snap_coord_exec(90), 0);
    assert_eq!(snap_coord_exec(100), 0);
    assert_eq!(snap_coord_exec(101), 200);
    assert_eq!(snap_coord_exec(-150), 0);
    assert_eq!(snap_coord_exec(-250), -200);
    assert_eq!(snap_coord_exec(400), 400);
}

#[test]
fn building_places_the_block_and_consumes_stock() {
    let mut inv = InventoryItems::new();
    inv.items.push(Item { item_type: ItemTypes::WallBlock, quantity: 2 });
    let sel = BlockSelection { block: ItemTypes::WallBlock };
    let r = build(v3(0, 0, 50), MouseLoc { x: 150, y: 90 }, &sel, &mut inv, true);
    assert_eq!(r, Some(BuildAction { block: ItemTypes::WallBlock, pos: v3(200, 0, 30) }));
    assert_eq!(inv.items[0].quantity, 1);
}

#[test]
fn building_needs_stock_and_reach() {
    let mut inv = InventoryItems::new();
    let sel = BlockSelection { block: ItemTypes::WallBlock };
    // no stock
    assert_eq!(build(v3(0, 0, 50), MouseLoc { x: 150, y: 90 }, &sel, &mut inv, true), None);
    // out of reach
    inv.items.push(Item { item_type: ItemTypes::WallBlock, quantity: 2 });
    assert_eq!(build(v3(0, 0, 50), MouseLoc { x: 9000, y: 0 }, &sel, &mut inv, true), None);
    assert_eq!(inv.items[0].quantity, 2);
}

#[test]
fn unbuildable_kinds_are_consumed_but_place_nothing() {
    let mut inv = InventoryItems::new();
    inv.items.push(Item { item_type: ItemTypes::Chest, quantity: 2 });
    let sel = BlockSelection { block: ItemTypes::Chest };
    let r = build(v3(0, 0, 50), MouseLoc { x: 0, y: 0 }, &sel, &mut inv, true);
    assert_eq!(r, None);
    assert_eq!(inv.items[0].quantity, 1);
}

#[test]
fn keyboard_steers_and_clamps_to_walking_speed() {
    let mut rb = Rigidbody { vx: 0, vy: 0, friction: true };
    let mut block = BlockSelection { block: ItemTypes::WallBlock };
    let mut mag = Magazine(30);
    let input = KeyInput { pressed_d: true, pressed_w: true, ..no_keys() };
    let (state, events) =
        keyboard_actions(input, &mut rb, v3(0, 0, 0), &mut block, &mut mag, &vec![], 100);
    // gain 6 * 100 = 600, clamped to the walking 400.
    assert_eq!(rb.vx, 400);
    assert_eq!(rb.vy, 400);
    assert_eq!(state, None);
    assert!(events.is_empty());
}

#[test]
fn keyboard_switches_blocks_and_opens_the_inventory() {
    let mut rb = Rigidbody { vx: 0, vy: 0, friction: true };
    let mut block = BlockSelection { block: ItemTypes::WallBlock };
    let mut mag = Magazine(30);
    let input = KeyInput { just_key6: true, just_r: true, just_i: true, ..no_keys() };
    let (state, _) =
        keyboard_actions(input, &mut rb, v3(0, 0, 0), &mut block, &mut mag, &vec![], 16);
    assert_eq!(block.block, ItemTypes::WindMill);
    assert_eq!(mag.0, 0);
    assert_eq!(state, Some(AppState::Inventory));
}

#[test]
fn interact_key_rings_every_chest_in_reach() {
    let mut rb = Rigidbody { vx: 0, vy: 0, friction: true };
    let mut block = BlockSelection { block: ItemTypes::WallBlock };
    let mut mag = Magazine(30);
    let near = InteractEntry {
        id: 44,
        pos: v3(100, 0, 0),
        interact: survival_core::components::InteractableEntity {
            interact_type: survival_core::components::InteractionType::ChestOpen,
        },
    };
    let far = InteractEntry { id: 45, pos: v3(9000, 0, 0), ..near };
    let input = KeyInput { just_e: true, ..no_keys() };
    let (_, events) = keyboard_actions(
        input,
        &mut rb,
        v3(0, 0, 0),
        &mut block,
        &mut mag,
        &vec![near, far],
        16,
    );
    assert_eq!(events.len(), 1);
    assert_eq!(events[0].chest_entity, 44);
}

#[test]
fn player_starts_with_nine_stacks_and_a_full_magazine() {
    let (player, bar) = player_setup();
    assert_eq!(player.items.items.len(), 9);
    assert_eq!(player.items.items[0].item_type, ItemTypes::WoodFence);
    assert_eq!(player.items.items[0].quantity, 30);
    assert_eq!(player.magazine.0, 30);
    assert_eq!(player.health.val, 1000);
    assert_eq!(bar.custom_size, Vec2i { x: 1000, y: 100 });
}

#[test]
fn health_bar_fades_and_spent_health_ends_the_game() {
    let (bar, state) = player_health(400);
    assert_eq!(bar.custom_size.x, 400);
    assert_eq!(bar.color_milli.r, 600);
    assert_eq!(bar.color_milli.g, 400);
    assert_eq!(state, None);
    let (_, over) = player_health(0);
    assert_eq!(over, Some(AppState::GameDestruct));
}

#[test]
fn items_in_reach_are_collected_and_despawned() {
    let mut inv = InventoryItems::new();
    inv.items.push(Item { item_type: ItemTypes::Coal, quantity: 1 });
    let drops = vec![
        CollectEntry { id: 1, pos: v3(50, 0, 0), item: Item { item_type: ItemTypes::Coal, quantity: 9 } },
        CollectEntry { id: 2, pos: v3(5000, 0, 0), item: Item { item_type: ItemTypes::Steak, quantity: 1 } },
    ];
    let despawns = collect_items(v3(0, 0, 0), &mut inv, &drops);
    // the coal stack is bumped by one, never by the drop's count
    assert_eq!(inv.items.len(), 1);
    assert_eq!(inv.items[0].quantity, 2);
    assert_eq!(despawns.len(), 1);
    assert_eq!(despawns[0].entity, 1);
}

#[test]
fn chest_open_serves_the_first_event_with_a_real_chest() {
    let mut items = InventoryItems::new();
    items.items.push(Item { item_type: ItemTypes::Coal, quantity: 20 });
    let chests = vec![ChestEntity { id: 10, items }];
    let events = vec![
        survival_core::components::ChestInteractEvent { chest_entity: 99 },
        survival_core::components::ChestInteractEvent { chest_entity: 10 },
    ];
    let r = chest_open(&events, &chests).unwrap();
    assert_eq!(r.origin.entity_origin, 10);
    assert_eq!(r.items.items.len(), 1);
    assert_eq!(r.state, AppState::ExternalInventory);
    assert!(chest_open(&vec![], &chests).is_none());
}

#[test]
fn inventory_panels_lay_items_out_five_to_a_row() {
    let mut inv = InventoryItems::new();
    for k in 0..6 {
        inv.items.push(Item { item_type: ItemTypes::Coal, quantity: 1 + k as i8 });
    }
    let panel = inventory_spawn(&inv, v3(0, 0, 300), InvName::PlayerPanel);
    assert_eq!(panel.items.len(), 6);
    assert_eq!(panel.items[0].rel_pos, v3(-420, 210, 300));
    assert_eq!(panel.items[1].rel_pos, v3(-210, 210, 300));
    assert_eq!(panel.items[5].rel_pos, v3(-420, 0, 300));
}

#[test]
fn right_click_moves_a_stack_out_of_the_player_panel() {
    let mut player = InventoryItems::new();
    player.items.push(Item { item_type: ItemTypes::Coal, quantity: 5 });
    let mut external = InventoryItems::new();
    let entries = vec![InvItemEntry {
        parent: InvName::PlayerPanel,
        glob_pos: v3(0, 0, 300),
        item: Item { item_type: ItemTypes::Coal, quantity: 5 },
    }];
    change_inventory(
        true,
        MouseLoc { x: 50, y: 0 },
        &entries,
        &mut player,
        &mut external,
    );
    assert!(player.items.is_empty());
    assert_eq!(external.items.len(), 1);
    assert_eq!(external.items[0].quantity, 5);
}

#[test]
fn inventory_key_returns_to_the_game() {
    assert_eq!(inventory_handler(true), Some(AppState::InGame));
    assert_eq!(inventory_handler(false), None);
}

#[test]
fn wheat_ripens_two_steps_and_stops() {
    let mut plants = vec![WheatPlant {
        wheat: survival_core::components::Wheat {
            state: 0,
            timer: GameTimer::from_millis(100, true),
        },
        sprite_index: 17,
    }];
    for _ in 0..5 {
        wheat_behaviour(&mut plants, 100);
    }
    assert_eq!(plants[0].wheat.state, 2);
    assert_eq!(plants[0].sprite_index, 19);
}

#[test]
fn blades_turn_clockwise() {
    let mut angles = vec![0i64];
    windmill_behaviour(&mut angles, 100);
    assert_eq!(angles[0], -471);
}

#[test]
fn fences_slow_whatever_stands_near() {
    let mut bodies = vec![
        FencedBody { pos: v3(0, 0, 0), rb: Rigidbody { vx: 400, vy: -400, friction: true } },
        FencedBody { pos: v3(9000, 0, 0), rb: Rigidbody { vx: 400, vy: 0, friction: true } },
    ];
    let fences = vec![v3(100, 0, 0)];
    fence_behaviour(&mut bodies, &fences);
    assert_eq!(bodies[0].rb.vx, 30);
    assert_eq!(bodies[0].rb.vy, -30);
    assert_eq!(bodies[1].rb.vx, 400);
}

#[test]
fn powered_rig_mines_ore_nearby() {
    let mut rigs = vec![RigUnit {
        pos: v3(0, 0, 0),
        rig: survival_core::components::MiningRig(GameTimer::from_millis(100, true)),
    }];
    let windmills = vec![v3(100, 0, 0)];
    let drops = miningrig_behaviour(&mut rigs, &windmills, 100);
    assert_eq!(drops.len(), 1);
    let d = drops[0].as_ref().unwrap();
    assert!(d.item.item_type == ItemTypes::IronIngot || d.item.item_type == ItemTypes::Coal);
    assert_eq!(d.item.quantity, 1);
    let dx = d.pos.x;
    let dy = d.pos.y;
    assert!(dx * dx + dy * dy <= 160_000);
}

#[test]
fn unpowered_rig_stands_still() {
    let mut rigs = vec![RigUnit {
        pos: v3(0, 0, 0),
        rig: survival_core::components::MiningRig(GameTimer::from_millis(100, true)),
    }];
    let drops = miningrig_behaviour(&mut rigs, &vec![], 100);
    assert_eq!(drops, vec![None]);
    assert_eq!(rigs[0].rig.0.elapsed_ms, 0);
}

#[test]
fn mines_go_off_underfoot() {
    let mines = vec![
        MineUnit { id: 1, pos: v3(0, 0, 0) },
        MineUnit { id: 2, pos: v3(5000, 0, 0) },
    ];
    let zombies = vec![v3(100, 0, 0)];
    let (despawns, blasts) = tripmine_detonator(&mines, &zombies);
    assert_eq!(despawns.len(), 1);
    assert_eq!(despawns[0].entity, 1);
    assert_eq!(blasts.len(), 1);
    assert_eq!(blasts[0].pos, v3(0, 0, 0));
    assert_eq!(blasts[0].scale_milli, 4000);
}

#[test]
fn blasts_burn_whoever_stands_in_them() {
    let mut explosions = vec![ExplosionUnit {
        id: 3,
        pos: v3(0, 0, 0),
        scale_milli: 4000,
        timer: GameTimer::from_millis(500, false),
    }];
    let mut targets = vec![HealthTarget {
        pos: v3(500, 0, 0),
        health: EntityHealth { val: 1000, func_destruct: DestructKind::Despawn },
    }];
    let despawns = explosion_behaviour(&mut explosions, &mut targets, 100);
    assert_eq!(targets[0].health.val, 800);
    assert_eq!(explosions[0].scale_milli, 3400);
    assert!(despawns.is_empty());
}

#[test]
fn zombies_strike_when_their_timer_rings() {
    let mut zombies = vec![ZombieAttacker {
        pos: v3(0, 0, 0),
        timer: GameTimer::from_millis(300, true),
    }];
    let mut targets = vec![HealthTarget {
        pos: v3(100, 0, 0),
        health: EntityHealth { val: 500, func_destruct: DestructKind::Despawn },
    }];
    attack_health_entities(&mut zombies, &mut targets, 150);
    assert_eq!(targets[0].health.val, 500);
    attack_health_entities(&mut zombies, &mut targets, 150);
    assert_eq!(targets[0].health.val, 400);
}

#[test]
fn crowding_zombies_push_each_other_apart() {
    let mut bodies = vec![
        PhysicsBody { pos: v3(0, 0, 0), rb: Rigidbody { vx: 0, vy: 0, friction: true } },
        PhysicsBody { pos: v3(100, 0, 0), rb: Rigidbody { vx: 0, vy: 0, friction: true } },
    ];
    mutual_repulsion(&mut bodies, 100);
    // each is pushed away: 1000 * 2000 * 100 / 1e6 = 200 tenths per second.
    assert_eq!(bodies[0].rb.vx, -200);
    assert_eq!(bodies[1].rb.vx, 200);
}

#[test]
fn spent_entities_are_reported_with_their_send_off() {
    let es = vec![
        HealthEntity {
            id: 1,
            health: EntityHealth { val: 0, func_destruct: DestructKind::ZombieDead },
            pos: v3(1, 2, 3),
        },
        HealthEntity {
            id: 2,
            health: EntityHealth { val: 10, func_destruct: DestructKind::Despawn },
            pos: v3(0, 0, 0),
        },
    ];
    let dead = entity_health(&es);
    assert_eq!(dead.len(), 1);
    assert_eq!(dead[0].id, 1);
    assert_eq!(dead[0].kind, DestructKind::ZombieDead);
    assert_eq!(dead[0].pos, v3(1, 2, 3));
}

#[test]
fn spent_droppers_lay_their_item_at_half_scale() {
    let ds = vec![Dropper {
        health_val: 0,
        pos: v3(7, 8, 9),
        scale_milli: 1000,
        item: Item { item_type: ItemTypes::WallBlock, quantity: 3 },
    }];
    let drops = drop_items(&ds);
    assert_eq!(drops.len(), 1);
    assert_eq!(drops[0].scale_milli, 500);
    assert_eq!(drops[0].sprite_index, 0);
    assert_eq!(drops[0].item.quantity, 3);
}

#[test]
fn cleanup_despawns_everything_recursively() {
    let despawns = destruct_cleanup(&vec![5, 6]);
    assert_eq!(despawns.len(), 2);
    assert!(despawns[0].recursive);
    assert_eq!(despawns[1].entity, 6);
    let one = entity_destruct(9);
    assert_eq!(one.entity, 9);
    assert!(one.recursive);
}

#[test]
fn bullets_fly_at_full_speed_along_their_direction() {
    let b = spawn_bullet(v3(0, 0, 50), Vec2i { x: 1000, y: 0 }, 0);
    assert_eq!(b.rb.vx, 5000);
    assert_eq!(b.rb.vy, 0);
    assert!(!b.rb.friction);
    assert_eq!(b.collider.size, Vec2i { x: 50, y: 50 });
}

#[test]
fn flying_bullets_hurt_the_first_thing_they_touch() {
    let bullets = vec![
        BulletState { id: 1, pos: v3(0, 0, 0) },
        BulletState { id: 2, pos: v3(20_000, 0, 0) },
    ];
    let mut targets = vec![HealthTarget {
        pos: v3(100, 0, 0),
        health: EntityHealth { val: 1000, func_destruct: DestructKind::Despawn },
    }];
    let despawns = shot_bullets(&bullets, &vec![], &mut targets);
    assert_eq!(targets[0].health.val, 670);
    // bullet 1 hit something; bullet 2 flew out of the world.
    assert_eq!(despawns.len(), 2);
    assert_eq!(despawns[0].entity, 1);
    assert_eq!(despawns[1].entity, 2);
}

#[test]
fn unpowered_turrets_hold_their_fire() {
    let mut turrets = vec![TurretUnit {
        pos: v3(0, 0, 0),
        shoot_timer: spawn_turret(v3(0, 0, 0)).shoot_timer,
        cool_timer: spawn_turret(v3(0, 0, 0)).cool_timer,
        bullet_timer: spawn_turret(v3(0, 0, 0)).bullet_timer,
    }];
    let before = turrets[0];
    let bullets = turret_targeting(&mut turrets, &vec![v3(100, 0, 0)], &vec![], &vec![], &vec![0], 100);
    assert!(bullets.is_empty());
    assert_eq!(turrets[0], before);
}

#[test]
fn powered_turret_warms_its_cooldown_gate() {
    let mut turrets = vec![TurretUnit {
        pos: v3(0, 0, 0),
        shoot_timer: spawn_turret(v3(0, 0, 0)).shoot_timer,
        cool_timer: spawn_turret(v3(0, 0, 0)).cool_timer,
        bullet_timer: spawn_turret(v3(0, 0, 0)).bullet_timer,
    }];
    let windmills = vec![v3(100, 0, 0)];
    let bullets =
        turret_targeting(&mut turrets, &vec![v3(200, 0, 0)], &vec![], &windmills, &vec![0], 100);
    assert!(bullets.is_empty());
    assert_eq!(turrets[0].cool_timer.0.elapsed_ms, 100);
}

#[test]
fn the_starting_chest_holds_twenty_coal() {
    let chest = chest_init_test();
    assert_eq!(chest.pos, v3(0, 1000, 25));
    assert_eq!(chest.items.items.len(), 1);
    assert_eq!(chest.items.items[0].item_type, ItemTypes::Coal);
    assert_eq!(chest.items.items[0].quantity, 20);
}

#[test]
fn zombie_bundles_carry_the_tuned_constants() {
    let z = spawn_zombie(v3(9000, 0, 20), 100, 200);
    assert_eq!(z.sprite_index, 4);
    assert_eq!(z.health.val, 200);
    assert_eq!(z.scale_milli, 1000);
    assert_eq!(z.collider.size, Vec2i { x: 100, y: 100 });
    let c = spawn_chungus_zombie(v3(9000, 0, 20), 100, 200);
    assert_eq!(c.health.val, 3000);
    assert_eq!(c.scale_milli, 2000);
    assert_eq!(c.collider.size, Vec2i { x: 300, y: 300 });
}

#[test]
fn waves_pause_while_the_timeout_clock_runs() {
    let mut spawn = GameTimer::from_millis(300, true);
    let mut timeout = GameTimer::from_millis(120_000, true);
    let mut level = GameTimer::from_millis(60_000, true);
    let r = zombie_spawner(&mut spawn, &mut timeout, &mut level, 100);
    assert!(r.is_none());
    assert_eq!(timeout.elapsed_ms, 100);
    assert_eq!(spawn.elapsed_ms, 0);
}

#[test]
fn a_live_wave_spawns_on_the_ring() {
    let mut spawn = GameTimer::from_millis(300, true);
    let mut timeout = GameTimer::from_millis(120_000, true);
    timeout.tick(120_000);
    assert!(timeout.just_finished);
    let mut level = GameTimer::from_millis(60_000, true);
    let r = zombie_spawner(&mut spawn, &mut timeout, &mut level, 200);
    assert!(r.is_none());
    let r2 = zombie_spawner(&mut spawn, &mut timeout, &mut level, 100);
    let z = r2.unwrap();
    assert!(-9000 <= z.pos.x && z.pos.x <= 9000);
    assert!(-9000 <= z.pos.y && z.pos.y <= 9000);
    assert_eq!(z.pos.z, 20);
}

#[test]
fn the_world_starts_with_its_full_population() {
    let (grass, trees, animals) = survival_core::environment::spawn_environment();
    assert_eq!(grass.len(), 4900);
    assert_eq!(grass[0].pos, v3(-7000, -7000, 0));
    assert_eq!(grass[69].pos, v3(-7000, 6800, 0));
    assert_eq!(grass[70].pos, v3(-6800, -7000, 0));
    assert_eq!(trees.len(), 50);
    assert_eq!(animals.len(), 25);
    for t in &trees {
        assert_eq!(t.pos.x % 200, 0);
        assert!(-4000 <= t.pos.x && t.pos.x < 4000);
        assert_eq!(t.health.val, 2000);
    }
}

#[test]
fn walls_wheat_and_rigs_carry_their_constants() {
    let w = spawn_wall(v3(200, 0, 30));
    assert_eq!(w.health.val, 4000);
    assert_eq!(w.sprite_index, 0);
    let wh = spawn_wheat(v3(0, 0, 30));
    assert_eq!(wh.wheat.timer.duration_ms, 45_000);
    assert_eq!(wh.health.val, 10);
    let rig = spawn_miningrig(v3(0, 0, 30));
    assert_eq!(rig.rig.0.duration_ms, 55_000);
    let mine = spawn_tripmine(v3(0, 0, 30));
    assert_eq!(mine.sprite_index, 12);
}
