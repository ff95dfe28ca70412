use survival_core::animals::{animal_behaviour, spawn_animal, AnimalUnit};
use survival_core::blocks::{spawn_fence, spawn_windmill};
use survival_core::components::{
    AppState, BoxCollider, DestructKind, EntityHealth, InvName, MouseLoc, Pathfinder, Rigidbody,
    TargetPriority, TempTurretDestroyed, TempZombieDead,
};
use survival_core::entities::{
    dropped_behaviour, temp_entity_handler, temp_turret_handler, TempCorpse, TempDebris,
};
use survival_core::geom::{Vec2i, Vec3i};
use survival_core::inventory_ui::{change_inventory, InvItemEntry};
use survival_core::items::{InventoryItems, Item, ItemTypes};
use survival_core::menu::{destruct_game, key_press, setup_setupgame};
use survival_core::physics::{entity_collision, MovingEntity, StaticBody};
use survival_core::timer::GameTimer;
use survival_core::turret::{spawn_destroyed, turret_destruct};
use survival_core::weapons::{shoot, spawn_bullet};
use survival_core::zombie::{enemy_pathfind, random_new_target, spawn_dead, RetargetAgent, Seeker};

fn v3(x: i64, y: i64, z: i64) -> Vec3i {
    Vec3i { x, y, z }
}

#[test]
fn collision_stops_a_mover_on_the_y_axis_too() {
    let mut movers = vec![MovingEntity {
        id: 1,
        pos: v3(0, 0, 0),
        rb: Rigidbody { vx: 0, vy: 400, friction: true },
        collider: BoxCollider { size: Vec2i { x: 100, y: 100 } },
    }];
    let statics = vec![StaticBody {
        id: 2,
        pos: v3(0, 150, 0),
        collider: BoxCollider { size: Vec2i { x: 200, y: 200 } },
    }];
    let events = entity_collision(&mut movers, &statics);
    assert_eq!(events.len(), 1);
    assert_eq!(movers[0].rb.vy, 0);
    // pushed to 150 - 50 - 100 - 20 + 1
    assert_eq!(movers[0].pos.y, -19);
}

#[test]
fn zombies_walk_to_the_obstacle_that_blocks_their_way() {
    let mut seekers = vec![Seeker {
        pos: v3(0, 0, 0),
        pf: Pathfinder {
            target: v3(2000, 0, 0),
            target_entity: true,
            target_priority: TargetPriority::High,
        },
    }];
    let statics = vec![v3(1000, 0, 0)];
    enemy_pathfind(&mut seekers, &statics, &v3(5000, 5000, 0));
    assert_eq!(seekers[0].pf.target, v3(1000, 0, 0));
}

#[test]
fn zombies_keep_their_target_when_the_way_is_clear() {
    let orig = Pathfinder {
        target: v3(2000, 0, 0),
        target_entity: true,
        target_priority: TargetPriority::High,
    };
    let mut seekers = vec![Seeker { pos: v3(0, 0, 0), pf: orig }];
    enemy_pathfind(&mut seekers, &vec![], &v3(5000, 5000, 0));
    assert_eq!(seekers[0].pf, orig);
}

#[test]
fn idle_zombies_near_their_stroll_point_get_a_new_one() {
    let mut agents = vec![RetargetAgent {
        pos: v3(0, 0, 0),
        timer: GameTimer::from_millis(100, true),
        pf: Pathfinder {
            target: v3(50, 0, 0),
            target_entity: false,
            target_priority: TargetPriority::Low,
        },
    }];
    let player = v3(4000, 4000, 50);
    random_new_target(&mut agents, &player, 100);
    let t = agents[0].pf.target;
    assert!(4000 <= t.x && t.x < 4300);
    assert!(4000 <= t.y && t.y < 4300);
    assert_eq!(t.z, 50);
}

#[test]
fn hunting_zombies_never_reroll_their_target() {
    let pf = Pathfinder {
        target: v3(50, 0, 0),
        target_entity: true,
        target_priority: TargetPriority::High,
    };
    let mut agents = vec![RetargetAgent {
        pos: v3(0, 0, 0),
        timer: GameTimer::from_millis(100, true),
        pf,
    }];
    random_new_target(&mut agents, &v3(4000, 4000, 50), 100);
    assert_eq!(agents[0].pf, pf);
    assert_eq!(agents[0].timer.elapsed_ms, 0);
}

#[test]
fn the_trigger_fires_when_ready_and_held() {
    let mut gun = GameTimer::from_millis(150, true);
    gun.tick(150);
    assert!(gun.just_finished);
    let mut reload = GameTimer::from_millis(2000, true);
    let mut mag = survival_core::components::Magazine(30);
    let shot = shoot(
        &mut gun,
        &mut reload,
        &mut mag,
        v3(0, 0, 50),
        v3(1000, 0, 0),
        true,
        0,
        16,
    );
    let b = shot.unwrap();
    assert_eq!(mag.0, 29);
    assert_eq!(b.pos, v3(0, 0, 50));
    assert_eq!(b.rb.vx, 5000);
    assert_eq!(b.rb.vy, 0);
}

#[test]
fn an_empty_magazine_reloads_to_full() {
    let mut gun = GameTimer::from_millis(150, true);
    let mut reload = GameTimer::from_millis(2000, true);
    let mut mag = survival_core::components::Magazine(0);
    for _ in 0..10 {
        let shot = shoot(&mut gun, &mut reload, &mut mag, v3(0, 0, 50), v3(1000, 0, 0), true, 0, 200);
        assert!(shot.is_none());
    }
    assert_eq!(mag.0, 30);
}

#[test]
fn bullet_spread_bends_the_flight_path() {
    let b = spawn_bullet(v3(0, 0, 0), Vec2i { x: 1000, y: 0 }, 100);
    // the direction turns by about a tenth of a radian
    assert_eq!(b.rb.vx, 5000);
    assert_eq!(b.rb.vy, 500);
}

#[test]
fn animals_flee_what_they_can_see() {
    let animal = spawn_animal(v3(0, 0, 0));
    let mut units = vec![AnimalUnit {
        pos: v3(0, 0, 0),
        rb: Rigidbody { vx: 0, vy: 0, friction: true },
        animal: animal.animal,
    }];
    let hostiles = vec![v3(300, 0, 0)];
    animal_behaviour(&mut units, &hostiles, &vec![], 100);
    // it accelerates straight away from the hostile: west, capped at 400.
    assert!(units[0].rb.vx < 0);
    assert_eq!(units[0].rb.vy, 0);
    assert!(units[0].rb.vx >= -400);
}

#[test]
fn corpses_fade_after_five_seconds() {
    let d = spawn_dead(v3(1, 2, 3));
    assert_eq!(d.sprite_index, 10);
    let mut temps = vec![TempCorpse { id: 8, temp: d.temp }];
    let gone = temp_entity_handler(&mut temps, 200);
    assert!(gone.is_empty());
    let mut aged = vec![TempCorpse {
        id: 8,
        temp: TempZombieDead(GameTimer { elapsed_ms: 4900, duration_ms: 5000, repeating: false, just_finished: false }),
    }];
    let gone2 = temp_entity_handler(&mut aged, 200);
    assert_eq!(gone2.len(), 1);
    assert_eq!(gone2[0].entity, 8);
}

#[test]
fn turret_debris_drifts_up_and_shrinks() {
    let mut temps = vec![TempDebris {
        id: 3,
        pos: v3(0, 0, 0),
        scale_milli: 1000,
        temp: TempTurretDestroyed(GameTimer::from_millis(1500, false)),
    }];
    let gone = temp_turret_handler(&mut temps, 100);
    assert!(gone.is_empty());
    assert_eq!(temps[0].pos.y, 40);
    assert_eq!(temps[0].scale_milli, 950);
}

#[test]
fn a_destroyed_turret_scatters_five_blocks() {
    let (despawn, debris) = turret_destruct(12, v3(100, 200, 30));
    assert_eq!(despawn.entity, 12);
    assert!(!despawn.recursive);
    assert_eq!(debris.len(), 5);
    for d in &debris {
        assert_eq!(d.sprite_index, 5);
        assert!(100 <= d.pos.x && d.pos.x < 300);
        assert!(200 <= d.pos.y && d.pos.y < 400);
    }
    let again = spawn_destroyed(v3(0, 0, 0));
    assert_eq!(again.len(), 5);
}

#[test]
fn dropped_items_turn_with_the_clock() {
    assert_eq!(dropped_behaviour(0), 0);
    assert_eq!(dropped_behaviour(1000), 1570);
    assert_eq!(dropped_behaviour(2000), 3140);
}

#[test]
fn the_title_screen_reacts_to_space_alone() {
    assert_eq!(key_press(true), Some(AppState::GameSetup));
    assert_eq!(key_press(false), None);
    assert_eq!(setup_setupgame(), AppState::InGame);
}

#[test]
fn game_over_clears_the_board_and_returns_to_the_title() {
    let (despawns, state) = destruct_game(&vec![4, 5, 6]);
    assert_eq!(despawns.len(), 3);
    assert_eq!(despawns[2].entity, 6);
    assert!(!despawns[0].recursive);
    assert_eq!(state, AppState::MainMenu);
}

#[test]
fn transfers_into_a_fresh_container_conserve_the_count() {
    let mut player = InventoryItems::new();
    player.items.push(Item { item_type: ItemTypes::Coal, quantity: 7 });
    let mut external = InventoryItems::new();
    let before: i64 = 7;
    let entries = vec![InvItemEntry {
        parent: InvName::PlayerPanel,
        glob_pos: v3(0, 0, 300),
        item: Item { item_type: ItemTypes::Coal, quantity: 7 },
    }];
    change_inventory(true, MouseLoc { x: 0, y: 0 }, &entries, &mut player, &mut external);
    let after: i64 = player.items.iter().map(|i| i.quantity as i64).sum::<i64>()
        + external.items.iter().map(|i| i.quantity as i64).sum::<i64>();
    assert_eq!(after, before);
}

#[test]
fn a_container_stack_comes_back_to_the_player() {
    let mut player = InventoryItems::new();
    let mut external = InventoryItems::new();
    external.items.push(Item { item_type: ItemTypes::Steak, quantity: 4 });
    let entries = vec![InvItemEntry {
        parent: InvName::ExternalPanel,
        glob_pos: v3(0, 0, 300),
        item: Item { item_type: ItemTypes::Steak, quantity: 4 },
    }];
    change_inventory(true, MouseLoc { x: 0, y: 0 }, &entries, &mut player, &mut external);
    assert!(external.items.is_empty());
    assert_eq!(player.items[0].quantity, 4);
}

#[test]
fn windmills_and_fences_carry_their_constants() {
    let wm = spawn_windmill(v3(0, 0, 30));
    assert_eq!(wm.health.val, 2000);
    assert_eq!(wm.blade_sprite_index, 16);
    assert_eq!(wm.blade_offset, v3(0, 50, 60));
    let f = spawn_fence(v3(0, 0, 30));
    assert_eq!(f.health.val, 5000);
    assert_eq!(f.sprite_index, 14);
}

#[test]
fn spent_health_uses_the_right_send_off() {
    let e = EntityHealth { val: 0, func_destruct: DestructKind::ZombieDead };
    assert_eq!(e.func_destruct, DestructKind::ZombieDead);
    let one = survival_core::entities::entity_destruct(3);
    assert!(one.recursive);
}
