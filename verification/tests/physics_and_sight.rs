use survival_core::components::{BoxCollider, Pathfinder, Rigidbody, TargetPriority};
use survival_core::geom::{dir_milli, isqrt_u64, Vec2i, Vec3i};
use survival_core::physics::{
    apply_velocity, entity_collision, MovingEntity, PhysicsBody, StaticBody,
};
use survival_core::timer::GameTimer;
use survival_core::zombie::{
    is_hindered, zombie_ai, AttackTarget, Seeker, ZombieMover,
};

fn v3(x: i64, y: i64, z: i64) -> Vec3i {
    Vec3i { x, y, z }
}

#[test]
fn isqrt_gives_the_floor_root() {
    assert_eq!(isqrt_u64(0), 0);
    assert_eq!(isqrt_u64(1), 1);
    assert_eq!(isqrt_u64(3), 1);
    assert_eq!(isqrt_u64(4), 2);
    assert_eq!(isqrt_u64(15), 3);
    assert_eq!(isqrt_u64(16), 4);
    assert_eq!(isqrt_u64(1_000_000), 1000);
    assert_eq!(isqrt_u64(u64::MAX), 4_294_967_295);
}

#[test]
fn dir_milli_matches_the_345_triangle() {
    let d = dir_milli(300, 400);
    assert_eq!(d, Vec2i { x: 600, y: 800 });
    let z = dir_milli(0, 0);
    assert_eq!(z, Vec2i { x: 1000, y: 0 });
}

#[test]
fn friction_halves_velocity_at_hundred_millis() {
    // factor 1 - 5 * 0.1 = 0.5; then the position moves v * dt.
    let mut bodies = vec![PhysicsBody {
        pos: v3(0, 0, 0),
        rb: Rigidbody { vx: 1000, vy: 0, friction: true },
    }];
    apply_velocity(&mut bodies, 100);
    assert_eq!(bodies[0].rb.vx, 500);
    assert_eq!(bodies[0].pos.x, 50);
}

#[test]
fn velocity_below_threshold_snaps_to_rest() {
    let mut bodies = vec![PhysicsBody {
        pos: v3(0, 0, 0),
        rb: Rigidbody { vx: 9, vy: -9, friction: false },
    }];
    apply_velocity(&mut bodies, 100);
    assert_eq!(bodies[0].rb.vx, 0);
    assert_eq!(bodies[0].rb.vy, 0);
    assert_eq!(bodies[0].pos.x, 0);
}

#[test]
fn collision_stops_a_mover_at_the_face() {
    // A 10-pixel mover running right into a 20-pixel wall.
    let mut movers = vec![MovingEntity {
        id: 7,
        pos: v3(0, 0, 0),
        rb: Rigidbody { vx: 400, vy: 0, friction: true },
        collider: BoxCollider { size: Vec2i { x: 100, y: 100 } },
    }];
    let statics = vec![StaticBody {
        id: 9,
        pos: v3(150, 0, 0),
        collider: BoxCollider { size: Vec2i { x: 200, y: 200 } },
    }];
    let events = entity_collision(&mut movers, &statics);
    assert_eq!(events.len(), 1);
    assert_eq!(events[0].ent_a, 7);
    assert_eq!(events[0].stat_b, 9);
    assert_eq!(movers[0].rb.vx, 0);
    // pushed to 150 - 50 - 100 - 20 - 1
    assert_eq!(movers[0].pos.x, -21);
}

#[test]
fn collision_leaves_separated_entities_alone() {
    let mover = MovingEntity {
        id: 1,
        pos: v3(0, 0, 0),
        rb: Rigidbody { vx: 400, vy: 400, friction: true },
        collider: BoxCollider { size: Vec2i { x: 100, y: 100 } },
    };
    let mut movers = vec![mover];
    let statics = vec![StaticBody {
        id: 2,
        pos: v3(5000, 5000, 0),
        collider: BoxCollider { size: Vec2i { x: 200, y: 200 } },
    }];
    let events = entity_collision(&mut movers, &statics);
    assert!(events.is_empty());
    assert_eq!(movers[0], mover);
}

#[test]
fn sight_is_blocked_by_an_obstacle_on_the_line() {
    let from = v3(0, 0, 0);
    let to = v3(1000, 0, 0);
    let blocking = vec![v3(500, 0, 0)];
    assert!(is_hindered(&blocking, &from, &to));
    let off_line = vec![v3(500, 300, 0)];
    assert!(!is_hindered(&off_line, &from, &to));
    let behind = vec![v3(-500, 0, 0)];
    assert!(!is_hindered(&behind, &from, &to));
    let beyond = vec![v3(1500, 0, 0)];
    assert!(!is_hindered(&beyond, &from, &to));
}

#[test]
fn idle_zombie_accelerates_to_the_idle_cap() {
    let mut zs = vec![ZombieMover {
        pos: v3(0, 0, 0),
        rb: Rigidbody { vx: 0, vy: 0, friction: true },
        pf: Pathfinder {
            target: v3(10_000, 0, 0),
            target_entity: false,
            target_priority: TargetPriority::Low,
        },
    }];
    zombie_ai(&mut zs, 100);
    // raw gain 1000 * 6000 * 100 / 1e6 = 600, clamped to the idle 300.
    assert_eq!(zs[0].rb.vx, 300);
    assert_eq!(zs[0].rb.vy, 0);
}

#[test]
fn hunting_zombie_keeps_the_full_gain() {
    let mut zs = vec![ZombieMover {
        pos: v3(0, 0, 0),
        rb: Rigidbody { vx: 0, vy: 0, friction: true },
        pf: Pathfinder {
            target: v3(10_000, 0, 0),
            target_entity: true,
            target_priority: TargetPriority::High,
        },
    }];
    zombie_ai(&mut zs, 100);
    assert_eq!(zs[0].rb.vx, 600);
}

#[test]
fn zombie_switches_to_the_higher_priority_target_it_can_see() {
    let mut seekers = vec![Seeker {
        pos: v3(0, 0, 0),
        pf: Pathfinder {
            target: v3(0, 0, 0),
            target_entity: false,
            target_priority: TargetPriority::Low,
        },
    }];
    let statics: Vec<Vec3i> = vec![];
    let atts = vec![
        AttackTarget { pos: v3(2000, 0, 0), priority: TargetPriority::Medium },
        AttackTarget { pos: v3(3000, 0, 0), priority: TargetPriority::High },
    ];
    survival_core::zombie::enemy_entity_pathfind(&mut seekers, &statics, &atts);
    assert!(seekers[0].pf.target_entity);
    assert_eq!(seekers[0].pf.target, v3(3000, 0, 0));
    assert_eq!(seekers[0].pf.target_priority, TargetPriority::High);
}

#[test]
fn zombie_falls_back_to_strolling_when_every_target_is_hidden() {
    let mut seekers = vec![Seeker {
        pos: v3(0, 0, 0),
        pf: Pathfinder {
            target: v3(500, 0, 0),
            target_entity: true,
            target_priority: TargetPriority::High,
        },
    }];
    // A wall right on the line to the only candidate.
    let statics = vec![v3(1000, 0, 0)];
    let atts = vec![AttackTarget { pos: v3(2000, 0, 0), priority: TargetPriority::High }];
    survival_core::zombie::enemy_entity_pathfind(&mut seekers, &statics, &atts);
    assert!(!seekers[0].pf.target_entity);
    assert_eq!(seekers[0].pf.target_priority, TargetPriority::Low);
}

#[test]
fn timers_finish_exactly_on_their_duration() {
    let mut t = GameTimer::from_millis(300, true);
    t.tick(150);
    assert!(!t.just_finished);
    t.tick(150);
    assert!(t.just_finished);
    assert_eq!(t.elapsed_ms, 0);
    t.tick(100);
    assert!(!t.just_finished);
    assert_eq!(t.elapsed_ms, 100);
}

#[test]
fn one_shot_timers_stay_finished() {
    let mut t = GameTimer::from_millis(200, false);
    t.tick(500);
    assert!(t.just_finished);
    assert_eq!(t.elapsed_ms, 200);
}
