//! Animals: they flee what they can see coming and stroll otherwise.

use vstd::prelude::*;

use crate::components::BoxCollider;
use crate::components::DestructKind;
use crate::components::EntityHealth;
use crate::components::Rigidbody;
use crate::geom::Vec2i;
use crate::geom::Vec3i;
use crate::geom::dir_milli_spec;
use crate::geom::dir3_milli_spec;
use crate::geom::dist_sq;
use crate::geom::spec_clamp;
use crate::geom::tdiv;
use crate::physics::FRAME_MS_LIMIT;
use crate::timer::GameTimer;
use crate::zombie::hindered;
use crate::zombie::is_hindered;

verus! {

/// Top speed while fleeing: 40 pixels per second, in tenths.
pub const ANIMAL_SPEED: i64 = 400;

/// Acceleration: 400 pixels per second squared, in tenths.
pub const ANIMAL_ACC: i64 = 4_000;

/// The stroll clock: one second.
pub const STROLL_TIME_MS: i64 = 1_000;

/// Animals react to hostiles within 60 pixels, squared, in tenths.
pub const REACT_DISTANCE_SQ: i64 = 360_000;

/// An animal's wandering state.
#[derive(Clone, Copy, PartialEq, Eq, Structural, Debug)]
pub struct Animal {
    pub stroll_timer: GameTimer,
    /// Unit stroll direction in thousandths.
    pub stroll_direction: Vec2i,
}

/// The stroll direction a draw (dx, dy) gives: the normalized draw.
pub open spec fn stroll_dir_of(dx: int, dy: int) -> Vec2i {
    let d = dir_milli_spec(dx, dy);
    Vec2i { x: d.0 as i64, y: d.1 as i64 }
}

/// The direction came from some centred draw.
pub open spec fn is_random_stroll(dir: Vec2i) -> bool {
    exists|dx: int, dy: int|
        -500 <= dx < 500 && -500 <= dy < 500 && dir == #[trigger] stroll_dir_of(dx, dy)
}

impl Animal {
    /// Draw a fresh stroll direction.
    pub fn set_random_stroll(&mut self)
        ensures
            final(self).stroll_timer == old(self).stroll_timer,
            is_random_stroll(final(self).stroll_direction),
            -1000 <= final(self).stroll_direction.x <= 1000,
            -1000 <= final(self).stroll_direction.y <= 1000,
    {
        let dx = crate::rng::random_in(-500, 500);
        let dy = crate::rng::random_in(-500, 500);
        let dir = crate::geom::dir_milli(dx, dy);
        self.stroll_direction = dir;
        proof {
            assert(self.stroll_direction == stroll_dir_of(dx as int, dy as int));
        }
    }
}

impl Default for Animal {
    /// A newborn animal: the stroll clock fresh, the direction drawn.
    fn default() -> (a: Animal)
        ensures
            a.stroll_timer == (GameTimer {
                elapsed_ms: 0,
                duration_ms: STROLL_TIME_MS,
                repeating: true,
                just_finished: false,
            }),
            is_random_stroll(a.stroll_direction),
            -1000 <= a.stroll_direction.x <= 1000,
            -1000 <= a.stroll_direction.y <= 1000,
    {
        let mut a = Animal {
            stroll_timer: GameTimer::from_millis(STROLL_TIME_MS, true),
            stroll_direction: Vec2i { x: 1000, y: 0 },
        };
        a.set_random_stroll();
        a
    }
}

/// Everything a freshly spawned animal carries.
#[derive(Clone, Copy, PartialEq, Eq, Structural, Debug)]
pub struct AnimalBundle {
    pub sprite_index: usize,
    pub pos: Vec3i,
    pub rb: Rigidbody,
    pub animal: Animal,
    pub collider: BoxCollider,
    pub health: EntityHealth,
}

/// Build an animal.
pub fn spawn_animal(spawn_pos: Vec3i) -> (a: AnimalBundle)
    ensures
        a.sprite_index == 21,
        a.pos == spawn_pos,
        a.rb == (Rigidbody { vx: 0, vy: 0, friction: true }),
        a.animal.stroll_timer == (GameTimer {
            elapsed_ms: 0,
            duration_ms: STROLL_TIME_MS,
            repeating: true,
            just_finished: false,
        }),
        is_random_stroll(a.animal.stroll_direction),
        a.collider == (BoxCollider { size: Vec2i { x: 100, y: 100 } }),
        a.health == (EntityHealth { val: 200, func_destruct: DestructKind::Despawn }),
{
    AnimalBundle {
        sprite_index: 21,
        pos: spawn_pos,
        rb: Rigidbody { vx: 0, vy: 0, friction: true },
        animal: Animal::default(),
        collider: BoxCollider { size: Vec2i { x: 100, y: 100 } },
        health: EntityHealth { val: 200, func_destruct: DestructKind::Despawn },
    }
}

/// An animal as the behaviour rule sees it.
#[derive(Clone, Copy, PartialEq, Eq, Structural, Debug)]
pub struct AnimalUnit {
    pub pos: Vec3i,
    pub rb: Rigidbody,
    pub animal: Animal,
}

/// The hostile is close and nothing blocks the animal's view of it.
pub open spec fn threatens(pos: Vec3i, hostile: Vec3i, statics: Seq<Vec3i>) -> bool {
    dist_sq(pos, hostile) < REACT_DISTANCE_SQ && !hindered(statics, pos, hostile)
}

/// `i` is the first visible close hostile.
pub open spec fn is_first_threat(
    pos: Vec3i,
    hostiles: Seq<Vec3i>,
    statics: Seq<Vec3i>,
    i: int,
) -> bool {
    0 <= i < hostiles.len() && threatens(pos, hostiles[i], statics) && (forall|j: int|
        0 <= j < i ==> !threatens(pos, hostiles[j], statics))
}

/// Accelerating along a unit direction and clamping the speed.
pub open spec fn accel_spec(
    rb: Rigidbody,
    dirx: int,
    diry: int,
    acc: int,
    speed: int,
    dt_ms: int,
) -> Rigidbody {
    Rigidbody {
        vx: spec_clamp(rb.vx + tdiv(dirx * acc * dt_ms, 1_000_000), -speed, speed) as i64,
        vy: spec_clamp(rb.vy + tdiv(diry * acc * dt_ms, 1_000_000), -speed, speed) as i64,
        friction: rb.friction,
    }
}

/// How one frame relates the new animal to the old: it flees the first
/// visible close hostile at full speed; with none in sight it strolls at a
/// quarter speed until its clock rings, then draws a new direction.
pub open spec fn animal_frame_rel(
    o: AnimalUnit,
    f: AnimalUnit,
    hostiles: Seq<Vec3i>,
    statics: Seq<Vec3i>,
    dt_ms: i64,
) -> bool {
    &&& f.pos == o.pos
    &&& (exists|i: int| is_first_threat(o.pos, hostiles, statics, i)) ==> exists|i: int|
        {
            &&& #[trigger] is_first_threat(o.pos, hostiles, statics, i)
            &&& {
                let away = dir3_milli_spec(
                    o.pos.x - hostiles[i].x,
                    o.pos.y - hostiles[i].y,
                    o.pos.z - hostiles[i].z,
                );
                f.rb == accel_spec(
                    o.rb,
                    away.0,
                    away.1,
                    ANIMAL_ACC as int,
                    ANIMAL_SPEED as int,
                    dt_ms as int,
                )
            }
            &&& f.animal == o.animal
        }
    &&& !(exists|i: int| is_first_threat(o.pos, hostiles, statics, i)) ==> {
        if !o.animal.stroll_timer.just_finished {
            f.rb == accel_spec(
                o.rb,
                o.animal.stroll_direction.x as int,
                o.animal.stroll_direction.y as int,
                ANIMAL_ACC as int,
                (ANIMAL_SPEED / 4) as int,
                dt_ms as int,
            ) && f.animal == o.animal
        } else {
            f.rb == o.rb && f.animal.stroll_timer == o.animal.stroll_timer && is_random_stroll(
                f.animal.stroll_direction,
            )
        }
    }
}

/// One frame of every animal's behaviour.
pub fn animal_behaviour(
    units: &mut Vec<AnimalUnit>,
    hostiles: &Vec<Vec3i>,
    statics: &Vec<Vec3i>,
    dt_ms: i64,
)
    requires
        forall|i: int|
            0 <= i < old(units)@.len() ==> (#[trigger] old(units)@[i]).pos.in_world()
                && crate::physics::speed_ok(old(units)@[i].rb.vx) && crate::physics::speed_ok(
                old(units)@[i].rb.vy,
            ) && -1000 <= old(units)@[i].animal.stroll_direction.x <= 1000 && -1000 <= old(
                units,
            )@[i].animal.stroll_direction.y <= 1000,
        forall|i: int| 0 <= i < hostiles@.len() ==> (#[trigger] hostiles@[i]).in_world(),
        forall|i: int| 0 <= i < statics@.len() ==> (#[trigger] statics@[i]).in_world(),
        0 <= dt_ms <= FRAME_MS_LIMIT,
    ensures
        final(units)@.len() == old(units)@.len(),
        forall|i: int|
            0 <= i < old(units)@.len() ==> animal_frame_rel(
                #[trigger] old(units)@[i],
                final(units)@[i],
                hostiles@,
                statics@,
                dt_ms,
            ),
{
    let n = units.len();
    let nh = hostiles.len();
    let mut i: usize = 0;
    while i < n
        invariant
            0 <= i <= n,
            n == units@.len(),
            n == old(units)@.len(),
            nh == hostiles@.len(),
            0 <= dt_ms <= FRAME_MS_LIMIT,
            forall|j: int|
                0 <= j < n ==> (#[trigger] old(units)@[j]).pos.in_world()
                    && crate::physics::speed_ok(old(units)@[j].rb.vx) && crate::physics::speed_ok(
                    old(units)@[j].rb.vy,
                ) && -1000 <= old(units)@[j].animal.stroll_direction.x <= 1000 && -1000 <= old(
                    units,
                )@[j].animal.stroll_direction.y <= 1000,
            forall|j: int| 0 <= j < nh ==> (#[trigger] hostiles@[j]).in_world(),
            forall|j: int| 0 <= j < statics@.len() ==> (#[trigger] statics@[j]).in_world(),
            forall|j: int| i <= j < n ==> units@[j] == #[trigger] old(units)@[j],
            forall|j: int|
                0 <= j < i ==> animal_frame_rel(
                    #[trigger] old(units)@[j],
                    units@[j],
                    hostiles@,
                    statics@,
                    dt_ms,
                ),
        decreases n - i,
    {
        let mut u = units[i];
        proof {
            assert(u == old(units)@[i as int]);
        }
        let ghost u0 = u;
        let mut fled: bool = false;
        let mut h: usize = 0;
        while h < nh
            invariant
                0 <= h <= nh,
                nh == hostiles@.len(),
                u0.pos.in_world(),
                crate::physics::speed_ok(u0.rb.vx),
                crate::physics::speed_ok(u0.rb.vy),
                0 <= dt_ms <= FRAME_MS_LIMIT,
                forall|k: int| 0 <= k < nh ==> (#[trigger] hostiles@[k]).in_world(),
                forall|k: int| 0 <= k < statics@.len() ==> (#[trigger] statics@[k]).in_world(),
                fled ==> h == nh,
                !fled ==> u == u0 && forall|k: int|
                    0 <= k < h ==> !threatens(u0.pos, hostiles@[k], statics@),
                fled ==> exists|k: int|
                    {
                        &&& #[trigger] is_first_threat(u0.pos, hostiles@, statics@, k)
                        &&& u.rb == accel_spec(
                            u0.rb,
                            dir3_milli_spec(
                                u0.pos.x - hostiles@[k].x,
                                u0.pos.y - hostiles@[k].y,
                                u0.pos.z - hostiles@[k].z,
                            ).0,
                            dir3_milli_spec(
                                u0.pos.x - hostiles@[k].x,
                                u0.pos.y - hostiles@[k].y,
                                u0.pos.z - hostiles@[k].z,
                            ).1,
                            ANIMAL_ACC as int,
                            ANIMAL_SPEED as int,
                            dt_ms as int,
                        )
                        &&& u.animal == u0.animal
                        &&& u.pos == u0.pos
                    },
            decreases nh - h,
        {
            let hostile = hostiles[h];
            let dsq = crate::geom::dist_sq_i128(u.pos, hostile);
            if dsq < REACT_DISTANCE_SQ as i128 {
                if !is_hindered(statics, &u.pos, &hostile) {
                    proof {
                        assert(threatens(u0.pos, hostiles@[h as int], statics@));
                        assert(is_first_threat(u0.pos, hostiles@, statics@, h as int));
                    }
                    let away = crate::geom::dir3_milli(
                        u.pos.x - hostile.x,
                        u.pos.y - hostile.y,
                        u.pos.z - hostile.z,
                    );
                    u.rb.acc_clamped(away, ANIMAL_ACC, ANIMAL_SPEED, dt_ms);
                    fled = true;
                    h = nh;
                } else {
                    h = h + 1;
                }
            } else {
                h = h + 1;
            }
        }
        if !fled {
            proof {
                assert(!(exists|k: int| is_first_threat(u0.pos, hostiles@, statics@, k)));
            }
            if !u.animal.stroll_timer.just_finished {
                let dir = u.animal.stroll_direction;
                u.rb.acc_clamped(dir, ANIMAL_ACC, ANIMAL_SPEED / 4, dt_ms);
            } else {
                u.animal.set_random_stroll();
            }
        }
        proof {
            assert(animal_frame_rel(old(units)@[i as int], u, hostiles@, statics@, dt_ms));
        }
        units.set(i, u);
        i = i + 1;
    }
}

} // verus!
