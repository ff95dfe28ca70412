//! Turrets: power gating, target picking and fire control.
//!
//! A turret works only within the power radius of a windmill. Each frame it
//! scans the zombies in range, keeps the last one it can see unobstructed,
//! and runs a three-timer fire control: a cool-down clock, a salvo clock
//! that resets the cool-down, and a bullet clock that times the shots.

use vstd::prelude::*;

use crate::components::Attackable;
use crate::components::DespawnAction;
use crate::components::DestructKind;
use crate::components::EntityHealth;
use crate::components::TargetPriority;
use crate::components::TempTurretDestroyed;
use crate::components::TurretBulletTimer;
use crate::components::TurretCoolTimer;
use crate::components::TurretShootTimer;
use crate::components::TurretTargeting;
use crate::geom::Vec2i;
use crate::geom::Vec3i;
use crate::geom::dist_sq;
use crate::physics::FRAME_MS_LIMIT;
use crate::timer::GameTimer;
use crate::weapons::BulletBundle;
use crate::blocks::POWER_RADIUS_SQ;
use crate::weapons::bullet_bundle;
use crate::zombie::hindered;
use crate::zombie::is_hindered;

verus! {

/// A turret shoots at zombies within 150 pixels (squared, in tenths).
pub const TURRET_RANGE_SQ: i64 = 2_250_000;

/// A turret with its fire-control timers.
#[derive(Clone, Copy, PartialEq, Eq, Structural, Debug)]
pub struct TurretUnit {
    pub pos: Vec3i,
    pub shoot_timer: TurretShootTimer,
    pub cool_timer: TurretCoolTimer,
    pub bullet_timer: TurretBulletTimer,
}

/// Some windmill stands within the power radius.
pub open spec fn powered(pos: Vec3i, windmills: Seq<Vec3i>) -> bool {
    exists|i: int| 0 <= i < windmills.len() && dist_sq(pos, windmills[i]) < POWER_RADIUS_SQ
}

/// Whether a turret has power from any windmill.
pub fn turret_powered(pos: &Vec3i, windmills: &Vec<Vec3i>) -> (r: bool)
    requires
        pos.in_world(),
        forall|i: int| 0 <= i < windmills@.len() ==> (#[trigger] windmills@[i]).in_world(),
    ensures
        r == powered(*pos, windmills@),
{
    let n = windmills.len();
    let mut i: usize = 0;
    while i < n
        invariant
            0 <= i <= n,
            n == windmills@.len(),
            pos.in_world(),
            forall|k: int| 0 <= k < n ==> (#[trigger] windmills@[k]).in_world(),
            forall|k: int| 0 <= k < i ==> dist_sq(*pos, windmills@[k]) >= POWER_RADIUS_SQ,
        decreases n - i,
    {
        let d = crate::geom::dist_sq_i128(*pos, windmills[i]);
        if d < POWER_RADIUS_SQ as i128 {
            return true;
        }
        i = i + 1;
    }
    false
}

/// How one zombie changes the pick: in range and in clear sight, it becomes
/// the target, so the last such zombie wins.
pub open spec fn pick_step(
    acc: TurretTargeting,
    pos: Vec3i,
    z: Vec3i,
    statics: Seq<Vec3i>,
) -> TurretTargeting {
    if dist_sq(pos, z) > TURRET_RANGE_SQ {
        acc
    } else if !hindered(statics, pos, z) {
        TurretTargeting { target: z, shoot: true }
    } else {
        acc
    }
}

/// The pick after the first `n` zombies.
pub open spec fn pick_upto(
    pos: Vec3i,
    zombies: Seq<Vec3i>,
    statics: Seq<Vec3i>,
    n: int,
) -> TurretTargeting
    decreases n,
{
    if n <= 0 {
        TurretTargeting { target: Vec3i { x: 0, y: 0, z: 0 }, shoot: false }
    } else {
        pick_step(pick_upto(pos, zombies, statics, n - 1), pos, zombies[n - 1], statics)
    }
}

/// Scan the zombies and keep the last visible one in range.
pub fn turret_select(pos: &Vec3i, zombies: &Vec<Vec3i>, statics: &Vec<Vec3i>) -> (r:
    TurretTargeting)
    requires
        pos.in_world(),
        forall|i: int| 0 <= i < zombies@.len() ==> (#[trigger] zombies@[i]).in_world(),
        forall|i: int| 0 <= i < statics@.len() ==> (#[trigger] statics@[i]).in_world(),
    ensures
        r == pick_upto(*pos, zombies@, statics@, zombies@.len() as int),
        r.shoot ==> r.target.in_world(),
{
    let n = zombies.len();
    let mut acc = TurretTargeting { target: Vec3i { x: 0, y: 0, z: 0 }, shoot: false };
    let mut i: usize = 0;
    while i < n
        invariant
            0 <= i <= n,
            n == zombies@.len(),
            pos.in_world(),
            forall|k: int| 0 <= k < n ==> (#[trigger] zombies@[k]).in_world(),
            forall|k: int| 0 <= k < statics@.len() ==> (#[trigger] statics@[k]).in_world(),
            acc == pick_upto(*pos, zombies@, statics@, i as int),
            acc.target.in_world(),
        decreases n - i,
    {
        let z = zombies[i];
        let d = crate::geom::dist_sq_i128(*pos, z);
        if d <= TURRET_RANGE_SQ as i128 {
            if !is_hindered(statics, pos, &z) {
                acc = TurretTargeting { target: z, shoot: true };
            }
        }
        i = i + 1;
    }
    acc
}

/// What one frame does to the three fire-control timers, and whether a shot
/// leaves the barrel: while the cool-down clock has not finished it keeps
/// running; once it has, and with a target in sight, the salvo clock runs
/// (resetting the cool-down when it finishes) and the bullet clock times
/// the shots.
pub open spec fn fire_control_spec(shoot: bool, sh: GameTimer, co: GameTimer, bu: GameTimer, dt_ms: i64) -> (
    GameTimer,
    GameTimer,
    GameTimer,
    bool,
) {
    if !co.just_finished {
        (sh, co.spec_tick(dt_ms), bu, false)
    } else if shoot {
        let sh2 = sh.spec_tick(dt_ms);
        let co2 = if sh2.just_finished {
            co.spec_tick(dt_ms)
        } else {
            co
        };
        let bu2 = bu.spec_tick(dt_ms);
        (sh2, co2, bu2, bu2.just_finished)
    } else {
        (sh, co, bu, false)
    }
}

/// What one frame does to one turret, and the bullet it fires, if any.
pub open spec fn turret_step(
    t: TurretUnit,
    zombies: Seq<Vec3i>,
    statics: Seq<Vec3i>,
    windmills: Seq<Vec3i>,
    dt_ms: i64,
    spread_milli: int,
) -> (TurretUnit, Option<BulletBundle>) {
    if !powered(t.pos, windmills) {
        (t, None)
    } else {
        let pick = pick_upto(t.pos, zombies, statics, zombies.len() as int);
        let fc = fire_control_spec(pick.shoot, t.shoot_timer.0, t.cool_timer.0, t.bullet_timer.0, dt_ms);
        let t2 = TurretUnit {
            shoot_timer: TurretShootTimer(fc.0),
            cool_timer: TurretCoolTimer(fc.1),
            bullet_timer: TurretBulletTimer(fc.2),
            ..t
        };
        if fc.3 {
            let dir = crate::geom::dir_milli_spec(
                pick.target.x - t.pos.x,
                pick.target.y - t.pos.y,
            );
            (
                t2,
                Some(
                    bullet_bundle(
                        t.pos,
                        Vec2i { x: dir.0 as i64, y: dir.1 as i64 },
                        spread_milli,
                    ),
                ),
            )
        } else {
            (t2, None)
        }
    }
}

/// The bullets the first `k` turrets fire, in order.
pub open spec fn fired_upto(
    turrets: Seq<TurretUnit>,
    zombies: Seq<Vec3i>,
    statics: Seq<Vec3i>,
    windmills: Seq<Vec3i>,
    dt_ms: i64,
    spreads: Seq<i64>,
    k: int,
) -> Seq<BulletBundle>
    decreases k,
{
    if k <= 0 {
        Seq::empty()
    } else {
        let prev = fired_upto(turrets, zombies, statics, windmills, dt_ms, spreads, k - 1);
        let shot = turret_step(
            turrets[k - 1],
            zombies,
            statics,
            windmills,
            dt_ms,
            spreads[k - 1] as int,
        ).1;
        if shot is Some {
            prev + seq![shot->Some_0]
        } else {
            prev
        }
    }
}

/// Run every powered turret's targeting and fire control for one frame and
/// return the bullets fired. `spreads` holds one random aim perturbation per
/// turret, in milliradians.
pub fn turret_targeting(
    turrets: &mut Vec<TurretUnit>,
    zombies: &Vec<Vec3i>,
    statics: &Vec<Vec3i>,
    windmills: &Vec<Vec3i>,
    spreads: &Vec<i64>,
    dt_ms: i64,
) -> (bullets: Vec<BulletBundle>)
    requires
        forall|i: int|
            0 <= i < old(turrets)@.len() ==> (#[trigger] old(turrets)@[i]).pos.in_world() && old(
                turrets,
            )@[i].shoot_timer.0.wf() && old(turrets)@[i].cool_timer.0.wf() && old(
                turrets,
            )@[i].bullet_timer.0.wf(),
        forall|i: int| 0 <= i < zombies@.len() ==> (#[trigger] zombies@[i]).in_world(),
        forall|i: int| 0 <= i < statics@.len() ==> (#[trigger] statics@[i]).in_world(),
        forall|i: int| 0 <= i < windmills@.len() ==> (#[trigger] windmills@[i]).in_world(),
        spreads@.len() == old(turrets)@.len(),
        forall|i: int|
            0 <= i < spreads@.len() ==> -crate::weapons::SPREAD_LIMIT <= #[trigger] spreads@[i]
                <= crate::weapons::SPREAD_LIMIT,
        0 <= dt_ms <= FRAME_MS_LIMIT,
    ensures
        final(turrets)@.len() == old(turrets)@.len(),
        forall|i: int|
            0 <= i < old(turrets)@.len() ==> (#[trigger] final(turrets)@[i]) == turret_step(
                old(turrets)@[i],
                zombies@,
                statics@,
                windmills@,
                dt_ms,
                spreads@[i] as int,
            ).0,
        bullets@ == fired_upto(
            old(turrets)@,
            zombies@,
            statics@,
            windmills@,
            dt_ms,
            spreads@,
            old(turrets)@.len() as int,
        ),
{
    let n = turrets.len();
    let mut bullets: Vec<BulletBundle> = Vec::new();
    let mut i: usize = 0;
    while i < n
        invariant
            0 <= i <= n,
            n == turrets@.len(),
            n == old(turrets)@.len(),
            n == spreads@.len(),
            0 <= dt_ms <= FRAME_MS_LIMIT,
            forall|j: int|
                0 <= j < n ==> (#[trigger] old(turrets)@[j]).pos.in_world() && old(
                    turrets,
                )@[j].shoot_timer.0.wf() && old(turrets)@[j].cool_timer.0.wf() && old(
                    turrets,
                )@[j].bullet_timer.0.wf(),
            forall|k: int| 0 <= k < zombies@.len() ==> (#[trigger] zombies@[k]).in_world(),
            forall|k: int| 0 <= k < statics@.len() ==> (#[trigger] statics@[k]).in_world(),
            forall|k: int| 0 <= k < windmills@.len() ==> (#[trigger] windmills@[k]).in_world(),
            forall|k: int|
                0 <= k < n ==> -crate::weapons::SPREAD_LIMIT <= #[trigger] spreads@[k]
                    <= crate::weapons::SPREAD_LIMIT,
            forall|j: int| i <= j < n ==> turrets@[j] == #[trigger] old(turrets)@[j],
            forall|j: int|
                0 <= j < i ==> (#[trigger] turrets@[j]) == turret_step(
                    old(turrets)@[j],
                    zombies@,
                    statics@,
                    windmills@,
                    dt_ms,
                    spreads@[j] as int,
                ).0,
            bullets@ == fired_upto(
                old(turrets)@,
                zombies@,
                statics@,
                windmills@,
                dt_ms,
                spreads@,
                i as int,
            ),
        decreases n - i,
    {
        let mut t = turrets[i];
        proof {
            assert(t == old(turrets)@[i as int]);
        }
        if turret_powered(&t.pos, windmills) {
            let pick = turret_select(&t.pos, zombies, statics);
            if !t.cool_timer.0.just_finished {
                t.cool_timer.0.tick(dt_ms);
            } else if pick.shoot {
                t.shoot_timer.0.tick(dt_ms);
                if t.shoot_timer.0.just_finished {
                    t.cool_timer.0.tick(dt_ms);
                }
                t.bullet_timer.0.tick(dt_ms);
                if t.bullet_timer.0.just_finished {
                    let dir = crate::geom::dir_milli(
                        pick.target.x - t.pos.x,
                        pick.target.y - t.pos.y,
                    );
                    let b = crate::weapons::spawn_bullet(t.pos, dir, spreads[i]);
                    bullets.push(b);
                }
            }
        }
        turrets.set(i, t);
        i = i + 1;
    }
    bullets
}

/// Everything a freshly built turret carries.
#[derive(Clone, Copy, PartialEq, Eq, Structural, Debug)]
pub struct TurretBundle {
    pub sprite_index: usize,
    pub pos: Vec3i,
    pub shoot_timer: TurretShootTimer,
    pub cool_timer: TurretCoolTimer,
    pub bullet_timer: TurretBulletTimer,
    pub health: EntityHealth,
    pub attackable: Attackable,
}

/// The components of a turret built at `spawn_pos`.
pub open spec fn turret_bundle(spawn_pos: Vec3i) -> TurretBundle {
    TurretBundle {
        sprite_index: 5,
        pos: spawn_pos,
        shoot_timer: TurretShootTimer(
            GameTimer { elapsed_ms: 0, duration_ms: 1500, repeating: true, just_finished: false },
        ),
        bullet_timer: TurretBulletTimer(
            GameTimer { elapsed_ms: 0, duration_ms: 500, repeating: true, just_finished: false },
        ),
        cool_timer: TurretCoolTimer(
            GameTimer { elapsed_ms: 0, duration_ms: 6000, repeating: true, just_finished: false },
        ),
        health: EntityHealth { val: 3000, func_destruct: DestructKind::TurretDestroyed },
        attackable: Attackable(TargetPriority::Medium),
    }
}

/// Build a turret.
pub fn spawn_turret(spawn_pos: Vec3i) -> (t: TurretBundle)
    ensures
        t == turret_bundle(spawn_pos),
{
    TurretBundle {
        sprite_index: 5,
        pos: spawn_pos,
        shoot_timer: TurretShootTimer(GameTimer::from_millis(1500, true)),
        bullet_timer: TurretBulletTimer(GameTimer::from_millis(500, true)),
        cool_timer: TurretCoolTimer(GameTimer::from_millis(6000, true)),
        health: EntityHealth { val: 3000, func_destruct: DestructKind::TurretDestroyed },
        attackable: Attackable(TargetPriority::Medium),
    }
}

/// The turret the world starts with, 120 pixels above the origin.
pub fn turret_setup() -> (t: TurretBundle)
    ensures
        t == turret_bundle(Vec3i { x: 0, y: 1200, z: 30 }),
{
    spawn_turret(Vec3i { x: 0, y: 1200, z: 30 })
}

/// One piece of debris from a destroyed turret.
#[derive(Clone, Copy, PartialEq, Eq, Structural, Debug)]
pub struct DebrisSpawn {
    pub sprite_index: usize,
    pub pos: Vec3i,
    pub temp: TempTurretDestroyed,
}

/// Scatter five turret-block sprites up to 20 pixels from the wreck.
pub fn spawn_destroyed(spawn_pos: Vec3i) -> (debris: Vec<DebrisSpawn>)
    requires
        spawn_pos.in_world(),
    ensures
        debris@.len() == 5,
        forall|k: int|
            0 <= k < 5 ==> {
                let d = #[trigger] debris@[k];
                &&& d.sprite_index == 5
                &&& spawn_pos.x <= d.pos.x < spawn_pos.x + 200
                &&& spawn_pos.y <= d.pos.y < spawn_pos.y + 200
                &&& spawn_pos.z <= d.pos.z < spawn_pos.z + 200
                &&& d.temp == TempTurretDestroyed(
                    GameTimer {
                        elapsed_ms: 0,
                        duration_ms: 1500,
                        repeating: false,
                        just_finished: false,
                    },
                )
            },
{
    let mut debris: Vec<DebrisSpawn> = Vec::new();
    let mut k: usize = 0;
    while k < 5
        invariant
            0 <= k <= 5,
            debris@.len() == k,
            spawn_pos.in_world(),
            forall|j: int|
                0 <= j < k ==> {
                    let d = #[trigger] debris@[j];
                    &&& d.sprite_index == 5
                    &&& spawn_pos.x <= d.pos.x < spawn_pos.x + 200
                    &&& spawn_pos.y <= d.pos.y < spawn_pos.y + 200
                    &&& spawn_pos.z <= d.pos.z < spawn_pos.z + 200
                    &&& d.temp == TempTurretDestroyed(
                        GameTimer {
                            elapsed_ms: 0,
                            duration_ms: 1500,
                            repeating: false,
                            just_finished: false,
                        },
                    )
                },
        decreases 5 - k,
    {
        let ox = crate::rng::random_in(0, 200);
        let oy = crate::rng::random_in(0, 200);
        let oz = crate::rng::random_in(0, 200);
        let d = DebrisSpawn {
            sprite_index: 5,
            pos: Vec3i { x: spawn_pos.x + ox, y: spawn_pos.y + oy, z: spawn_pos.z + oz },
            temp: TempTurretDestroyed(GameTimer::from_millis(1500, false)),
        };
        debris.push(d);
        k = k + 1;
    }
    debris
}

/// What a spent turret leaves: it despawns and scatters debris.
pub fn turret_destruct(entity: u64, parent_pos: Vec3i) -> (r: (DespawnAction, Vec<DebrisSpawn>))
    requires
        parent_pos.in_world(),
    ensures
        r.0 == (DespawnAction { entity, recursive: false }),
        r.1@.len() == 5,
{
    let d = spawn_destroyed(parent_pos);
    (DespawnAction { entity, recursive: false }, d)
}

} // verus!
