//! Zombie behaviour: line-of-sight occlusion, pathfinding and attacks.
//!
//! The occlusion test: a static point blocks the line from `from` to `to`
//! when it lies within 20 pixels of that line, closer than the target, and
//! in front of the walker. Closeness to the line is compared on squared
//! integer lengths, so the test is exact.

use vstd::prelude::*;

use crate::components::BoxCollider;
use crate::components::DestructKind;
use crate::components::EntityHealth;
use crate::components::HEALTH_CAP;
use crate::components::Pathfinder;
use crate::components::Rigidbody;
use crate::components::NewTargetTimer;
use crate::components::TargetPriority;
use crate::components::TempZombieDead;
use crate::components::ZombieAttackTimer;
use crate::geom::Vec2i;
use crate::geom::Vec3i;
use crate::geom::dir_milli_spec;
use crate::geom::dir_milli;
use crate::geom::dist_sq;
use crate::geom::spec_clamp;
use crate::geom::tdiv;
use crate::physics::FRAME_MS_LIMIT;
use crate::timer::GameTimer;
use crate::physics::speed_ok;

verus! {

/// Acceleration toward the target, tenths of a pixel per second squared.
pub const ZOMBIE_ACC: i64 = 6_000;

/// Speed cap while chasing an attackable entity.
pub const ZOMB_ANGRY_SPEED: i64 = 1_800;

/// Speed cap while strolling.
pub const ZOMB_IDLE_SPEED: i64 = 300;

/// Half-width of the sight corridor: 20 pixels, in tenths.
pub const SIGHT_WIDTH: i64 = 200;

/// Damage of one zombie blow, tenths of a health point.
pub const ATTACK_DMG: i64 = 100;

/// A static point blocks the sight line from `from` to `to` when its plane
/// distance to that line is under 20 pixels, it is closer than the target,
/// and it lies in front of the walker.
pub open spec fn blocks_sight(from: Vec3i, to: Vec3i, s: Vec3i) -> bool {
    let ux = to.x - from.x;
    let uy = to.y - from.y;
    let px = s.x - from.x;
    let py = s.y - from.y;
    let cross = px * uy - py * ux;
    &&& cross * cross < SIGHT_WIDTH * SIGHT_WIDTH * (ux * ux + uy * uy)
    &&& dist_sq(from, s) < dist_sq(from, to)
    &&& (s.x - from.x) * (to.x - from.x) + (s.y - from.y) * (to.y - from.y) + (s.z - from.z) * (
    to.z - from.z) > 0
}

/// Some listed static point blocks the sight line.
pub open spec fn hindered(statics: Seq<Vec3i>, from: Vec3i, to: Vec3i) -> bool {
    exists|i: int| 0 <= i < statics.len() && blocks_sight(from, to, statics[i])
}

/// Whether any static obstacle blocks the straight line between two points.
pub fn is_hindered(static_vec: &Vec<Vec3i>, from_trans: &Vec3i, to_trans: &Vec3i) -> (r: bool)
    requires
        forall|i: int| 0 <= i < static_vec@.len() ==> (#[trigger] static_vec@[i]).in_world(),
        from_trans.in_world(),
        to_trans.in_world(),
    ensures
        r == hindered(static_vec@, *from_trans, *to_trans),
{
    let ux: i128 = (to_trans.x as i128) - (from_trans.x as i128);
    let uy: i128 = (to_trans.y as i128) - (from_trans.y as i128);
    proof {
        crate::geom::lemma_mul_abs_bound(ux as int, ux as int, 2_000_000_000, 2_000_000_000);
        crate::geom::lemma_mul_abs_bound(uy as int, uy as int, 2_000_000_000, 2_000_000_000);
    }
    let usq: i128 = ux * ux + uy * uy;
    let target_sq: i128 = crate::geom::dist_sq_i128(*from_trans, *to_trans);
    let n = static_vec.len();
    let mut i: usize = 0;
    while i < n
        invariant
            0 <= i <= n,
            n == static_vec@.len(),
            forall|k: int| 0 <= k < n ==> (#[trigger] static_vec@[k]).in_world(),
            from_trans.in_world(),
            to_trans.in_world(),
            ux == to_trans.x - from_trans.x,
            uy == to_trans.y - from_trans.y,
            usq == ux * ux + uy * uy,
            -8_000_000_000_000_000_000 <= usq <= 8_000_000_000_000_000_000,
            target_sq == dist_sq(*from_trans, *to_trans),
            forall|k: int| 0 <= k < i ==> !blocks_sight(*from_trans, *to_trans, static_vec@[k]),
        decreases n - i,
    {
        let s = static_vec[i];
        let px: i128 = (s.x as i128) - (from_trans.x as i128);
        let py: i128 = (s.y as i128) - (from_trans.y as i128);
        proof {
            crate::geom::lemma_mul_abs_bound(px as int, uy as int, 2_000_000_000, 2_000_000_000);
            crate::geom::lemma_mul_abs_bound(py as int, ux as int, 2_000_000_000, 2_000_000_000);
        }
        let cross: i128 = px * uy - py * ux;
        proof {
            crate::geom::lemma_mul_abs_bound(
                cross as int,
                cross as int,
                8_000_000_000_000_000_000,
                8_000_000_000_000_000_000,
            );
            crate::geom::lemma_mul_abs_bound(usq as int, 40_000, 8_000_000_000_000_000_000, 40_000);
        }
        let lhs: i128 = cross * cross;
        let rhs: i128 = 40_000 * usq;
        if lhs < rhs {
            let stat_sq: i128 = crate::geom::dist_sq_i128(*from_trans, s);
            if stat_sq < target_sq {
                let pz: i128 = (s.z as i128) - (from_trans.z as i128);
                let uz: i128 = (to_trans.z as i128) - (from_trans.z as i128);
                proof {
                    crate::geom::lemma_mul_abs_bound(
                        px as int,
                        ux as int,
                        2_000_000_000,
                        2_000_000_000,
                    );
                    crate::geom::lemma_mul_abs_bound(
                        py as int,
                        uy as int,
                        2_000_000_000,
                        2_000_000_000,
                    );
                    crate::geom::lemma_mul_abs_bound(
                        pz as int,
                        uz as int,
                        2_000_000_000,
                        2_000_000_000,
                    );
                }
                let dot: i128 = px * ux + py * uy + pz * uz;
                if dot > 0 {
                    proof {
                        assert(blocks_sight(*from_trans, *to_trans, static_vec@[i as int]));
                    }
                    return true;
                }
            }
        }
        i = i + 1;
    }
    false
}

/// A zombie as the steering rule sees it.
#[derive(Clone, Copy, PartialEq, Eq, Structural, Debug)]
pub struct ZombieMover {
    pub pos: Vec3i,
    pub rb: Rigidbody,
    pub pf: Pathfinder,
}

/// What one frame of steering does to a zombie's velocity: farther than
/// 20 pixels from its target it accelerates toward it, capped at the angry
/// speed when hunting an entity and at the idle speed otherwise.
pub open spec fn zombie_ai_spec(z: ZombieMover, dt_ms: int) -> Rigidbody {
    if dist_sq(z.pos, z.pf.target) > SIGHT_WIDTH * SIGHT_WIDTH {
        let dir = dir_milli_spec(z.pf.target.x - z.pos.x, z.pf.target.y - z.pos.y);
        let speed: int = if z.pf.target_entity {
            ZOMB_ANGRY_SPEED as int
        } else {
            ZOMB_IDLE_SPEED as int
        };
        Rigidbody {
            vx: spec_clamp(z.rb.vx + tdiv(dir.0 * ZOMBIE_ACC * dt_ms, 1_000_000), -speed, speed)
                as i64,
            vy: spec_clamp(z.rb.vy + tdiv(dir.1 * ZOMBIE_ACC * dt_ms, 1_000_000), -speed, speed)
                as i64,
            friction: z.rb.friction,
        }
    } else {
        z.rb
    }
}

/// Steering never drives a zombie past its speed cap: after one frame each
/// velocity component is within the angry cap, or wherever it already was.
pub proof fn law_zombie_speed_capped(z: ZombieMover, dt_ms: int)
    ensures
        -ZOMB_ANGRY_SPEED <= zombie_ai_spec(z, dt_ms).vx <= ZOMB_ANGRY_SPEED || zombie_ai_spec(
            z,
            dt_ms,
        ).vx == z.rb.vx,
        -ZOMB_ANGRY_SPEED <= zombie_ai_spec(z, dt_ms).vy <= ZOMB_ANGRY_SPEED || zombie_ai_spec(
            z,
            dt_ms,
        ).vy == z.rb.vy,
{
}

/// Steer every zombie toward its current target for one frame.
pub fn zombie_ai(zombies: &mut Vec<ZombieMover>, dt_ms: i64)
    requires
        forall|i: int|
            0 <= i < old(zombies)@.len() ==> (#[trigger] old(zombies)@[i]).pos.in_world()
                && old(zombies)@[i].pf.target.in_world() && speed_ok(old(zombies)@[i].rb.vx)
                && speed_ok(old(zombies)@[i].rb.vy),
        0 <= dt_ms <= FRAME_MS_LIMIT,
    ensures
        final(zombies)@.len() == old(zombies)@.len(),
        forall|i: int|
            0 <= i < old(zombies)@.len() ==> (#[trigger] final(zombies)@[i]) == (ZombieMover {
                rb: zombie_ai_spec(old(zombies)@[i], dt_ms as int),
                ..old(zombies)@[i]
            }),
{
    let n = zombies.len();
    let mut i: usize = 0;
    while i < n
        invariant
            0 <= i <= n,
            n == zombies@.len(),
            0 <= dt_ms <= FRAME_MS_LIMIT,
            forall|j: int|
                0 <= j < n ==> (#[trigger] old(zombies)@[j]).pos.in_world()
                    && old(zombies)@[j].pf.target.in_world() && speed_ok(old(zombies)@[j].rb.vx)
                    && speed_ok(old(zombies)@[j].rb.vy),
            forall|j: int| i <= j < n ==> zombies@[j] == #[trigger] old(zombies)@[j],
            forall|j: int|
                0 <= j < i ==> (#[trigger] zombies@[j]) == (ZombieMover {
                    rb: zombie_ai_spec(old(zombies)@[j], dt_ms as int),
                    ..old(zombies)@[j]
                }),
        decreases n - i,
    {
        let mut z = zombies[i];
        proof {
            assert(z == old(zombies)@[i as int]);
        }
        let dsq = crate::geom::dist_sq_i128(z.pos, z.pf.target);
        if dsq > (SIGHT_WIDTH * SIGHT_WIDTH) as i128 {
            let dir = dir_milli(z.pf.target.x - z.pos.x, z.pf.target.y - z.pos.y);
            let speed = if z.pf.target_entity {
                ZOMB_ANGRY_SPEED
            } else {
                ZOMB_IDLE_SPEED
            };
            z.rb.acc_clamped(dir, ZOMBIE_ACC, speed, dt_ms);
        }
        zombies.set(i, z);
        i = i + 1;
    }
}

/// Exact test of one static point against one sight line.
fn blocks_sight_exec(from: &Vec3i, to: &Vec3i, s: &Vec3i) -> (r: bool)
    requires
        from.in_world(),
        to.in_world(),
        s.in_world(),
    ensures
        r == blocks_sight(*from, *to, *s),
{
    let mut one = Vec::new();
    one.push(*s);
    let r = is_hindered(&one, from, to);
    proof {
        assert(one@[0] == *s);
        if blocks_sight(*from, *to, *s) {
            assert(blocks_sight(*from, *to, one@[0]));
            assert(hindered(one@, *from, *to));
        }
        if hindered(one@, *from, *to) {
            let w = choose|k: int| 0 <= k < one@.len() && blocks_sight(*from, *to, one@[k]);
            assert(w == 0);
        }
    }
    r
}

/// State while scanning for the nearest sight-blocking obstacle:
/// whether one was found, where, and its squared distance.
#[derive(Clone, Copy, PartialEq, Eq, Structural, Debug)]
pub struct BlockerScan {
    pub found: bool,
    pub best: Vec3i,
    pub best_sq: i128,
}

/// How one obstacle changes the scan: a blocker closer than the best so far
/// replaces it.
pub open spec fn scan_step(acc: BlockerScan, from: Vec3i, target: Vec3i, s: Vec3i) -> BlockerScan {
    if blocks_sight(from, target, s) && dist_sq(from, s) < acc.best_sq {
        BlockerScan { found: true, best: s, best_sq: dist_sq(from, s) as i128 }
    } else {
        acc
    }
}

/// The scan after the first `n` obstacles. The search starts from a
/// 10000-pixel horizon.
pub open spec fn scan_upto(statics: Seq<Vec3i>, from: Vec3i, target: Vec3i, n: int) -> BlockerScan
    decreases n,
{
    if n <= 0 {
        BlockerScan { found: false, best: Vec3i { x: 0, y: 0, z: 0 }, best_sq: 10_000_000_000 }
    } else {
        scan_step(scan_upto(statics, from, target, n - 1), from, target, statics[n - 1])
    }
}

/// What one pathfinding pass does: when a nearest obstacle blocks the way
/// to the target, and the target is neither next to that obstacle nor next
/// to the player, the zombie walks to the obstacle instead.
pub open spec fn enemy_pathfind_spec(
    pf: Pathfinder,
    pos: Vec3i,
    statics: Seq<Vec3i>,
    player: Vec3i,
) -> Pathfinder {
    let acc = scan_upto(statics, pos, pf.target, statics.len() as int);
    if dist_sq(pf.target, acc.best) > SIGHT_WIDTH * SIGHT_WIDTH && dist_sq(player, pf.target)
        > 2500 && acc.found {
        Pathfinder { target: acc.best, ..pf }
    } else {
        pf
    }
}

/// A pathfinding zombie: where it stands and where it is headed.
#[derive(Clone, Copy, PartialEq, Eq, Structural, Debug)]
pub struct Seeker {
    pub pos: Vec3i,
    pub pf: Pathfinder,
}

/// Divert every zombie around the nearest obstacle that blocks its way.
pub fn enemy_pathfind(seekers: &mut Vec<Seeker>, statics: &Vec<Vec3i>, player: &Vec3i)
    requires
        forall|i: int|
            0 <= i < old(seekers)@.len() ==> (#[trigger] old(seekers)@[i]).pos.in_world() && old(
                seekers,
            )@[i].pf.target.in_world(),
        forall|k: int| 0 <= k < statics@.len() ==> (#[trigger] statics@[k]).in_world(),
        player.in_world(),
    ensures
        final(seekers)@.len() == old(seekers)@.len(),
        forall|i: int|
            0 <= i < old(seekers)@.len() ==> (#[trigger] final(seekers)@[i]) == (Seeker {
                pf: enemy_pathfind_spec(
                    old(seekers)@[i].pf,
                    old(seekers)@[i].pos,
                    statics@,
                    *player,
                ),
                ..old(seekers)@[i]
            }),
{
    let n = seekers.len();
    let ns = statics.len();
    let mut i: usize = 0;
    while i < n
        invariant
            0 <= i <= n,
            n == seekers@.len(),
            ns == statics@.len(),
            forall|j: int|
                0 <= j < n ==> (#[trigger] old(seekers)@[j]).pos.in_world() && old(
                    seekers,
                )@[j].pf.target.in_world(),
            forall|k: int| 0 <= k < ns ==> (#[trigger] statics@[k]).in_world(),
            player.in_world(),
            forall|j: int| i <= j < n ==> seekers@[j] == #[trigger] old(seekers)@[j],
            forall|j: int|
                0 <= j < i ==> (#[trigger] seekers@[j]) == (Seeker {
                    pf: enemy_pathfind_spec(
                        old(seekers)@[j].pf,
                        old(seekers)@[j].pos,
                        statics@,
                        *player,
                    ),
                    ..old(seekers)@[j]
                }),
        decreases n - i,
    {
        let mut sk = seekers[i];
        proof {
            assert(sk == old(seekers)@[i as int]);
        }
        let mut acc = BlockerScan {
            found: false,
            best: Vec3i { x: 0, y: 0, z: 0 },
            best_sq: 10_000_000_000,
        };
        let mut j: usize = 0;
        while j < ns
            invariant
                0 <= j <= ns,
                ns == statics@.len(),
                forall|k: int| 0 <= k < ns ==> (#[trigger] statics@[k]).in_world(),
                sk.pos.in_world(),
                sk.pf.target.in_world(),
                acc.best.in_world(),
                acc == scan_upto(statics@, sk.pos, sk.pf.target, j as int),
            decreases ns - j,
        {
            let s = statics[j];
            if blocks_sight_exec(&sk.pos, &sk.pf.target, &s) {
                let d = crate::geom::dist_sq_i128(sk.pos, s);
                if d < acc.best_sq {
                    acc = BlockerScan { found: true, best: s, best_sq: d };
                }
            }
            j = j + 1;
        }
        let far_from_best = crate::geom::dist_sq_i128(sk.pf.target, acc.best) > (SIGHT_WIDTH
            * SIGHT_WIDTH) as i128;
        let far_from_player = crate::geom::dist_sq_i128(*player, sk.pf.target) > 2500;
        if far_from_best && far_from_player && acc.found {
            sk.pf.target = acc.best;
        }
        seekers.set(i, sk);
        i = i + 1;
    }
}

/// An attackable entity a zombie may switch onto.
#[derive(Clone, Copy, PartialEq, Eq, Structural, Debug)]
pub struct AttackTarget {
    pub pos: Vec3i,
    pub priority: TargetPriority,
}

/// How one candidate changes a zombie's choice: an unobstructed target of
/// strictly higher priority is taken.
pub open spec fn choose_step(
    st: (Pathfinder, bool),
    pos: Vec3i,
    att: AttackTarget,
    statics: Seq<Vec3i>,
) -> (Pathfinder, bool) {
    if !hindered(statics, pos, att.pos) && att.priority.spec_rank()
        > st.0.target_priority.spec_rank() {
        (
            Pathfinder { target: att.pos, target_entity: true, target_priority: att.priority },
            true,
        )
    } else {
        st
    }
}

/// The choice after the first `n` candidates.
pub open spec fn choose_upto(
    pf0: Pathfinder,
    pos: Vec3i,
    atts: Seq<AttackTarget>,
    statics: Seq<Vec3i>,
    n: int,
) -> (Pathfinder, bool)
    decreases n,
{
    if n <= 0 {
        (pf0, false)
    } else {
        choose_step(choose_upto(pf0, pos, atts, statics, n - 1), pos, atts[n - 1], statics)
    }
}

/// What one target-selection pass does: climb to ever higher-priority
/// visible targets; if none was taken, fall back to strolling.
pub open spec fn enemy_entity_pathfind_spec(
    pf0: Pathfinder,
    pos: Vec3i,
    atts: Seq<AttackTarget>,
    statics: Seq<Vec3i>,
) -> Pathfinder {
    let st = choose_upto(pf0, pos, atts, statics, atts.len() as int);
    if !st.1 {
        Pathfinder { target_entity: false, target_priority: TargetPriority::Low, ..st.0 }
    } else {
        st.0
    }
}

/// Let every zombie pick the most valuable visible attackable entity.
pub fn enemy_entity_pathfind(
    seekers: &mut Vec<Seeker>,
    statics: &Vec<Vec3i>,
    atts: &Vec<AttackTarget>,
)
    requires
        forall|i: int| 0 <= i < old(seekers)@.len() ==> (#[trigger] old(seekers)@[i]).pos.in_world(),
        forall|k: int| 0 <= k < statics@.len() ==> (#[trigger] statics@[k]).in_world(),
        forall|k: int| 0 <= k < atts@.len() ==> (#[trigger] atts@[k]).pos.in_world(),
    ensures
        final(seekers)@.len() == old(seekers)@.len(),
        forall|i: int|
            0 <= i < old(seekers)@.len() ==> (#[trigger] final(seekers)@[i]) == (Seeker {
                pf: enemy_entity_pathfind_spec(
                    old(seekers)@[i].pf,
                    old(seekers)@[i].pos,
                    atts@,
                    statics@,
                ),
                ..old(seekers)@[i]
            }),
{
    let n = seekers.len();
    let na = atts.len();
    let mut i: usize = 0;
    while i < n
        invariant
            0 <= i <= n,
            n == seekers@.len(),
            n == old(seekers)@.len(),
            na == atts@.len(),
            forall|j: int| 0 <= j < n ==> (#[trigger] old(seekers)@[j]).pos.in_world(),
            forall|k: int| 0 <= k < statics@.len() ==> (#[trigger] statics@[k]).in_world(),
            forall|k: int| 0 <= k < na ==> (#[trigger] atts@[k]).pos.in_world(),
            forall|j: int| i <= j < n ==> seekers@[j] == #[trigger] old(seekers)@[j],
            forall|j: int|
                0 <= j < i ==> (#[trigger] seekers@[j]) == (Seeker {
                    pf: enemy_entity_pathfind_spec(
                        old(seekers)@[j].pf,
                        old(seekers)@[j].pos,
                        atts@,
                        statics@,
                    ),
                    ..old(seekers)@[j]
                }),
        decreases n - i,
    {
        let mut sk = seekers[i];
        proof {
            assert(sk == old(seekers)@[i as int]);
        }
        let ghost pf0 = sk.pf;
        let mut found: bool = false;
        let mut j: usize = 0;
        while j < na
            invariant
                0 <= j <= na,
                na == atts@.len(),
                forall|k: int| 0 <= k < statics@.len() ==> (#[trigger] statics@[k]).in_world(),
                forall|k: int| 0 <= k < na ==> (#[trigger] atts@[k]).pos.in_world(),
                sk.pos.in_world(),
                0 <= i < n,
                n == old(seekers)@.len(),
                sk.pos == old(seekers)@[i as int].pos,
                pf0 == old(seekers)@[i as int].pf,
                (sk.pf, found) == choose_upto(pf0, sk.pos, atts@, statics@, j as int),
            decreases na - j,
        {
            let att = atts[j];
            if !is_hindered(statics, &sk.pos, &att.pos) {
                if att.priority.rank() > sk.pf.target_priority.rank() {
                    sk.pf.target_entity = true;
                    sk.pf.target = att.pos;
                    sk.pf.target_priority = att.priority;
                    found = true;
                }
            }
            j = j + 1;
        }
        if !found {
            sk.pf.target_entity = false;
            sk.pf.target_priority = TargetPriority::Low;
        }
        proof {
            assert(sk == Seeker {
                pf: enemy_entity_pathfind_spec(
                    old(seekers)@[i as int].pf,
                    old(seekers)@[i as int].pos,
                    atts@,
                    statics@,
                ),
                ..old(seekers)@[i as int]
            });
        }
        seekers.set(i, sk);
        i = i + 1;
    }
}

/// A zombie as the attack rule sees it: where it stands and its blow timer.
#[derive(Clone, Copy, PartialEq, Eq, Structural, Debug)]
pub struct ZombieAttacker {
    pub pos: Vec3i,
    pub timer: GameTimer,
}

/// An entity with health that zombies can hurt.
#[derive(Clone, Copy, PartialEq, Eq, Structural, Debug)]
pub struct HealthTarget {
    pub pos: Vec3i,
    pub health: EntityHealth,
}

/// One zombie's blow timer run across the first `n` targets: the timer is
/// ticked once per target within 20 pixels, and each tick that finishes it
/// costs that target one blow of damage, clamped into [0, HEALTH_CAP].
pub open spec fn attack_row(
    t0: GameTimer,
    zpos: Vec3i,
    hs: Seq<HealthTarget>,
    dt_ms: i64,
    n: int,
) -> (GameTimer, Seq<HealthTarget>)
    decreases n,
{
    if n <= 0 {
        (t0, hs)
    } else {
        let prev = attack_row(t0, zpos, hs, dt_ms, n - 1);
        let h = prev.1[n - 1];
        if dist_sq(zpos, h.pos) < SIGHT_WIDTH * SIGHT_WIDTH {
            let t2 = prev.0.spec_tick(dt_ms);
            if t2.just_finished {
                (
                    t2,
                    prev.1.update(
                        n - 1,
                        HealthTarget {
                            health: EntityHealth {
                                val: spec_clamp(
                                    h.health.val - ATTACK_DMG,
                                    0,
                                    HEALTH_CAP as int,
                                ) as i64,
                                ..h.health
                            },
                            ..h
                        },
                    ),
                )
            } else {
                (t2, prev.1)
            }
        } else {
            prev
        }
    }
}

/// The first `k` zombies' attacks, in order.
pub open spec fn attack_all(
    zs: Seq<ZombieAttacker>,
    hs: Seq<HealthTarget>,
    dt_ms: i64,
    k: int,
) -> (Seq<ZombieAttacker>, Seq<HealthTarget>)
    decreases k,
{
    if k <= 0 {
        (zs, hs)
    } else {
        let prev = attack_all(zs, hs, dt_ms, k - 1);
        let row = attack_row(
            prev.0[k - 1].timer,
            prev.0[k - 1].pos,
            prev.1,
            dt_ms,
            prev.1.len() as int,
        );
        (prev.0.update(k - 1, ZombieAttacker { timer: row.0, ..prev.0[k - 1] }), row.1)
    }
}

/// Tick every zombie's blow timer against every nearby target and apply the
/// finished blows, in order.
pub fn attack_health_entities(
    zombies: &mut Vec<ZombieAttacker>,
    targets: &mut Vec<HealthTarget>,
    dt_ms: i64,
)
    requires
        forall|i: int|
            0 <= i < old(zombies)@.len() ==> (#[trigger] old(zombies)@[i]).pos.in_world() && old(
                zombies,
            )@[i].timer.wf(),
        forall|j: int|
            0 <= j < old(targets)@.len() ==> (#[trigger] old(targets)@[j]).pos.in_world()
                && -HEALTH_CAP <= old(targets)@[j].health.val <= HEALTH_CAP,
        0 <= dt_ms <= FRAME_MS_LIMIT,
    ensures
        final(zombies)@ == attack_all(
            old(zombies)@,
            old(targets)@,
            dt_ms,
            old(zombies)@.len() as int,
        ).0,
        final(targets)@ == attack_all(
            old(zombies)@,
            old(targets)@,
            dt_ms,
            old(zombies)@.len() as int,
        ).1,
{
    let n = zombies.len();
    let nt = targets.len();
    let mut i: usize = 0;
    while i < n
        invariant
            0 <= i <= n,
            n == zombies@.len(),
            n == old(zombies)@.len(),
            nt == targets@.len(),
            nt == old(targets)@.len(),
            0 <= dt_ms <= FRAME_MS_LIMIT,
            forall|j: int|
                0 <= j < n ==> (#[trigger] old(zombies)@[j]).pos.in_world() && old(
                    zombies,
                )@[j].timer.wf(),
            forall|j: int|
                0 <= j < nt ==> (#[trigger] old(targets)@[j]).pos.in_world() && -HEALTH_CAP <= old(
                    targets,
                )@[j].health.val <= HEALTH_CAP,
            forall|j: int|
                0 <= j < nt ==> (#[trigger] targets@[j]).pos == old(targets)@[j].pos && -HEALTH_CAP
                    <= targets@[j].health.val <= HEALTH_CAP,
            forall|j: int| 0 <= j < n ==> (#[trigger] zombies@[j]).timer.wf(),
            forall|j: int| 0 <= j < n ==> (#[trigger] zombies@[j]).pos == old(zombies)@[j].pos,
            zombies@ == attack_all(old(zombies)@, old(targets)@, dt_ms, i as int).0,
            targets@ == attack_all(old(zombies)@, old(targets)@, dt_ms, i as int).1,
        decreases n - i,
    {
        let mut z = zombies[i];
        let ghost z0 = z;
        let ghost targets0 = targets@;
        let mut j: usize = 0;
        while j < nt
            invariant
                0 <= j <= nt,
                nt == targets@.len(),
                nt == targets0.len(),
                0 <= dt_ms <= FRAME_MS_LIMIT,
                z.pos.in_world(),
                z.timer.wf(),
                z.pos == z0.pos,
                forall|k: int|
                    0 <= k < nt ==> (#[trigger] targets0[k]).pos.in_world() && -HEALTH_CAP
                        <= targets0[k].health.val <= HEALTH_CAP,
                forall|k: int|
                    0 <= k < nt ==> (#[trigger] targets@[k]).pos == targets0[k].pos && -HEALTH_CAP
                        <= targets@[k].health.val <= HEALTH_CAP,
                z.timer == attack_row(z0.timer, z0.pos, targets0, dt_ms, j as int).0,
                targets@ == attack_row(z0.timer, z0.pos, targets0, dt_ms, j as int).1,
            decreases nt - j,
        {
            let h = targets[j];
            let dsq = crate::geom::dist_sq_i128(z.pos, h.pos);
            if dsq < (SIGHT_WIDTH * SIGHT_WIDTH) as i128 {
                z.timer.tick(dt_ms);
                if z.timer.just_finished {
                    let newval = crate::geom::clamp_i64(h.health.val - ATTACK_DMG, 0, HEALTH_CAP);
                    targets.set(
                        j,
                        HealthTarget {
                            health: EntityHealth { val: newval, ..h.health },
                            ..h
                        },
                    );
                }
            }
            j = j + 1;
        }
        zombies.set(i, z);
        i = i + 1;
        proof {
            assert(zombies@ == attack_all(old(zombies)@, old(targets)@, dt_ms, i as int).0);
            assert(targets@ == attack_all(old(zombies)@, old(targets)@, dt_ms, i as int).1);
        }
    }
}

/// A strolling zombie waiting for a fresh destination.
#[derive(Clone, Copy, PartialEq, Eq, Structural, Debug)]
pub struct RetargetAgent {
    pub pos: Vec3i,
    pub timer: GameTimer,
    pub pf: Pathfinder,
}

/// The agent stands at its stroll point and hunts nothing, so its timer runs.
pub open spec fn wants_new_target(a: RetargetAgent) -> bool {
    dist_sq(a.pos, a.pf.target) < SIGHT_WIDTH * SIGHT_WIDTH && !a.pf.target_entity
}

/// A stroll point offset from the player by (ox, oy).
pub open spec fn offset_target(player: Vec3i, ox: int, oy: int) -> Vec3i {
    Vec3i { x: (player.x + ox) as i64, y: (player.y + oy) as i64, z: player.z }
}

/// How a retargeting frame relates the new agent to the old: the timer ran,
/// and if it finished, the agent now heads for a random point near the player.
pub open spec fn retargeted(o: RetargetAgent, f: RetargetAgent, player: Vec3i, dt_ms: i64) -> bool {
    &&& f.pos == o.pos
    &&& f.timer == o.timer.spec_tick(dt_ms)
    &&& !f.timer.just_finished ==> f.pf == o.pf
    &&& f.timer.just_finished ==> exists|ox: int, oy: int|
        0 <= ox < 300 && 0 <= oy < 300 && f.pf == (Pathfinder {
            target: #[trigger] offset_target(player, ox, oy),
            ..o.pf
        })
}

/// Give every idle zombie standing at its stroll point a fresh random point
/// near the player once its timer finishes. The new point lies up to 30
/// pixels east and north of the player.
pub fn random_new_target(agents: &mut Vec<RetargetAgent>, player: &Vec3i, dt_ms: i64)
    requires
        forall|i: int|
            0 <= i < old(agents)@.len() ==> (#[trigger] old(agents)@[i]).pos.in_world() && old(
                agents,
            )@[i].pf.target.in_world() && old(agents)@[i].timer.wf(),
        player.in_world(),
        0 <= dt_ms <= FRAME_MS_LIMIT,
    ensures
        final(agents)@.len() == old(agents)@.len(),
        forall|i: int|
            0 <= i < old(agents)@.len() && !wants_new_target(#[trigger] old(agents)@[i])
                ==> final(agents)@[i] == old(agents)@[i],
        forall|i: int|
            0 <= i < old(agents)@.len() && wants_new_target(#[trigger] old(agents)@[i])
                ==> retargeted(old(agents)@[i], final(agents)@[i], *player, dt_ms),
{
    let n = agents.len();
    let mut i: usize = 0;
    while i < n
        invariant
            0 <= i <= n,
            n == agents@.len(),
            n == old(agents)@.len(),
            player.in_world(),
            0 <= dt_ms <= FRAME_MS_LIMIT,
            forall|j: int|
                0 <= j < n ==> (#[trigger] old(agents)@[j]).pos.in_world() && old(
                    agents,
                )@[j].pf.target.in_world() && old(agents)@[j].timer.wf(),
            forall|j: int| i <= j < n ==> agents@[j] == #[trigger] old(agents)@[j],
            forall|j: int|
                0 <= j < i && !wants_new_target(#[trigger] old(agents)@[j]) ==> agents@[j] == old(
                    agents,
                )@[j],
            forall|j: int|
                0 <= j < i && wants_new_target(#[trigger] old(agents)@[j]) ==> retargeted(
                    old(agents)@[j],
                    agents@[j],
                    *player,
                    dt_ms,
                ),
        decreases n - i,
    {
        let mut a = agents[i];
        proof {
            assert(a == old(agents)@[i as int]);
        }
        let dsq = crate::geom::dist_sq_i128(a.pos, a.pf.target);
        if dsq < (SIGHT_WIDTH * SIGHT_WIDTH) as i128 && !a.pf.target_entity {
            a.timer.tick(dt_ms);
            if a.timer.just_finished {
                let ox = crate::rng::random_in(0, 300);
                let oy = crate::rng::random_in(0, 300);
                a.pf.target = Vec3i { x: player.x + ox, y: player.y + oy, z: player.z };
                proof {
                    let o = old(agents)@[i as int];
                    assert(a.pf == (Pathfinder {
                        target: offset_target(*player, ox as int, oy as int),
                        ..o.pf
                    }));
                }
            }
        }
        agents.set(i, a);
        i = i + 1;
    }
}

/// Everything a freshly spawned zombie carries.
#[derive(Clone, Copy, PartialEq, Eq, Structural, Debug)]
pub struct ZombieBundle {
    pub sprite_index: usize,
    pub pos: Vec3i,
    /// Sprite scale in thousandths; the heavy kind is drawn twice as large.
    pub scale_milli: i64,
    pub rb: Rigidbody,
    pub pf: Pathfinder,
    pub attack_timer: ZombieAttackTimer,
    pub collider: BoxCollider,
    pub new_target_timer: NewTargetTimer,
    pub health: EntityHealth,
}

/// The components of an ordinary zombie at `spawn_pos`, with the stroll
/// target offset (tx, ty).
pub open spec fn zombie_bundle(spawn_pos: Vec3i, tx: int, ty: int) -> ZombieBundle {
    ZombieBundle {
        sprite_index: 4,
        pos: spawn_pos,
        scale_milli: 1000,
        rb: Rigidbody { vx: 0, vy: 0, friction: true },
        pf: Pathfinder {
            target: Vec3i { x: tx as i64, y: ty as i64, z: 0 },
            target_priority: TargetPriority::Low,
            target_entity: false,
        },
        attack_timer: ZombieAttackTimer(
            GameTimer { elapsed_ms: 0, duration_ms: 300, repeating: true, just_finished: false },
        ),
        collider: BoxCollider { size: Vec2i { x: 100, y: 100 } },
        new_target_timer: NewTargetTimer(
            GameTimer { elapsed_ms: 0, duration_ms: 5000, repeating: true, just_finished: false },
        ),
        health: EntityHealth { val: 200, func_destruct: DestructKind::ZombieDead },
    }
}

/// The heavy kind: twice the size, twice the box, fifteen times the health.
pub open spec fn chungus_bundle(spawn_pos: Vec3i, tx: int, ty: int) -> ZombieBundle {
    ZombieBundle {
        scale_milli: 2000,
        collider: BoxCollider { size: Vec2i { x: 300, y: 300 } },
        health: EntityHealth { val: 3000, func_destruct: DestructKind::ZombieDead },
        ..zombie_bundle(spawn_pos, tx, ty)
    }
}

/// Build an ordinary zombie. The stroll target offsets come from the
/// spawner's random draw.
pub fn spawn_zombie(spawn_pos: Vec3i, tx: i64, ty: i64) -> (z: ZombieBundle)
    requires
        0 <= tx < 300,
        0 <= ty < 300,
    ensures
        z == zombie_bundle(spawn_pos, tx as int, ty as int),
{
    ZombieBundle {
        sprite_index: 4,
        pos: spawn_pos,
        scale_milli: 1000,
        rb: Rigidbody { vx: 0, vy: 0, friction: true },
        pf: Pathfinder {
            target: Vec3i { x: tx, y: ty, z: 0 },
            target_priority: TargetPriority::Low,
            target_entity: false,
        },
        attack_timer: ZombieAttackTimer(GameTimer::from_millis(300, true)),
        collider: BoxCollider { size: Vec2i { x: 100, y: 100 } },
        new_target_timer: NewTargetTimer(GameTimer::from_millis(5000, true)),
        health: EntityHealth { val: 200, func_destruct: DestructKind::ZombieDead },
    }
}

/// Build a heavy zombie.
pub fn spawn_chungus_zombie(spawn_pos: Vec3i, tx: i64, ty: i64) -> (z: ZombieBundle)
    requires
        0 <= tx < 300,
        0 <= ty < 300,
    ensures
        z == chungus_bundle(spawn_pos, tx as int, ty as int),
{
    let base = spawn_zombie(spawn_pos, tx, ty);
    ZombieBundle {
        scale_milli: 2000,
        collider: BoxCollider { size: Vec2i { x: 300, y: 300 } },
        health: EntityHealth { val: 3000, func_destruct: DestructKind::ZombieDead },
        ..base
    }
}

/// A point on the spawn ring, 900 pixels out, at ground layer two: the
/// draw (dx, dy) fixes the direction; a degenerate draw falls back east.
pub open spec fn ring_point(dx: int, dy: int) -> Vec3i {
    let d = crate::geom::sqrt_floor(dx * dx + dy * dy);
    if d == 0 {
        Vec3i { x: 9000, y: 0, z: 20 }
    } else {
        Vec3i { x: tdiv(dx * 9000, d) as i64, y: tdiv(dy * 9000, d) as i64, z: 20 }
    }
}

/// Compute a spawn-ring point from a direction draw.
fn ring_point_exec(dx: i64, dy: i64) -> (r: Vec3i)
    requires
        -1000 <= dx <= 1000,
        -1000 <= dy <= 1000,
    ensures
        r == ring_point(dx as int, dy as int),
        r.in_world(),
{
    proof {
        crate::geom::lemma_square_bound(dx as int);
        crate::geom::lemma_square_bound(dy as int);
    }
    let sq128: i128 = (dx as i128) * (dx as i128) + (dy as i128) * (dy as i128);
    proof {
        assert(0 <= sq128 < 0x1_0000_0000_0000_0000);
    }
    let d64 = crate::geom::isqrt_u64(sq128 as u64);
    proof {
        assert(crate::geom::is_isqrt(sq128 as int, d64 as int));
    }
    if d64 == 0 {
        Vec3i { x: 9000, y: 0, z: 20 }
    } else {
        let d: i64 = d64 as i64;
        proof {
            crate::geom::lemma_component_le_root(dx as int, sq128 as int, d as int);
            crate::geom::lemma_component_le_root(dy as int, sq128 as int, d as int);
            crate::geom::lemma_mul_abs_bound(dx as int, 9000, d as int, 9000);
            crate::geom::lemma_tdiv_bound(dx as int * 9000, d as int, d as int * 9000);
            crate::geom::lemma_mul_abs_bound(dy as int, 9000, d as int, 9000);
            crate::geom::lemma_tdiv_bound(dy as int * 9000, d as int, d as int * 9000);
            vstd::arithmetic::div_mod::lemma_div_by_multiple(9000, d as int);
            assert(d as int * 9000 == 9000 * (d as int));
        }
        Vec3i { x: crate::geom::div_t(dx * 9000, d), y: crate::geom::div_t(dy * 9000, d), z: 20 }
    }
}

/// Run the wave clock for one frame and decide whether a zombie spawns.
/// Waves pause while the timeout clock has not finished; during a wave a
/// zombie spawns whenever the spawn clock finishes, on the 900-pixel ring,
/// and one draw in twenty makes it the heavy kind.
pub fn zombie_spawner(
    spawn_timer: &mut GameTimer,
    timeout_timer: &mut GameTimer,
    level_timer: &mut GameTimer,
    dt_ms: i64,
) -> (r: Option<ZombieBundle>)
    requires
        old(spawn_timer).wf(),
        old(timeout_timer).wf(),
        old(level_timer).wf(),
        0 <= dt_ms <= FRAME_MS_LIMIT,
    ensures
        !old(timeout_timer).just_finished ==> *final(timeout_timer) == old(
            timeout_timer,
        ).spec_tick(dt_ms) && *final(spawn_timer) == *old(spawn_timer) && *final(level_timer)
            == *old(level_timer) && r is None,
        old(timeout_timer).just_finished ==> *final(level_timer) == old(level_timer).spec_tick(
            dt_ms,
        ) && (if final(level_timer).just_finished {
            *final(timeout_timer) == old(timeout_timer).spec_tick(dt_ms) && *final(spawn_timer)
                == *old(spawn_timer) && r is None
        } else {
            *final(timeout_timer) == *old(timeout_timer) && *final(spawn_timer) == old(
                spawn_timer,
            ).spec_tick(dt_ms) && (r is None <==> !final(spawn_timer).just_finished)
        }),
        r is Some ==> exists|dx: int, dy: int, tx: int, ty: int|
            -1000 <= dx < 1000 && -1000 <= dy < 1000 && 0 <= tx < 300 && 0 <= ty < 300 && (
            r->Some_0 == zombie_bundle(ring_point(dx, dy), tx, ty) || r->Some_0 == chungus_bundle(
                ring_point(dx, dy),
                tx,
                ty,
            )),
{
    if timeout_timer.just_finished {
        level_timer.tick(dt_ms);
        if !level_timer.just_finished {
            spawn_timer.tick(dt_ms);
            if spawn_timer.just_finished {
                let dx = crate::rng::random_in(-1000, 1000);
                let dy = crate::rng::random_in(-1000, 1000);
                let start_pos = ring_point_exec(dx, dy);
                let tx = crate::rng::random_in(0, 300);
                let ty = crate::rng::random_in(0, 300);
                let kind = crate::rng::random_in(0, 1000);
                let b = if kind >= 50 {
                    spawn_zombie(start_pos, tx, ty)
                } else {
                    spawn_chungus_zombie(start_pos, tx, ty)
                };
                proof {
                    assert(-1000 <= (dx as int) && (dx as int) < 1000 && -1000 <= (dy as int) && (
                    dy as int) < 1000 && 0 <= (tx as int) && (tx as int) < 300 && 0 <= (ty as int)
                        && (ty as int) < 300 && (b == zombie_bundle(
                        ring_point(dx as int, dy as int),
                        tx as int,
                        ty as int,
                    ) || b == chungus_bundle(ring_point(dx as int, dy as int), tx as int, ty as int)));
                }
                Some(b)
            } else {
                None
            }
        } else {
            timeout_timer.tick(dt_ms);
            None
        }
    } else {
        timeout_timer.tick(dt_ms);
        None
    }
}

/// What a dead zombie leaves behind: a corpse sprite that fades after five
/// seconds.
#[derive(Clone, Copy, PartialEq, Eq, Structural, Debug)]
pub struct DeadBundle {
    pub sprite_index: usize,
    pub pos: Vec3i,
    pub temp: TempZombieDead,
}

/// Build the corpse left where a zombie fell.
pub fn spawn_dead(spawn_trans: Vec3i) -> (d: DeadBundle)
    ensures
        d == (DeadBundle {
            sprite_index: 10,
            pos: spawn_trans,
            temp: TempZombieDead(
                GameTimer {
                    elapsed_ms: 0,
                    duration_ms: 5000,
                    repeating: false,
                    just_finished: false,
                },
            ),
        }),
{
    DeadBundle {
        sprite_index: 10,
        pos: spawn_trans,
        temp: TempZombieDead(GameTimer::from_millis(5000, false)),
    }
}

} // verus!
