//! Bullets: spawning, flight damage, and the player's trigger.
//!
//! A bullet flies at 500 pixels per second along a unit direction in
//! thousandths, perturbed by a small random spread given in milliradians
//! and applied as a small-angle rotation.

use vstd::prelude::*;

use crate::components::BoxCollider;
use crate::components::CollisionEvent;
use crate::components::DespawnAction;
use crate::components::Magazine;
use crate::components::Rigidbody;
use crate::geom::Vec2i;
use crate::geom::Vec3i;
use crate::geom::dist_sq;
use crate::geom::tdiv;
use crate::physics::FRAME_MS_LIMIT;
use crate::timer::GameTimer;
use crate::zombie::HealthTarget;

verus! {

/// Bullet speed: 500 pixels per second, in tenths.
pub const BLLT_SPEED_MILLI: i64 = 5;

/// Rounds in a full magazine.
pub const MAGAZINE_SIZE: u8 = 30;

/// Damage of one bullet, tenths of a health point.
pub const BLLT_DMG: i64 = 330;

/// Widest spread the turret ever draws, in milliradians.
pub const SPREAD_LIMIT: i64 = 350;

/// Everything a freshly fired bullet carries.
#[derive(Clone, Copy, PartialEq, Eq, Structural, Debug)]
pub struct BulletBundle {
    pub custom_size: Vec2i,
    pub pos: Vec3i,
    pub rb: Rigidbody,
    pub collider: BoxCollider,
}

/// The flight velocity: the unit direction rotated by the small spread
/// angle, scaled to 500 pixels per second.
pub open spec fn bullet_velocity(dir: Vec2i, spread_milli: int) -> (int, int) {
    let rx = dir.x - tdiv(dir.y * spread_milli, 1000);
    let ry = dir.y + tdiv(dir.x * spread_milli, 1000);
    (rx * BLLT_SPEED_MILLI, ry * BLLT_SPEED_MILLI)
}

/// The components of a bullet fired from `spawn_at` along `dir` with the
/// given spread.
pub open spec fn bullet_bundle(spawn_at: Vec3i, dir: Vec2i, spread_milli: int) -> BulletBundle {
    BulletBundle {
        custom_size: Vec2i { x: 50, y: 50 },
        pos: spawn_at,
        rb: Rigidbody {
            vx: bullet_velocity(dir, spread_milli).0 as i64,
            vy: bullet_velocity(dir, spread_milli).1 as i64,
            friction: false,
        },
        collider: BoxCollider { size: Vec2i { x: 50, y: 50 } },
    }
}

/// Build a bullet. `dir` is a unit direction in thousandths; the spread is
/// a small random angle in milliradians.
pub fn spawn_bullet(spawn_at: Vec3i, dir: Vec2i, spread_milli: i64) -> (b: BulletBundle)
    requires
        -1000 <= dir.x <= 1000,
        -1000 <= dir.y <= 1000,
        -SPREAD_LIMIT <= spread_milli <= SPREAD_LIMIT,
    ensures
        b == bullet_bundle(spawn_at, dir, spread_milli as int),
        crate::physics::speed_ok(b.rb.vx),
        crate::physics::speed_ok(b.rb.vy),
{
    proof {
        crate::geom::lemma_mul_abs_bound(dir.y as int, spread_milli as int, 1000, 350);
        crate::geom::lemma_tdiv_bound((dir.y as int) * (spread_milli as int), 1000, 350_000);
        crate::geom::lemma_mul_abs_bound(dir.x as int, spread_milli as int, 1000, 350);
        crate::geom::lemma_tdiv_bound((dir.x as int) * (spread_milli as int), 1000, 350_000);
    }
    let rx = dir.x - crate::geom::div_t(dir.y * spread_milli, 1000);
    let ry = dir.y + crate::geom::div_t(dir.x * spread_milli, 1000);
    BulletBundle {
        custom_size: Vec2i { x: 50, y: 50 },
        pos: spawn_at,
        rb: Rigidbody { vx: rx * BLLT_SPEED_MILLI, vy: ry * BLLT_SPEED_MILLI, friction: false },
        collider: BoxCollider { size: Vec2i { x: 50, y: 50 } },
    }
}

/// One frame of the player's trigger: the gun timer reloads itself toward
/// ready; with rounds left and the button held, a ready gun fires toward
/// the mouse; with the magazine empty, the reload timer refills it.
/// Returns the bullet fired, if any.
pub fn shoot(
    gun_timer: &mut GameTimer,
    reload_timer: &mut GameTimer,
    magazine: &mut Magazine,
    player_pos: Vec3i,
    mouse: Vec3i,
    btn_pressed: bool,
    spread_milli: i64,
    dt_ms: i64,
) -> (r: Option<BulletBundle>)
    requires
        old(gun_timer).wf(),
        old(reload_timer).wf(),
        player_pos.in_world(),
        mouse.in_world(),
        -50 <= spread_milli <= 50,
        0 <= dt_ms <= FRAME_MS_LIMIT,
    ensures
        ({
            let gun_mid = if !old(gun_timer).just_finished {
                old(gun_timer).spec_tick(dt_ms)
            } else {
                *old(gun_timer)
            };
            let fired = old(magazine).0 != 0 && btn_pressed && gun_mid.just_finished;
            &&& fired ==> {
                let dir = crate::geom::dir_milli_spec(
                    mouse.x - player_pos.x,
                    mouse.y - player_pos.y,
                );
                &&& r == Some(
                    bullet_bundle(
                        player_pos,
                        Vec2i { x: dir.0 as i64, y: dir.1 as i64 },
                        spread_milli as int,
                    ),
                )
                &&& *final(gun_timer) == gun_mid.spec_tick(dt_ms)
                &&& final(magazine).0 == old(magazine).0 - 1
                &&& *final(reload_timer) == *old(reload_timer)
            }
            &&& !fired && old(magazine).0 != 0 ==> {
                &&& r is None
                &&& *final(gun_timer) == gun_mid
                &&& *final(magazine) == *old(magazine)
                &&& *final(reload_timer) == *old(reload_timer)
            }
            &&& old(magazine).0 == 0 ==> {
                &&& r is None
                &&& *final(gun_timer) == gun_mid
                &&& *final(reload_timer) == old(reload_timer).spec_tick(dt_ms)
                &&& final(magazine).0 == (if final(reload_timer).just_finished {
                    MAGAZINE_SIZE
                } else {
                    old(magazine).0
                })
            }
        }),
{
    if !gun_timer.just_finished {
        gun_timer.tick(dt_ms);
    }
    if magazine.0 != 0 {
        if btn_pressed && gun_timer.just_finished {
            let dir = crate::geom::dir_milli(mouse.x - player_pos.x, mouse.y - player_pos.y);
            let b = spawn_bullet(player_pos, dir, spread_milli);
            gun_timer.tick(dt_ms);
            magazine.0 = magazine.0 - 1;
            return Some(b);
        }
        None
    } else {
        reload_timer.tick(dt_ms);
        if reload_timer.just_finished {
            magazine.0 = MAGAZINE_SIZE;
        }
        None
    }
}

/// A bullet in flight.
#[derive(Clone, Copy, PartialEq, Eq, Structural, Debug)]
pub struct BulletState {
    pub id: u64,
    pub pos: Vec3i,
}

/// Some listed bullet has this id.
pub open spec fn has_bullet_id(bullets: Seq<BulletState>, id: u64) -> bool {
    exists|i: int| 0 <= i < bullets.len() && bullets[i].id == id
}

/// The bullet touches some target: within 20 pixels.
pub open spec fn bullet_hits(bpos: Vec3i, ts: Seq<HealthTarget>) -> bool {
    exists|i: int| 0 <= i < ts.len() && dist_sq(bpos, ts[i].pos) < 40_000
}

/// `i` is the first target the bullet touches.
pub open spec fn is_first_hit(bpos: Vec3i, ts: Seq<HealthTarget>, i: int) -> bool {
    0 <= i < ts.len() && dist_sq(bpos, ts[i].pos) < 40_000 && (forall|j: int|
        0 <= j < i ==> dist_sq(bpos, ts[j].pos) >= 40_000)
}

/// The index of the first touched target; meaningful only when one exists.
pub open spec fn first_hit_index(bpos: Vec3i, ts: Seq<HealthTarget>) -> int {
    choose|i: int| is_first_hit(bpos, ts, i)
}

/// Whenever a bullet touches anything, a first touched target exists.
pub proof fn lemma_first_hit_exists(bpos: Vec3i, ts: Seq<HealthTarget>)
    requires
        bullet_hits(bpos, ts),
    ensures
        is_first_hit(bpos, ts, first_hit_index(bpos, ts)),
    decreases ts.len(),
{
    if dist_sq(bpos, ts[0].pos) < 40_000 {
        assert(is_first_hit(bpos, ts, 0));
    } else {
        let sub = ts.subrange(1, ts.len() as int);
        let w = choose|i: int| 0 <= i < ts.len() && dist_sq(bpos, ts[i].pos) < 40_000;
        assert(sub[w - 1] == ts[w]);
        assert(bullet_hits(bpos, sub));
        lemma_first_hit_exists(bpos, sub);
        let i = first_hit_index(bpos, sub);
        assert(forall|j: int| 1 <= j < i + 1 ==> ts[j] == sub[j - 1]);
        assert(is_first_hit(bpos, ts, i + 1));
    }
    let i0 = choose|i: int| is_first_hit(bpos, ts, i);
    assert(is_first_hit(bpos, ts, first_hit_index(bpos, ts)));
}

/// The targets after the first `k` bullets have struck: each bullet that
/// touches anything costs the first target it touches one bullet of damage.
pub open spec fn shots_upto(
    bullets: Seq<BulletState>,
    ts0: Seq<HealthTarget>,
    k: int,
) -> Seq<HealthTarget>
    decreases k,
{
    if k <= 0 {
        ts0
    } else {
        let prev = shots_upto(bullets, ts0, k - 1);
        let b = bullets[k - 1];
        if bullet_hits(b.pos, ts0) {
            let i = first_hit_index(b.pos, ts0);
            prev.update(
                i,
                HealthTarget {
                    health: crate::components::EntityHealth {
                        val: (prev[i].health.val - BLLT_DMG) as i64,
                        ..prev[i].health
                    },
                    ..prev[i]
                },
            )
        } else {
            prev
        }
    }
}

/// Shots keep the number of targets, their positions, and bound the damage.
proof fn lemma_shots_shape(bullets: Seq<BulletState>, ts0: Seq<HealthTarget>, k: int)
    requires
        0 <= k <= bullets.len(),
        bullets.len() <= 1000,
        forall|j: int|
            0 <= j < ts0.len() ==> -crate::components::HEALTH_CAP <= (#[trigger] ts0[j]).health.val
                <= crate::components::HEALTH_CAP,
    ensures
        shots_upto(bullets, ts0, k).len() == ts0.len(),
        forall|j: int|
            0 <= j < ts0.len() ==> (#[trigger] shots_upto(bullets, ts0, k)[j]).pos == ts0[j].pos,
        forall|j: int|
            0 <= j < ts0.len() ==> ts0[j].health.val - 330 * k <= (#[trigger] shots_upto(
                bullets,
                ts0,
                k,
            )[j]).health.val <= ts0[j].health.val,
    decreases k,
{
    if k > 0 {
        lemma_shots_shape(bullets, ts0, k - 1);
        let b = bullets[k - 1];
        if bullet_hits(b.pos, ts0) {
            lemma_first_hit_exists(b.pos, ts0);
        }
    }
}

/// The despawns the collision events ask for: one per event that names a
/// bullet.
pub open spec fn event_despawns_upto(
    events: Seq<CollisionEvent>,
    bullets: Seq<BulletState>,
    n: int,
) -> Seq<DespawnAction>
    decreases n,
{
    if n <= 0 {
        Seq::empty()
    } else {
        let prev = event_despawns_upto(events, bullets, n - 1);
        if has_bullet_id(bullets, events[n - 1].ent_a) {
            prev + seq![DespawnAction { entity: events[n - 1].ent_a, recursive: false }]
        } else {
            prev
        }
    }
}

/// The despawns of the first `k` bullets that struck a target.
pub open spec fn hit_despawns_upto(
    bullets: Seq<BulletState>,
    ts0: Seq<HealthTarget>,
    k: int,
) -> Seq<DespawnAction>
    decreases k,
{
    if k <= 0 {
        Seq::empty()
    } else {
        let prev = hit_despawns_upto(bullets, ts0, k - 1);
        if bullet_hits(bullets[k - 1].pos, ts0) {
            prev + seq![DespawnAction { entity: bullets[k - 1].id, recursive: false }]
        } else {
            prev
        }
    }
}

/// The despawns of the first `k` bullets that flew beyond 1000 pixels of
/// the origin (measured in the plane).
pub open spec fn range_despawns_upto(bullets: Seq<BulletState>, k: int) -> Seq<DespawnAction>
    decreases k,
{
    if k <= 0 {
        Seq::empty()
    } else {
        let prev = range_despawns_upto(bullets, k - 1);
        if crate::geom::dist_sq_xy(
            Vec3i { x: 0, y: 0, z: 0 },
            bullets[k - 1].pos,
        ) > 100_000_000 {
            prev + seq![DespawnAction { entity: bullets[k - 1].id, recursive: false }]
        } else {
            prev
        }
    }
}

/// One frame of bullet bookkeeping: bullets named by a collision event are
/// despawned; each bullet near a target costs that target one bullet of
/// damage and despawns; bullets beyond 1000 pixels of the origin despawn.
pub fn shot_bullets(
    bullets: &Vec<BulletState>,
    events: &Vec<CollisionEvent>,
    targets: &mut Vec<HealthTarget>,
) -> (despawns: Vec<DespawnAction>)
    requires
        forall|i: int| 0 <= i < bullets@.len() ==> (#[trigger] bullets@[i]).pos.in_world(),
        forall|j: int|
            0 <= j < old(targets)@.len() ==> (#[trigger] old(targets)@[j]).pos.in_world()
                && -crate::components::HEALTH_CAP <= old(targets)@[j].health.val
                <= crate::components::HEALTH_CAP,
        bullets@.len() <= 1000,
    ensures
        final(targets)@ == shots_upto(bullets@, old(targets)@, bullets@.len() as int),
        despawns@ == event_despawns_upto(events@, bullets@, events@.len() as int)
            + hit_despawns_upto(bullets@, old(targets)@, bullets@.len() as int)
            + range_despawns_upto(bullets@, bullets@.len() as int),
{
    let nb = bullets.len();
    let ne = events.len();
    let nt = targets.len();
    let mut despawns: Vec<DespawnAction> = Vec::new();

    let mut e: usize = 0;
    while e < ne
        invariant
            0 <= e <= ne,
            ne == events@.len(),
            nb == bullets@.len(),
            despawns@ == event_despawns_upto(events@, bullets@, e as int),
        decreases ne - e,
    {
        let ev_id = events[e].ent_a;
        let mut found: bool = false;
        let mut b: usize = 0;
        while b < nb
            invariant
                0 <= b <= nb,
                nb == bullets@.len(),
                found ==> has_bullet_id(bullets@, ev_id),
                !found ==> forall|k: int| 0 <= k < b ==> (#[trigger] bullets@[k]).id != ev_id,
                found ==> b == nb,
            decreases nb - b,
        {
            if bullets[b].id == ev_id {
                found = true;
                b = nb;
            } else {
                b = b + 1;
            }
        }
        if found {
            despawns.push(DespawnAction { entity: ev_id, recursive: false });
        } else {
            proof {
                assert(!has_bullet_id(bullets@, ev_id));
            }
        }
        e = e + 1;
    }
    let ghost phase1 = despawns@;

    let ghost ts0 = targets@;
    let mut k: usize = 0;
    while k < nb
        invariant
            0 <= k <= nb,
            nb == bullets@.len(),
            nb <= 1000,
            nt == targets@.len(),
            nt == ts0.len(),
            forall|i: int| 0 <= i < nb ==> (#[trigger] bullets@[i]).pos.in_world(),
            forall|j: int|
                0 <= j < nt ==> (#[trigger] ts0[j]).pos.in_world()
                    && -crate::components::HEALTH_CAP <= ts0[j].health.val
                    <= crate::components::HEALTH_CAP,
            targets@ == shots_upto(bullets@, ts0, k as int),
            despawns@ == phase1 + hit_despawns_upto(bullets@, ts0, k as int),
        decreases nb - k,
    {
        let b = bullets[k];
        proof {
            lemma_shots_shape(bullets@, ts0, k as int);
        }
        let mut hit: usize = usize::MAX;
        let mut j: usize = 0;
        while j < nt
            invariant
                0 <= j <= nt,
                nt == targets@.len(),
                nt == ts0.len(),
                b.pos.in_world(),
                forall|m: int| 0 <= m < nt ==> (#[trigger] ts0[m]).pos.in_world(),
                forall|m: int| 0 <= m < nt ==> (#[trigger] targets@[m]).pos == ts0[m].pos,
                hit == usize::MAX ==> forall|m: int|
                    0 <= m < j ==> dist_sq(b.pos, ts0[m].pos) >= 40_000,
                hit != usize::MAX ==> is_first_hit(b.pos, ts0, hit as int) && j == nt,
            decreases nt - j,
        {
            let t = targets[j];
            let d = crate::geom::dist_sq_i128(b.pos, t.pos);
            if d < 40_000 as i128 {
                proof {
                    assert(dist_sq(b.pos, ts0[j as int].pos) < 40_000);
                    assert(is_first_hit(b.pos, ts0, j as int));
                }
                hit = j;
                j = nt;
            } else {
                j = j + 1;
            }
        }
        if hit != usize::MAX {
            proof {
                assert(bullet_hits(b.pos, ts0));
                lemma_first_hit_exists(b.pos, ts0);
                let fi = first_hit_index(b.pos, ts0);
                if fi < hit as int {
                    assert(dist_sq(b.pos, ts0[fi].pos) >= 40_000);
                } else if fi > hit as int {
                    assert(dist_sq(b.pos, ts0[hit as int].pos) >= 40_000);
                }
                assert(fi == hit as int);
            }
            let t = targets[hit];
            targets.set(
                hit,
                HealthTarget {
                    health: crate::components::EntityHealth {
                        val: t.health.val - BLLT_DMG,
                        ..t.health
                    },
                    ..t
                },
            );
            despawns.push(DespawnAction { entity: b.id, recursive: false });
        } else {
            proof {
                assert(!bullet_hits(b.pos, ts0));
            }
        }
        k = k + 1;
    }
    let ghost phase2 = despawns@;

    let mut r: usize = 0;
    while r < nb
        invariant
            0 <= r <= nb,
            nb == bullets@.len(),
            forall|i: int| 0 <= i < nb ==> (#[trigger] bullets@[i]).pos.in_world(),
            despawns@ == phase2 + range_despawns_upto(bullets@, r as int),
        decreases nb - r,
    {
        let b = bullets[r];
        let d = crate::geom::dist_sq_xy_i128(Vec3i { x: 0, y: 0, z: 0 }, b.pos);
        if d > 100_000_000 as i128 {
            despawns.push(DespawnAction { entity: b.id, recursive: false });
        }
        r = r + 1;
    }
    proof {
        assert(despawns@ == event_despawns_upto(events@, bullets@, ne as int) + hit_despawns_upto(
            bullets@,
            ts0,
            nb as int,
        ) + range_despawns_upto(bullets@, nb as int));
    }
    despawns
}

} // verus!
