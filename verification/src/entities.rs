//! Shared entity rules: spent health, item drops, fading leftovers and the
//! crowd repulsion that keeps entities apart.

use vstd::prelude::*;

use crate::components::DespawnAction;
use crate::components::DestructKind;
use crate::components::EntityHealth;
use crate::components::Rigidbody;
use crate::components::TempTurretDestroyed;
use crate::components::TempZombieDead;
use crate::geom::Vec3i;
use crate::geom::dir3_milli_spec;
use crate::geom::dist_sq;
use crate::geom::tdiv;
use crate::items::Item;
use crate::physics::FRAME_MS_LIMIT;
use crate::physics::PhysicsBody;
use crate::timer::TIME_LIMIT_MS;

verus! {

/// Entities closer than 20 pixels push each other apart.
pub const ENTITY_DIST_REPULSION_SQ: i64 = 40_000;

/// Repulsion acceleration: 200 pixels per second squared, in tenths.
pub const REPULSION_ACC: i64 = 2_000;

/// Dropped items turn at half pi radians per second, in milliradians.
pub const DROPPED_ROTSPEED_MRAD: i64 = 1_570;

/// What one fallen entity leaves behind: the kind of send-off, where.
#[derive(Clone, Copy, PartialEq, Eq, Structural, Debug)]
pub struct DeadEntity {
    pub id: u64,
    pub kind: DestructKind,
    pub pos: Vec3i,
}

/// An entity as the health rule sees it.
#[derive(Clone, Copy, PartialEq, Eq, Structural, Debug)]
pub struct HealthEntity {
    pub id: u64,
    pub health: EntityHealth,
    pub pos: Vec3i,
}

/// The fallen among the first `n` entities, in order: those whose health is
/// spent, with their send-off kind and position.
pub open spec fn fallen_upto(es: Seq<HealthEntity>, n: int) -> Seq<DeadEntity>
    decreases n,
{
    if n <= 0 {
        Seq::empty()
    } else {
        let prev = fallen_upto(es, n - 1);
        let e = es[n - 1];
        if e.health.val <= 0 {
            prev + seq![DeadEntity { id: e.id, kind: e.health.func_destruct, pos: e.pos }]
        } else {
            prev
        }
    }
}

/// Find every entity whose health is spent, with the send-off its destructor
/// calls for.
pub fn entity_health(entities: &Vec<HealthEntity>) -> (dead: Vec<DeadEntity>)
    ensures
        dead@ == fallen_upto(entities@, entities@.len() as int),
{
    let n = entities.len();
    let mut dead: Vec<DeadEntity> = Vec::new();
    let mut i: usize = 0;
    while i < n
        invariant
            0 <= i <= n,
            n == entities@.len(),
            dead@ == fallen_upto(entities@, i as int),
        decreases n - i,
    {
        let e = entities[i];
        if e.health.val <= 0 {
            dead.push(DeadEntity { id: e.id, kind: e.health.func_destruct, pos: e.pos });
        }
        i = i + 1;
    }
    dead
}

/// Spent health means a send-off, and nothing else gets one: the fallen
/// list holds exactly one entry per entity whose health is spent, in order,
/// carrying that entity's id, destructor and position.
pub proof fn law_fallen_iff_spent(es: Seq<HealthEntity>, n: int)
    requires
        0 <= n <= es.len(),
    ensures
        forall|k: int|
            0 <= k < fallen_upto(es, n).len() ==> exists|i: int|
                0 <= i < n && (#[trigger] es[i]).health.val <= 0 && (#[trigger] fallen_upto(
                    es,
                    n,
                )[k]) == (DeadEntity {
                    id: es[i].id,
                    kind: es[i].health.func_destruct,
                    pos: es[i].pos,
                }),
        forall|i: int|
            0 <= i < n && (#[trigger] es[i]).health.val <= 0 ==> exists|k: int|
                0 <= k < fallen_upto(es, n).len() && (#[trigger] fallen_upto(es, n)[k])
                    == (DeadEntity {
                    id: es[i].id,
                    kind: es[i].health.func_destruct,
                    pos: es[i].pos,
                }),
    decreases n,
{
    if n > 0 {
        law_fallen_iff_spent(es, n - 1);
        let prev = fallen_upto(es, n - 1);
        let e = es[n - 1];
        if e.health.val <= 0 {
            let cur = fallen_upto(es, n);
            assert(cur[prev.len() as int] == (DeadEntity {
                id: e.id,
                kind: e.health.func_destruct,
                pos: e.pos,
            }));
            assert(forall|k: int| 0 <= k < prev.len() ==> cur[k] == prev[k]);
        }
    }
}

/// A collectable item lying on the ground.
#[derive(Clone, Copy, PartialEq, Eq, Structural, Debug)]
pub struct DroppedSpawn {
    pub sprite_index: usize,
    pub pos: Vec3i,
    /// Sprite scale in thousandths.
    pub scale_milli: i64,
    pub item: Item,
}

/// Build a dropped item at the given place and scale.
pub fn spawn_dropped(spawn_trans: Vec3i, scale_milli: i64, item: Item) -> (d: DroppedSpawn)
    ensures
        d == (DroppedSpawn {
            sprite_index: item.item_type.spec_sprite_index(),
            pos: spawn_trans,
            scale_milli,
            item,
        }),
{
    DroppedSpawn { sprite_index: item.item_type.sprite_index(), pos: spawn_trans, scale_milli, item }
}

/// An entity that drops an item when it falls.
#[derive(Clone, Copy, PartialEq, Eq, Structural, Debug)]
pub struct Dropper {
    pub health_val: i64,
    pub pos: Vec3i,
    /// Sprite scale in thousandths; the drop is shown at half of it.
    pub scale_milli: i64,
    pub item: Item,
}

/// The drops of the first `n` droppers whose health is spent, each at half
/// the dropper's scale.
pub open spec fn drops_upto(ds: Seq<Dropper>, n: int) -> Seq<DroppedSpawn>
    decreases n,
{
    if n <= 0 {
        Seq::empty()
    } else {
        let prev = drops_upto(ds, n - 1);
        let d = ds[n - 1];
        if d.health_val <= 0 {
            prev + seq![
                DroppedSpawn {
                    sprite_index: d.item.item_type.spec_sprite_index(),
                    pos: d.pos,
                    scale_milli: tdiv(d.scale_milli as int, 2) as i64,
                    item: d.item,
                },
            ]
        } else {
            prev
        }
    }
}

/// Lay a collectable item where each spent dropper stands.
pub fn drop_items(droppers: &Vec<Dropper>) -> (drops: Vec<DroppedSpawn>)
    requires
        forall|i: int| 0 <= i < droppers@.len() ==> (#[trigger] droppers@[i]).scale_milli > i64::MIN,
    ensures
        drops@ == drops_upto(droppers@, droppers@.len() as int),
{
    let n = droppers.len();
    let mut drops: Vec<DroppedSpawn> = Vec::new();
    let mut i: usize = 0;
    while i < n
        invariant
            0 <= i <= n,
            n == droppers@.len(),
            forall|j: int|
                0 <= j < n ==> (#[trigger] droppers@[j]).scale_milli > i64::MIN,
            drops@ == drops_upto(droppers@, i as int),
        decreases n - i,
    {
        let d = droppers[i];
        if d.health_val <= 0 {
            let half = crate::geom::div_t(d.scale_milli, 2);
            drops.push(spawn_dropped(d.pos, half, d.item));
        }
        i = i + 1;
    }
    drops
}

/// The angle a dropped item shows after `total_ms` of play, in milliradians:
/// it turns at a constant speed since the game began.
pub fn dropped_behaviour(total_ms: i64) -> (angle_mrad: i64)
    requires
        0 <= total_ms <= TIME_LIMIT_MS,
    ensures
        angle_mrad == tdiv(DROPPED_ROTSPEED_MRAD * total_ms, 1000),
{
    crate::geom::div_t(DROPPED_ROTSPEED_MRAD * total_ms, 1000)
}

/// A fading corpse sprite.
#[derive(Clone, Copy, PartialEq, Eq, Structural, Debug)]
pub struct TempCorpse {
    pub id: u64,
    pub temp: TempZombieDead,
}

/// The despawns among the first `n` corpses whose clocks finish this frame.
pub open spec fn corpse_despawns_upto(ts: Seq<TempCorpse>, dt_ms: i64, n: int) -> Seq<
    DespawnAction,
>
    decreases n,
{
    if n <= 0 {
        Seq::empty()
    } else {
        let prev = corpse_despawns_upto(ts, dt_ms, n - 1);
        if ts[n - 1].temp.0.spec_tick(dt_ms).just_finished {
            prev + seq![DespawnAction { entity: ts[n - 1].id, recursive: false }]
        } else {
            prev
        }
    }
}

/// Age every corpse sprite and despawn those whose clocks finish.
pub fn temp_entity_handler(temps: &mut Vec<TempCorpse>, dt_ms: i64) -> (despawns: Vec<
    DespawnAction,
>)
    requires
        forall|i: int| 0 <= i < old(temps)@.len() ==> (#[trigger] old(temps)@[i]).temp.0.wf(),
        0 <= dt_ms <= FRAME_MS_LIMIT,
    ensures
        final(temps)@.len() == old(temps)@.len(),
        forall|i: int|
            0 <= i < old(temps)@.len() ==> final(temps)@[i] == (TempCorpse {
                temp: TempZombieDead((#[trigger] old(temps)@[i]).temp.0.spec_tick(dt_ms)),
                ..old(temps)@[i]
            }),
        despawns@ == corpse_despawns_upto(old(temps)@, dt_ms, old(temps)@.len() as int),
{
    let n = temps.len();
    let mut despawns: Vec<DespawnAction> = Vec::new();
    let mut i: usize = 0;
    while i < n
        invariant
            0 <= i <= n,
            n == temps@.len(),
            n == old(temps)@.len(),
            0 <= dt_ms <= FRAME_MS_LIMIT,
            forall|j: int| 0 <= j < n ==> (#[trigger] old(temps)@[j]).temp.0.wf(),
            forall|j: int| i <= j < n ==> temps@[j] == #[trigger] old(temps)@[j],
            forall|j: int|
                0 <= j < i ==> temps@[j] == (TempCorpse {
                    temp: TempZombieDead((#[trigger] old(temps)@[j]).temp.0.spec_tick(dt_ms)),
                    ..old(temps)@[j]
                }),
            despawns@ == corpse_despawns_upto(old(temps)@, dt_ms, i as int),
        decreases n - i,
    {
        let mut t = temps[i];
        proof {
            assert(t == old(temps)@[i as int]);
        }
        t.temp.0.tick(dt_ms);
        if t.temp.0.just_finished {
            despawns.push(DespawnAction { entity: t.id, recursive: false });
        }
        temps.set(i, t);
        i = i + 1;
    }
    despawns
}

/// A piece of turret debris drifting upward while it shrinks.
#[derive(Clone, Copy, PartialEq, Eq, Structural, Debug)]
pub struct TempDebris {
    pub id: u64,
    pub pos: Vec3i,
    /// Sprite scale in thousandths.
    pub scale_milli: i64,
    pub temp: TempTurretDestroyed,
}

/// What one frame does to one piece of debris: it rises 40 pixels per
/// second, keeps 95 percent of its scale, and its clock runs.
pub open spec fn debris_step(t: TempDebris, dt_ms: i64) -> TempDebris {
    TempDebris {
        pos: Vec3i { y: (t.pos.y + tdiv(400 * dt_ms, 1000)) as i64, ..t.pos },
        scale_milli: tdiv(t.scale_milli * 950, 1000) as i64,
        temp: TempTurretDestroyed(t.temp.0.spec_tick(dt_ms)),
        ..t
    }
}

/// The despawns among the first `n` debris whose clocks finish this frame.
pub open spec fn debris_despawns_upto(ts: Seq<TempDebris>, dt_ms: i64, n: int) -> Seq<
    DespawnAction,
>
    decreases n,
{
    if n <= 0 {
        Seq::empty()
    } else {
        let prev = debris_despawns_upto(ts, dt_ms, n - 1);
        if ts[n - 1].temp.0.spec_tick(dt_ms).just_finished {
            prev + seq![DespawnAction { entity: ts[n - 1].id, recursive: false }]
        } else {
            prev
        }
    }
}

/// Drift, shrink and age every piece of turret debris.
pub fn temp_turret_handler(temps: &mut Vec<TempDebris>, dt_ms: i64) -> (despawns: Vec<
    DespawnAction,
>)
    requires
        forall|i: int|
            0 <= i < old(temps)@.len() ==> (#[trigger] old(temps)@[i]).temp.0.wf() && old(
                temps,
            )@[i].pos.in_world() && 0 <= old(temps)@[i].scale_milli <= 1_000_000,
        0 <= dt_ms <= FRAME_MS_LIMIT,
    ensures
        final(temps)@.len() == old(temps)@.len(),
        forall|i: int|
            0 <= i < old(temps)@.len() ==> final(temps)@[i] == debris_step(
                #[trigger] old(temps)@[i],
                dt_ms,
            ),
        despawns@ == debris_despawns_upto(old(temps)@, dt_ms, old(temps)@.len() as int),
{
    let n = temps.len();
    let mut despawns: Vec<DespawnAction> = Vec::new();
    let mut i: usize = 0;
    while i < n
        invariant
            0 <= i <= n,
            n == temps@.len(),
            n == old(temps)@.len(),
            0 <= dt_ms <= FRAME_MS_LIMIT,
            forall|j: int|
                0 <= j < n ==> (#[trigger] old(temps)@[j]).temp.0.wf() && old(
                    temps,
                )@[j].pos.in_world() && 0 <= old(temps)@[j].scale_milli <= 1_000_000,
            forall|j: int| i <= j < n ==> temps@[j] == #[trigger] old(temps)@[j],
            forall|j: int|
                0 <= j < i ==> temps@[j] == debris_step(#[trigger] old(temps)@[j], dt_ms),
            despawns@ == debris_despawns_upto(old(temps)@, dt_ms, i as int),
        decreases n - i,
    {
        let mut t = temps[i];
        proof {
            assert(t == old(temps)@[i as int]);
            crate::geom::lemma_mul_abs_bound(t.scale_milli as int, 950, 1_000_000, 950);
            crate::geom::lemma_tdiv_bound((t.scale_milli as int) * 950, 1000, 950_000_000);
        }
        t.temp.0.tick(dt_ms);
        t.pos.y = t.pos.y + crate::geom::div_t(400 * dt_ms, 1000);
        t.scale_milli = crate::geom::div_t(t.scale_milli * 950, 1000);
        if t.temp.0.just_finished {
            despawns.push(DespawnAction { entity: t.id, recursive: false });
        }
        temps.set(i, t);
        i = i + 1;
    }
    despawns
}

/// How one neighbour pushes a body: closer than the repulsion distance, the
/// body accelerates straight away from it.
pub open spec fn repulse_step(rb: Rigidbody, pos: Vec3i, other: Vec3i, dt_ms: i64) -> Rigidbody {
    if pos == other {
        rb
    } else if dist_sq(pos, other) <= ENTITY_DIST_REPULSION_SQ {
        let dir = dir3_milli_spec(pos.x - other.x, pos.y - other.y, pos.z - other.z);
        Rigidbody {
            vx: (rb.vx + tdiv(dir.0 * REPULSION_ACC * dt_ms, 1_000_000)) as i64,
            vy: (rb.vy + tdiv(dir.1 * REPULSION_ACC * dt_ms, 1_000_000)) as i64,
            ..rb
        }
    } else {
        rb
    }
}

/// The body's velocity after the first `n` neighbours have pushed it.
pub open spec fn repulse_upto(
    rb0: Rigidbody,
    pos: Vec3i,
    others: Seq<Vec3i>,
    dt_ms: i64,
    n: int,
) -> Rigidbody
    decreases n,
{
    if n <= 0 {
        rb0
    } else {
        repulse_step(repulse_upto(rb0, pos, others, dt_ms, n - 1), pos, others[n - 1], dt_ms)
    }
}

/// The positions the bodies held when the frame began.
pub open spec fn positions_of(bodies: Seq<PhysicsBody>) -> Seq<Vec3i> {
    bodies.map_values(|b: PhysicsBody| b.pos)
}

/// A push never changes more than the plane velocity, and by at most 400.
proof fn lemma_repulse_bound(rb0: Rigidbody, pos: Vec3i, others: Seq<Vec3i>, dt_ms: i64, n: int)
    requires
        0 <= n <= others.len(),
        others.len() <= 1000,
        0 <= dt_ms <= FRAME_MS_LIMIT,
        pos.in_world(),
        forall|m: int| 0 <= m < others.len() ==> (#[trigger] others[m]).in_world(),
        crate::physics::speed_ok(rb0.vx),
        crate::physics::speed_ok(rb0.vy),
    ensures
        rb0.vx - 400 * n <= repulse_upto(rb0, pos, others, dt_ms, n).vx <= rb0.vx + 400 * n,
        rb0.vy - 400 * n <= repulse_upto(rb0, pos, others, dt_ms, n).vy <= rb0.vy + 400 * n,
        repulse_upto(rb0, pos, others, dt_ms, n).friction == rb0.friction,
    decreases n,
{
    if n > 0 {
        lemma_repulse_bound(rb0, pos, others, dt_ms, n - 1);
        let prev = repulse_upto(rb0, pos, others, dt_ms, n - 1);
        let other = others[n - 1];
        if pos != other && dist_sq(pos, other) <= ENTITY_DIST_REPULSION_SQ {
            let dir = dir3_milli_spec(pos.x - other.x, pos.y - other.y, pos.z - other.z);
            crate::geom::lemma_dir3_milli_range(
                pos.x - other.x,
                pos.y - other.y,
                pos.z - other.z,
            );
            crate::geom::lemma_mul_abs_bound(dir.0, REPULSION_ACC as int, 1000, 2000);
            crate::geom::lemma_mul_abs_bound(dir.0 * REPULSION_ACC, dt_ms as int, 2_000_000, 200);
            crate::geom::lemma_tdiv_bound(dir.0 * REPULSION_ACC * dt_ms, 1_000_000, 400_000_000);
            crate::geom::lemma_mul_abs_bound(dir.1, REPULSION_ACC as int, 1000, 2000);
            crate::geom::lemma_mul_abs_bound(dir.1 * REPULSION_ACC, dt_ms as int, 2_000_000, 200);
            crate::geom::lemma_tdiv_bound(dir.1 * REPULSION_ACC * dt_ms, 1_000_000, 400_000_000);
        }
    }
}

/// Push apart every pair of bodies that stand within the repulsion
/// distance, reading all positions as they were when the frame began.
pub fn mutual_repulsion(bodies: &mut Vec<PhysicsBody>, dt_ms: i64)
    requires
        forall|i: int|
            0 <= i < old(bodies)@.len() ==> (#[trigger] old(bodies)@[i]).pos.in_world()
                && crate::physics::speed_ok(old(bodies)@[i].rb.vx) && crate::physics::speed_ok(
                old(bodies)@[i].rb.vy,
            ),
        old(bodies)@.len() <= 1000,
        0 <= dt_ms <= FRAME_MS_LIMIT,
    ensures
        final(bodies)@.len() == old(bodies)@.len(),
        forall|i: int|
            0 <= i < old(bodies)@.len() ==> final(bodies)@[i] == (PhysicsBody {
                rb: repulse_upto(
                    (#[trigger] old(bodies)@[i]).rb,
                    old(bodies)@[i].pos,
                    positions_of(old(bodies)@),
                    dt_ms,
                    old(bodies)@.len() as int,
                ),
                ..old(bodies)@[i]
            }),
{
    let n = bodies.len();
    let mut all_pos: Vec<Vec3i> = Vec::new();
    let mut k: usize = 0;
    while k < n
        invariant
            0 <= k <= n,
            n == bodies@.len(),
            all_pos@.len() == k,
            forall|j: int| 0 <= j < k ==> all_pos@[j] == (#[trigger] bodies@[j]).pos,
        decreases n - k,
    {
        let p = bodies[k].pos;
        all_pos.push(p);
        k = k + 1;
    }
    proof {
        assert(all_pos@ =~= positions_of(bodies@));
    }
    let ghost others = all_pos@;
    let mut i: usize = 0;
    while i < n
        invariant
            0 <= i <= n,
            n == bodies@.len(),
            n == old(bodies)@.len(),
            n <= 1000,
            0 <= dt_ms <= FRAME_MS_LIMIT,
            all_pos@ == others,
            all_pos@.len() == n,
            others == positions_of(old(bodies)@),
            forall|j: int|
                0 <= j < n ==> (#[trigger] old(bodies)@[j]).pos.in_world()
                    && crate::physics::speed_ok(old(bodies)@[j].rb.vx)
                    && crate::physics::speed_ok(old(bodies)@[j].rb.vy),
            forall|j: int| i <= j < n ==> bodies@[j] == #[trigger] old(bodies)@[j],
            forall|j: int|
                0 <= j < i ==> bodies@[j] == (PhysicsBody {
                    rb: repulse_upto(
                        (#[trigger] old(bodies)@[j]).rb,
                        old(bodies)@[j].pos,
                        others,
                        dt_ms,
                        n as int,
                    ),
                    ..old(bodies)@[j]
                }),
        decreases n - i,
    {
        let mut b = bodies[i];
        proof {
            assert(b == old(bodies)@[i as int]);
            assert(old(bodies)@[i as int].pos.in_world());
        }
        let ghost rb0 = b.rb;
        let ghost pos0 = b.pos;
        let mut j: usize = 0;
        while j < n
            invariant
                0 <= j <= n,
                n <= 1000,
                0 <= dt_ms <= FRAME_MS_LIMIT,
                all_pos@ == others,
                all_pos@.len() == n,
                pos0.in_world(),
                crate::physics::speed_ok(rb0.vx),
                crate::physics::speed_ok(rb0.vy),
                forall|m: int| 0 <= m < n ==> (#[trigger] others[m]).in_world(),
                b.pos == pos0,
                b.rb == repulse_upto(rb0, pos0, others, dt_ms, j as int),
            decreases n - j,
        {
            let p = all_pos[j];
            if !(b.pos.x == p.x && b.pos.y == p.y && b.pos.z == p.z) {
                let d = crate::geom::dist_sq_i128(b.pos, p);
                if d <= ENTITY_DIST_REPULSION_SQ as i128 {
                    let dir = crate::geom::dir3_milli(b.pos.x - p.x, b.pos.y - p.y, b.pos.z - p.z);
                    proof {
                        lemma_repulse_bound(rb0, pos0, others, dt_ms, j as int);
                        crate::geom::lemma_mul_abs_bound(
                            dir.x as int,
                            REPULSION_ACC as int,
                            1000,
                            2000,
                        );
                        crate::geom::lemma_mul_abs_bound(
                            (dir.x as int) * (REPULSION_ACC as int),
                            dt_ms as int,
                            2_000_000,
                            200,
                        );
                        crate::geom::lemma_tdiv_bound(
                            (dir.x as int) * (REPULSION_ACC as int) * (dt_ms as int),
                            1_000_000,
                            400_000_000,
                        );
                        crate::geom::lemma_mul_abs_bound(
                            dir.y as int,
                            REPULSION_ACC as int,
                            1000,
                            2000,
                        );
                        crate::geom::lemma_mul_abs_bound(
                            (dir.y as int) * (REPULSION_ACC as int),
                            dt_ms as int,
                            2_000_000,
                            200,
                        );
                        crate::geom::lemma_tdiv_bound(
                            (dir.y as int) * (REPULSION_ACC as int) * (dt_ms as int),
                            1_000_000,
                            400_000_000,
                        );
                    }
                    b.rb.vx = b.rb.vx + crate::geom::div_t(dir.x * REPULSION_ACC * dt_ms, 1_000_000);
                    b.rb.vy = b.rb.vy + crate::geom::div_t(dir.y * REPULSION_ACC * dt_ms, 1_000_000);
                }
            }
            j = j + 1;
        }
        bodies.set(i, b);
        i = i + 1;
    }
}

/// Remove every listed entity together with its children.
pub fn destruct_cleanup(entities: &Vec<u64>) -> (despawns: Vec<DespawnAction>)
    ensures
        despawns@.len() == entities@.len(),
        forall|i: int|
            0 <= i < entities@.len() ==> despawns@[i] == (DespawnAction {
                entity: #[trigger] entities@[i],
                recursive: true,
            }),
{
    let n = entities.len();
    let mut despawns: Vec<DespawnAction> = Vec::new();
    let mut i: usize = 0;
    while i < n
        invariant
            0 <= i <= n,
            n == entities@.len(),
            despawns@.len() == i,
            forall|j: int|
                0 <= j < i ==> despawns@[j] == (DespawnAction {
                    entity: #[trigger] entities@[j],
                    recursive: true,
                }),
        decreases n - i,
    {
        despawns.push(DespawnAction { entity: entities[i], recursive: true });
        i = i + 1;
    }
    despawns
}

/// The ordinary send-off: the entity and its children are removed.
pub fn entity_destruct(entity: u64) -> (r: DespawnAction)
    ensures
        r == (DespawnAction { entity, recursive: true }),
{
    DespawnAction { entity, recursive: true }
}

} // verus!
