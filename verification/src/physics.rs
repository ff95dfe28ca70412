//! Velocity integration and box collision resolution.
//!
//! Velocities are tenths of a pixel per second, frame times milliseconds.
//! Friction is an exponential pull toward rest evaluated once per frame;
//! collision resolution stops a mover at the face of a static box and
//! reports one event per stopped axis.

use vstd::prelude::*;

use crate::components::BoxCollider;
use crate::components::CollisionEvent;
use crate::components::Rigidbody;
use crate::geom::Vec2i;
use crate::geom::Vec3i;
use crate::geom::div_t;
use crate::geom::spec_clamp;
use crate::geom::tdiv;
use crate::geom::clamp_i64;

verus! {

/// Speeds the integrator is stated for, in tenths of a pixel per second.
pub const SPEED_LIMIT: i64 = 1_000_000;

/// Positions the integrator is stated for, in tenths of a pixel.
pub const POS_LIMIT: i64 = 500_000_000;

/// Collision boxes the resolver is stated for, in tenths of a pixel.
pub const SIZE_LIMIT: i64 = 1_000_000;

/// Frame times the integrator is stated for: at most 200 ms, where the
/// friction factor 1 - 5 * dt stays within [0, 1].
pub const FRAME_MS_LIMIT: i64 = 200;

/// Below one pixel per second a velocity snaps to rest.
pub const REST_THRESHOLD: i64 = 10;

/// Gap kept between a mover and the box it was stopped by, in tenths.
pub const DIFFTHRES: i64 = 20;

/// A transform-and-velocity pair, as the integrator sees an entity.
#[derive(Clone, Copy, PartialEq, Eq, Structural, Debug)]
pub struct PhysicsBody {
    pub pos: Vec3i,
    pub rb: Rigidbody,
}

/// A moving entity as the collision resolver sees it.
#[derive(Clone, Copy, PartialEq, Eq, Structural, Debug)]
pub struct MovingEntity {
    pub id: u64,
    pub pos: Vec3i,
    pub rb: Rigidbody,
    pub collider: BoxCollider,
}

/// An immovable entity as the collision resolver sees it.
#[derive(Clone, Copy, PartialEq, Eq, Structural, Debug)]
pub struct StaticBody {
    pub id: u64,
    pub pos: Vec3i,
    pub collider: BoxCollider,
}

pub open spec fn speed_ok(v: i64) -> bool {
    -SPEED_LIMIT <= v <= SPEED_LIMIT
}

pub open spec fn pos_ok(p: Vec3i) -> bool {
    -POS_LIMIT <= p.x <= POS_LIMIT && -POS_LIMIT <= p.y <= POS_LIMIT && -POS_LIMIT <= p.z
        <= POS_LIMIT
}

pub open spec fn size_ok(c: BoxCollider) -> bool {
    0 <= c.size.x <= SIZE_LIMIT && 0 <= c.size.y <= SIZE_LIMIT
}

impl Rigidbody {
    /// One frame of friction on one velocity component:
    /// the component is pulled toward rest by the factor 1 - 5 * dt
    /// (dt in seconds), then snapped to rest below the threshold.
    pub open spec fn friction_step(v: int, dt_ms: int) -> int {
        let damped = tdiv(v * (1000 - 5 * dt_ms), 1000);
        if -REST_THRESHOLD < damped < REST_THRESHOLD {
            0
        } else {
            damped
        }
    }

    /// Accelerate along a direction and clamp the speed, the way every
    /// steered entity (player, zombie, animal) changes its velocity.
    /// `direction` is a unit vector in thousandths; `acc` is in tenths of a
    /// pixel per second squared.
    pub fn acc_clamped(&mut self, direction: Vec2i, acc: i64, clamped_speed: i64, dt_ms: i64)
        requires
            -1000 <= direction.x <= 1000,
            -1000 <= direction.y <= 1000,
            0 <= acc <= SPEED_LIMIT,
            0 <= clamped_speed <= SPEED_LIMIT,
            0 <= dt_ms <= FRAME_MS_LIMIT,
            speed_ok(old(self).vx),
            speed_ok(old(self).vy),
        ensures
            final(self).vx == spec_clamp(
                old(self).vx + tdiv(direction.x * acc * dt_ms, 1_000_000),
                -clamped_speed as int,
                clamped_speed as int,
            ),
            final(self).vy == spec_clamp(
                old(self).vy + tdiv(direction.y * acc * dt_ms, 1_000_000),
                -clamped_speed as int,
                clamped_speed as int,
            ),
            final(self).friction == old(self).friction,
            speed_ok(final(self).vx),
            speed_ok(final(self).vy),
    {
        proof {
            crate::geom::lemma_mul_abs_bound(direction.x as int, acc as int, 1000, 1_000_000);
            crate::geom::lemma_mul_abs_bound(
                (direction.x as int) * (acc as int),
                dt_ms as int,
                1_000_000_000,
                200,
            );
            crate::geom::lemma_tdiv_bound(
                (direction.x as int) * (acc as int) * (dt_ms as int),
                1_000_000,
                200_000_000_000,
            );
            crate::geom::lemma_mul_abs_bound(direction.y as int, acc as int, 1000, 1_000_000);
            crate::geom::lemma_mul_abs_bound(
                (direction.y as int) * (acc as int),
                dt_ms as int,
                1_000_000_000,
                200,
            );
            crate::geom::lemma_tdiv_bound(
                (direction.y as int) * (acc as int) * (dt_ms as int),
                1_000_000,
                200_000_000_000,
            );
        }
        let dvx = div_t(direction.x * acc * dt_ms, 1_000_000);
        self.vx = clamp_i64(self.vx + dvx, -clamped_speed, clamped_speed);
        let dvy = div_t(direction.y * acc * dt_ms, 1_000_000);
        self.vy = clamp_i64(self.vy + dvy, -clamped_speed, clamped_speed);
    }
}

/// What one frame of integration does to one body.
pub open spec fn apply_velocity_spec(b: PhysicsBody, dt_ms: int) -> PhysicsBody {
    let vx = if b.rb.friction {
        Rigidbody::friction_step(b.rb.vx as int, dt_ms)
    } else {
        Rigidbody::friction_step_nofriction(b.rb.vx as int)
    };
    let vy = if b.rb.friction {
        Rigidbody::friction_step(b.rb.vy as int, dt_ms)
    } else {
        Rigidbody::friction_step_nofriction(b.rb.vy as int)
    };
    PhysicsBody {
        pos: Vec3i {
            x: (b.pos.x + tdiv(vx * dt_ms, 1000)) as i64,
            y: (b.pos.y + tdiv(vy * dt_ms, 1000)) as i64,
            z: b.pos.z,
        },
        rb: Rigidbody { vx: vx as i64, vy: vy as i64, friction: b.rb.friction },
    }
}

impl Rigidbody {
    /// Without friction only the rest threshold applies.
    pub open spec fn friction_step_nofriction(v: int) -> int {
        if -REST_THRESHOLD < v < REST_THRESHOLD {
            0
        } else {
            v
        }
    }
}

pub open spec fn body_ok(b: PhysicsBody) -> bool {
    pos_ok(b.pos) && speed_ok(b.rb.vx) && speed_ok(b.rb.vy)
}

/// Integrate one body for one frame.
pub fn apply_velocity_step(b: &mut PhysicsBody, dt_ms: i64)
    requires
        body_ok(*old(b)),
        0 <= dt_ms <= FRAME_MS_LIMIT,
    ensures
        *final(b) == apply_velocity_spec(*old(b), dt_ms as int),
        speed_ok(final(b).rb.vx),
        speed_ok(final(b).rb.vy),
{
    proof {
        crate::geom::lemma_mul_abs_bound(
            b.rb.vx as int,
            1000 - 5 * (dt_ms as int),
            1_000_000,
            1000,
        );
        crate::geom::lemma_tdiv_bound(
            (b.rb.vx as int) * (1000 - 5 * (dt_ms as int)),
            1000,
            1_000_000_000,
        );
        crate::geom::lemma_mul_abs_bound(
            b.rb.vy as int,
            1000 - 5 * (dt_ms as int),
            1_000_000,
            1000,
        );
        crate::geom::lemma_tdiv_bound(
            (b.rb.vy as int) * (1000 - 5 * (dt_ms as int)),
            1000,
            1_000_000_000,
        );
    }
    if b.rb.friction {
        let dvx = div_t(b.rb.vx * (1000 - 5 * dt_ms), 1000);
        b.rb.vx = if -REST_THRESHOLD < dvx && dvx < REST_THRESHOLD {
            0
        } else {
            dvx
        };
        let dvy = div_t(b.rb.vy * (1000 - 5 * dt_ms), 1000);
        b.rb.vy = if -REST_THRESHOLD < dvy && dvy < REST_THRESHOLD {
            0
        } else {
            dvy
        };
    } else {
        if -REST_THRESHOLD < b.rb.vx && b.rb.vx < REST_THRESHOLD {
            b.rb.vx = 0;
        }
        if -REST_THRESHOLD < b.rb.vy && b.rb.vy < REST_THRESHOLD {
            b.rb.vy = 0;
        }
    }
    proof {
        crate::geom::lemma_mul_abs_bound(b.rb.vx as int, dt_ms as int, 1_000_000, 200);
        crate::geom::lemma_tdiv_bound((b.rb.vx as int) * (dt_ms as int), 1000, 200_000_000);
        crate::geom::lemma_mul_abs_bound(b.rb.vy as int, dt_ms as int, 1_000_000, 200);
        crate::geom::lemma_tdiv_bound((b.rb.vy as int) * (dt_ms as int), 1000, 200_000_000);
    }
    b.pos.x = b.pos.x + div_t(b.rb.vx * dt_ms, 1000);
    b.pos.y = b.pos.y + div_t(b.rb.vy * dt_ms, 1000);
}

/// Integrate every body for one frame.
pub fn apply_velocity(bodies: &mut Vec<PhysicsBody>, dt_ms: i64)
    requires
        forall|i: int| 0 <= i < old(bodies)@.len() ==> body_ok(#[trigger] old(bodies)@[i]),
        0 <= dt_ms <= FRAME_MS_LIMIT,
    ensures
        final(bodies)@.len() == old(bodies)@.len(),
        forall|i: int|
            0 <= i < old(bodies)@.len() ==> final(bodies)@[i] == apply_velocity_spec(
                #[trigger] old(bodies)@[i],
                dt_ms as int,
            ),
{
    let n = bodies.len();
    let mut i: usize = 0;
    while i < n
        invariant
            0 <= i <= n,
            n == bodies@.len(),
            0 <= dt_ms <= FRAME_MS_LIMIT,
            forall|j: int| i <= j < n ==> bodies@[j] == #[trigger] old(bodies)@[j],
            forall|j: int| 0 <= j < n ==> body_ok(#[trigger] old(bodies)@[j]),
            forall|j: int|
                0 <= j < i ==> bodies@[j] == apply_velocity_spec(
                    #[trigger] old(bodies)@[j],
                    dt_ms as int,
                ),
        decreases n - i,
    {
        let mut b = bodies[i];
        proof {
            assert(b == old(bodies)@[i as int]);
            assert(body_ok(old(bodies)@[i as int]));
        }
        apply_velocity_step(&mut b, dt_ms);
        bodies.set(i, b);
        i = i + 1;
    }
}

/// Positions a mover can reach through pushbacks, slightly wider than the
/// positions movers and statics start from.
pub const POS_SLACK: i64 = 502_000_000;

pub open spec fn mover_in(m: MovingEntity) -> bool {
    -POS_LIMIT <= m.pos.x <= POS_LIMIT && -POS_LIMIT <= m.pos.y <= POS_LIMIT && size_ok(
        m.collider,
    )
}

pub open spec fn mover_mid(m: MovingEntity) -> bool {
    -POS_SLACK <= m.pos.x <= POS_SLACK && -POS_SLACK <= m.pos.y <= POS_SLACK && size_ok(
        m.collider,
    )
}

pub open spec fn static_in(s: StaticBody) -> bool {
    -POS_LIMIT <= s.pos.x <= POS_LIMIT && -POS_LIMIT <= s.pos.y <= POS_LIMIT && size_ok(
        s.collider,
    )
}

/// The mover overlaps the static's x band while sitting inside its y extent,
/// and is moving toward it along x.
pub open spec fn hit_x(m: MovingEntity, s: StaticBody) -> bool {
    let diff_x = s.pos.x - m.pos.x;
    let size_x = m.collider.size.x / 2 + s.collider.size.x / 2 + DIFFTHRES;
    &&& -size_x < diff_x < size_x
    &&& s.pos.y - s.collider.size.y / 2 < m.pos.y < s.pos.y + s.collider.size.y / 2
    &&& if diff_x > 0 {
        m.rb.vx > 0
    } else {
        m.rb.vx < 0
    }
}

/// Stop the mover at the static's x face: x velocity zeroed, position set
/// one tenth beyond the kept gap.
pub open spec fn resolve_x(m: MovingEntity, s: StaticBody) -> MovingEntity {
    if hit_x(m, s) {
        let gap = m.collider.size.x / 2 + s.collider.size.x / 2 + DIFFTHRES;
        let newx = if s.pos.x - m.pos.x > 0 {
            s.pos.x - gap - 1
        } else {
            s.pos.x + gap + 1
        };
        MovingEntity {
            pos: Vec3i { x: newx as i64, ..m.pos },
            rb: Rigidbody { vx: 0, ..m.rb },
            ..m
        }
    } else {
        m
    }
}

/// The y counterpart of `hit_x`, read after the x resolution.
pub open spec fn hit_y(m: MovingEntity, s: StaticBody) -> bool {
    let diff_y = s.pos.y - m.pos.y;
    let size_y = m.collider.size.y / 2 + s.collider.size.y / 2 + DIFFTHRES;
    &&& -size_y < diff_y < size_y
    &&& s.pos.x - s.collider.size.x / 2 < m.pos.x < s.pos.x + s.collider.size.x / 2
    &&& if diff_y > 0 {
        m.rb.vy > 0
    } else {
        m.rb.vy < 0
    }
}

/// Stop the mover at the static's y face. On this axis the mover is left
/// one tenth above the kept gap on both sides.
pub open spec fn resolve_y(m: MovingEntity, s: StaticBody) -> MovingEntity {
    if hit_y(m, s) {
        let gap = m.collider.size.y / 2 + s.collider.size.y / 2 + DIFFTHRES;
        let newy = if s.pos.y - m.pos.y > 0 {
            s.pos.y - gap + 1
        } else {
            s.pos.y + gap + 1
        };
        MovingEntity {
            pos: Vec3i { y: newy as i64, ..m.pos },
            rb: Rigidbody { vy: 0, ..m.rb },
            ..m
        }
    } else {
        m
    }
}

/// What one mover-static encounter does: x axis first, then y on the moved
/// position.
pub open spec fn collide_pair(m: MovingEntity, s: StaticBody) -> MovingEntity {
    resolve_y(resolve_x(m, s), s)
}

/// The events one encounter emits: one per stopped axis, x first.
pub open spec fn pair_events(m: MovingEntity, s: StaticBody) -> Seq<CollisionEvent> {
    let ex: Seq<CollisionEvent> = if hit_x(m, s) {
        seq![CollisionEvent { ent_a: m.id, stat_b: s.id }]
    } else {
        Seq::empty()
    };
    let ey: Seq<CollisionEvent> = if hit_y(resolve_x(m, s), s) {
        seq![CollisionEvent { ent_a: m.id, stat_b: s.id }]
    } else {
        Seq::empty()
    };
    ex + ey
}

/// The mover after meeting the first `n` statics in order.
pub open spec fn collide_upto(m0: MovingEntity, statics: Seq<StaticBody>, n: int) -> MovingEntity
    decreases n,
{
    if n <= 0 {
        m0
    } else {
        collide_pair(collide_upto(m0, statics, n - 1), statics[n - 1])
    }
}

/// The events emitted while meeting the first `n` statics in order.
pub open spec fn events_upto(m0: MovingEntity, statics: Seq<StaticBody>, n: int) -> Seq<
    CollisionEvent,
>
    decreases n,
{
    if n <= 0 {
        Seq::empty()
    } else {
        events_upto(m0, statics, n - 1) + pair_events(
            collide_upto(m0, statics, n - 1),
            statics[n - 1],
        )
    }
}

/// The events of the first `k` movers, each run against every static.
pub open spec fn all_events(
    movers: Seq<MovingEntity>,
    statics: Seq<StaticBody>,
    k: int,
) -> Seq<CollisionEvent>
    decreases k,
{
    if k <= 0 {
        Seq::empty()
    } else {
        all_events(movers, statics, k - 1) + events_upto(
            movers[k - 1],
            statics,
            statics.len() as int,
        )
    }
}

/// Pushbacks stay within the widened position band.
proof fn lemma_collide_pair_mid(m: MovingEntity, s: StaticBody)
    requires
        mover_mid(m),
        static_in(s),
    ensures
        mover_mid(collide_pair(m, s)),
{
}

/// Run one mover against one static, recording any events.
fn collide_pair_step(m: &mut MovingEntity, s: &StaticBody, events: &mut Vec<CollisionEvent>)
    requires
        mover_mid(*old(m)),
        static_in(*s),
    ensures
        *final(m) == collide_pair(*old(m), *s),
        final(events)@ == old(events)@ + pair_events(*old(m), *s),
        mover_mid(*final(m)),
{
    let mhx = div_t(m.collider.size.x, 2);
    let shx = div_t(s.collider.size.x, 2);
    let mhy = div_t(m.collider.size.y, 2);
    let shy = div_t(s.collider.size.y, 2);

    let diff_x = s.pos.x - m.pos.x;
    let size_x = mhx + shx + DIFFTHRES;
    if -size_x < diff_x && diff_x < size_x && s.pos.y - shy < m.pos.y && m.pos.y < s.pos.y + shy {
        if diff_x > 0 {
            if m.rb.vx > 0 {
                m.rb.vx = 0;
                events.push(CollisionEvent { ent_a: m.id, stat_b: s.id });
                m.pos.x = s.pos.x - mhx - shx - DIFFTHRES - 1;
            }
        } else {
            if m.rb.vx < 0 {
                m.rb.vx = 0;
                events.push(CollisionEvent { ent_a: m.id, stat_b: s.id });
                m.pos.x = s.pos.x + mhx + shx + DIFFTHRES + 1;
            }
        }
    }

    let diff_y = s.pos.y - m.pos.y;
    let size_y = mhy + shy + DIFFTHRES;
    if -size_y < diff_y && diff_y < size_y && s.pos.x - shx < m.pos.x && m.pos.x < s.pos.x + shx {
        if diff_y > 0 {
            if m.rb.vy > 0 {
                m.rb.vy = 0;
                events.push(CollisionEvent { ent_a: m.id, stat_b: s.id });
                m.pos.y = s.pos.y - mhy - shy - DIFFTHRES + 1;
            }
        } else {
            if m.rb.vy < 0 {
                m.rb.vy = 0;
                events.push(CollisionEvent { ent_a: m.id, stat_b: s.id });
                m.pos.y = s.pos.y + mhy + shy + DIFFTHRES + 1;
            }
        }
    }
}

/// Resolve every mover against every static, in order, and report one event
/// per stopped axis. Movers are pushed out to the face they ran into and
/// their velocity toward it is zeroed; statics never move.
pub fn entity_collision(
    movers: &mut Vec<MovingEntity>,
    statics: &Vec<StaticBody>,
) -> (events: Vec<CollisionEvent>)
    requires
        forall|i: int| 0 <= i < old(movers)@.len() ==> mover_in(#[trigger] old(movers)@[i]),
        forall|j: int| 0 <= j < statics@.len() ==> static_in(#[trigger] statics@[j]),
    ensures
        final(movers)@.len() == old(movers)@.len(),
        forall|i: int|
            0 <= i < old(movers)@.len() ==> final(movers)@[i] == collide_upto(
                #[trigger] old(movers)@[i],
                statics@,
                statics@.len() as int,
            ),
        events@ == all_events(old(movers)@, statics@, old(movers)@.len() as int),
{
    let mut events: Vec<CollisionEvent> = Vec::new();
    let n = movers.len();
    let ns = statics.len();
    let mut i: usize = 0;
    while i < n
        invariant
            0 <= i <= n,
            n == movers@.len(),
            ns == statics@.len(),
            forall|j: int| 0 <= j < n ==> mover_in(#[trigger] old(movers)@[j]),
            forall|j: int| 0 <= j < ns ==> static_in(#[trigger] statics@[j]),
            forall|j: int| i <= j < n ==> movers@[j] == #[trigger] old(movers)@[j],
            forall|j: int|
                0 <= j < i ==> movers@[j] == collide_upto(
                    #[trigger] old(movers)@[j],
                    statics@,
                    ns as int,
                ),
            events@ == all_events(old(movers)@, statics@, i as int),
        decreases n - i,
    {
        let mut m = movers[i];
        proof {
            assert(m == old(movers)@[i as int]);
            assert(mover_in(old(movers)@[i as int]));
        }
        let ghost m0 = m;
        let ghost events_before = events@;
        let mut j: usize = 0;
        while j < ns
            invariant
                0 <= j <= ns,
                ns == statics@.len(),
                forall|k: int| 0 <= k < ns ==> static_in(#[trigger] statics@[k]),
                mover_mid(m),
                m == collide_upto(m0, statics@, j as int),
                mover_mid(m0),
                events@ == events_before + events_upto(m0, statics@, j as int),
            decreases ns - j,
        {
            let s = &statics[j];
            collide_pair_step(&mut m, s, &mut events);
            j = j + 1;
        }
        movers.set(i, m);
        i = i + 1;
        proof {
            assert(events@ == all_events(old(movers)@, statics@, i as int));
        }
    }
    events
}

} // verus!
