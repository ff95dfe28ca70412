//! Fixed-point plane and space vectors.
//!
//! Coordinates are i64 values in tenths of a world pixel. All geometric
//! predicates are stated over exact integer arithmetic; comparisons of
//! lengths are made on squared lengths so that no square root is needed.

use vstd::prelude::*;

verus! {

/// Positions, sizes and velocities must stay inside this bound for the
/// squared-length arithmetic below to fit in 128 bits.
pub const COORD_LIMIT: i64 = 1_000_000_000;

#[derive(Clone, Copy, PartialEq, Eq, Structural, Debug)]
pub struct Vec2i {
    pub x: i64,
    pub y: i64,
}

#[derive(Clone, Copy, PartialEq, Eq, Structural, Debug)]
pub struct Vec3i {
    pub x: i64,
    pub y: i64,
    pub z: i64,
}

impl Vec2i {
    pub open spec fn in_world(self) -> bool {
        -COORD_LIMIT <= self.x <= COORD_LIMIT && -COORD_LIMIT <= self.y <= COORD_LIMIT
    }
}

impl Vec3i {
    pub open spec fn in_world(self) -> bool {
        -COORD_LIMIT <= self.x <= COORD_LIMIT && -COORD_LIMIT <= self.y <= COORD_LIMIT
            && -COORD_LIMIT <= self.z <= COORD_LIMIT
    }
}

/// Squared distance between two points of the plane (ignoring z).
pub open spec fn dist_sq_xy(a: Vec3i, b: Vec3i) -> int {
    (b.x - a.x) * (b.x - a.x) + (b.y - a.y) * (b.y - a.y)
}

/// Squared distance between two points of space.
pub open spec fn dist_sq(a: Vec3i, b: Vec3i) -> int {
    (b.x - a.x) * (b.x - a.x) + (b.y - a.y) * (b.y - a.y) + (b.z - a.z) * (b.z - a.z)
}

/// Exact squared plane distance, computed in 128 bits.
pub fn dist_sq_xy_i128(a: Vec3i, b: Vec3i) -> (r: i128)
    requires
        a.in_world(),
        b.in_world(),
    ensures
        r == dist_sq_xy(a, b),
{
    let dx: i128 = (b.x as i128) - (a.x as i128);
    let dy: i128 = (b.y as i128) - (a.y as i128);
    proof {
        lemma_square_bound(dx as int);
        lemma_square_bound(dy as int);
    }
    dx * dx + dy * dy
}

/// The square of a coordinate difference is small and nonnegative.
pub proof fn lemma_square_bound(d: int)
    requires
        -2 * COORD_LIMIT <= d <= 2 * COORD_LIMIT,
    ensures
        0 <= d * d <= 4_000_000_000_000_000_000,
{
    assert(0 <= d * d <= 4_000_000_000_000_000_000) by (nonlinear_arith)
        requires
            -2_000_000_000 <= d <= 2_000_000_000,
    ;
}

/// Exact squared space distance, computed in 128 bits.
pub fn dist_sq_i128(a: Vec3i, b: Vec3i) -> (r: i128)
    requires
        a.in_world(),
        b.in_world(),
    ensures
        r == dist_sq(a, b),
{
    let dx: i128 = (b.x as i128) - (a.x as i128);
    let dy: i128 = (b.y as i128) - (a.y as i128);
    let dz: i128 = (b.z as i128) - (a.z as i128);
    proof {
        lemma_square_bound(dx as int);
        lemma_square_bound(dy as int);
        lemma_square_bound(dz as int);
    }
    dx * dx + dy * dy + dz * dz
}

/// Truncating division (rounding toward zero), the rule Rust's own `/`
/// follows on signed integers.
pub open spec fn tdiv(a: int, b: int) -> int
    recommends
        b > 0,
{
    if a >= 0 {
        a / b
    } else {
        -((-a) / b)
    }
}

/// Truncating remainder paired with `tdiv`: a == tdiv(a, b) * b + trem(a, b).
pub open spec fn trem(a: int, b: int) -> int
    recommends
        b > 0,
{
    if a >= 0 {
        a % b
    } else {
        -((-a) % b)
    }
}

/// Division of a signed value by a positive one, rounding toward zero.
pub fn div_t(a: i64, b: i64) -> (q: i64)
    requires
        b > 0,
        a > i64::MIN,
    ensures
        q == tdiv(a as int, b as int),
{
    if a >= 0 {
        ((a as u64) / (b as u64)) as i64
    } else {
        let m: u64 = (-a) as u64;
        -((m / (b as u64)) as i64)
    }
}

/// Remainder of a signed value by a positive one, with the sign of the
/// dividend (the rule Rust's own `%` follows).
pub fn rem_t(a: i64, b: i64) -> (r: i64)
    requires
        b > 0,
        a > i64::MIN,
    ensures
        r == trem(a as int, b as int),
{
    if a >= 0 {
        ((a as u64) % (b as u64)) as i64
    } else {
        let m: u64 = (-a) as u64;
        -((m % (b as u64)) as i64)
    }
}

/// A product of bounded factors is bounded.
pub proof fn lemma_mul_abs_bound(a: int, b: int, la: int, lb: int)
    requires
        -la <= a <= la,
        -lb <= b <= lb,
        0 <= la,
        0 <= lb,
    ensures
        -(la * lb) <= a * b <= la * lb,
{
    assert(-(la * lb) <= a * b <= la * lb) by (nonlinear_arith)
        requires
            -la <= a <= la,
            -lb <= b <= lb,
            0 <= la,
            0 <= lb,
    ;
}

/// Truncating division shrinks toward zero: a bound on the dividend bounds
/// the quotient.
pub proof fn lemma_tdiv_bound(a: int, b: int, m: int)
    requires
        b > 0,
        0 <= m,
        -m <= a <= m,
    ensures
        -(m / b) <= tdiv(a, b) <= m / b,
{
    if a >= 0 {
        vstd::arithmetic::div_mod::lemma_div_is_ordered(a, m, b);
        vstd::arithmetic::div_mod::lemma_div_pos_is_pos(a, b);
    } else {
        vstd::arithmetic::div_mod::lemma_div_is_ordered(-a, m, b);
        vstd::arithmetic::div_mod::lemma_div_pos_is_pos(-a, b);
    }
}

/// Clamp a value into [lo, hi].
pub open spec fn spec_clamp(v: int, lo: int, hi: int) -> int {
    if v < lo {
        lo
    } else if v > hi {
        hi
    } else {
        v
    }
}

pub fn clamp_i64(v: i64, lo: i64, hi: i64) -> (r: i64)
    requires
        lo <= hi,
    ensures
        r == spec_clamp(v as int, lo as int, hi as int),
{
    if v < lo {
        lo
    } else if v > hi {
        hi
    } else {
        v
    }
}

/// Floor of the square root.
pub open spec fn is_isqrt(n: int, r: int) -> bool {
    r >= 0 && r * r <= n < (r + 1) * (r + 1)
}

/// The floor of the square root, as a value.
pub open spec fn sqrt_floor(n: int) -> int {
    choose|r: int| is_isqrt(n, r)
}

/// Two floors of the same square root are equal.
pub proof fn lemma_isqrt_unique(n: int, r1: int, r2: int)
    requires
        is_isqrt(n, r1),
        is_isqrt(n, r2),
    ensures
        r1 == r2,
{
    assert(r1 == r2) by (nonlinear_arith)
        requires
            r1 >= 0 && r1 * r1 <= n < (r1 + 1) * (r1 + 1),
            r2 >= 0 && r2 * r2 <= n < (r2 + 1) * (r2 + 1),
    ;
}

/// A component is never longer than the vector: if d is the floor root of
/// a sum of squares, each squared term's root is at most d.
pub proof fn lemma_component_le_root(c: int, s: int, d: int)
    requires
        is_isqrt(s, d),
        c * c <= s,
    ensures
        -d <= c <= d,
{
    assert(-d <= c <= d) by (nonlinear_arith)
        requires
            d >= 0,
            s < (d + 1) * (d + 1),
            c * c <= s,
    ;
}

/// Integer square root by bisection: the floor of the real square root.
pub fn isqrt_u64(n: u64) -> (r: u64)
    ensures
        is_isqrt(n as int, r as int),
        r == sqrt_floor(n as int),
        r < 0x1_0000_0000,
{
    let mut lo: u64 = 0;
    // 2^32 is a strict upper bound of the root of any u64.
    let mut hi: u64 = 0x1_0000_0000;
    while lo + 1 < hi
        invariant
            lo < hi <= 0x1_0000_0000,
            (lo as int) * (lo as int) <= n as int,
            (n as int) < (hi as int) * (hi as int),
        decreases hi - lo,
    {
        let mid: u64 = lo + (hi - lo) / 2;
        proof {
            assert((mid as int) * (mid as int) <= 0x1_0000_0000_0000_0000) by (nonlinear_arith)
                requires
                    0 <= mid <= 0x1_0000_0000,
            ;
        }
        let sq: u128 = (mid as u128) * (mid as u128);
        if sq <= n as u128 {
            lo = mid;
        } else {
            hi = mid;
        }
    }
    proof {
        assert(is_isqrt(n as int, lo as int));
        assert(is_isqrt(n as int, sqrt_floor(n as int)));
        lemma_isqrt_unique(n as int, lo as int, sqrt_floor(n as int));
    }
    lo
}

/// The exact integer form of the unit direction (cos θ, sin θ) for
/// θ = atan2(dy, dx), in thousandths; the zero vector gives (1000, 0),
/// as atan2(0, 0) = 0 does.
pub open spec fn dir_milli_spec(dx: int, dy: int) -> (int, int) {
    let d = sqrt_floor(dx * dx + dy * dy);
    if d == 0 {
        (1000, 0)
    } else {
        (tdiv(dx * 1000, d), tdiv(dy * 1000, d))
    }
}

/// The plane part of the normalized space vector (dx, dy, dz), in
/// thousandths; the zero vector gives (0, 0).
pub open spec fn dir3_milli_spec(dx: int, dy: int, dz: int) -> (int, int) {
    let d = sqrt_floor(dx * dx + dy * dy + dz * dz);
    if d == 0 {
        (0, 0)
    } else {
        (tdiv(dx * 1000, d), tdiv(dy * 1000, d))
    }
}

/// Every nonnegative integer has a floor square root.
pub proof fn lemma_isqrt_exists(n: int)
    requires
        n >= 0,
    ensures
        is_isqrt(n, sqrt_floor(n)),
    decreases n,
{
    if n == 0 {
        assert(is_isqrt(0, 0));
    } else {
        lemma_isqrt_exists(n - 1);
        let r = sqrt_floor(n - 1);
        if (r + 1) * (r + 1) <= n {
            assert(is_isqrt(n, r + 1)) by (nonlinear_arith)
                requires
                    r >= 0,
                    n - 1 < (r + 1) * (r + 1),
                    (r + 1) * (r + 1) <= n,
            ;
        } else {
            assert(is_isqrt(n, r));
        }
    }
}

/// The plane part of a normalized space vector stays within one.
pub proof fn lemma_dir3_milli_range(dx: int, dy: int, dz: int)
    requires
        -2 * COORD_LIMIT <= dx <= 2 * COORD_LIMIT,
        -2 * COORD_LIMIT <= dy <= 2 * COORD_LIMIT,
        -2 * COORD_LIMIT <= dz <= 2 * COORD_LIMIT,
    ensures
        -1000 <= dir3_milli_spec(dx, dy, dz).0 <= 1000,
        -1000 <= dir3_milli_spec(dx, dy, dz).1 <= 1000,
{
    lemma_square_bound(dx);
    lemma_square_bound(dy);
    lemma_square_bound(dz);
    let s = dx * dx + dy * dy + dz * dz;
    lemma_isqrt_exists(s);
    let d = sqrt_floor(s);
    if d != 0 {
        lemma_component_le_root(dx, s, d);
        lemma_component_le_root(dy, s, d);
        lemma_dir_component(dx, d);
        lemma_dir_component(dy, d);
    }
}

/// A quotient of a component by the vector's length stays within one.
proof fn lemma_dir_component(c: int, d: int)
    requires
        d > 0,
        -d <= c <= d,
    ensures
        -1000 <= tdiv(c * 1000, d) <= 1000,
{
    lemma_mul_abs_bound(c, 1000, d, 1000);
    lemma_tdiv_bound(c * 1000, d, d * 1000);
    vstd::arithmetic::div_mod::lemma_div_by_multiple(1000, d);
    assert(d * 1000 == 1000 * d);
}

/// Unit direction toward (dx, dy), in thousandths.
pub fn dir_milli(dx: i64, dy: i64) -> (r: Vec2i)
    requires
        -2 * COORD_LIMIT <= dx <= 2 * COORD_LIMIT,
        -2 * COORD_LIMIT <= dy <= 2 * COORD_LIMIT,
    ensures
        r.x as int == dir_milli_spec(dx as int, dy as int).0,
        r.y as int == dir_milli_spec(dx as int, dy as int).1,
        -1000 <= r.x <= 1000,
        -1000 <= r.y <= 1000,
{
    proof {
        lemma_square_bound(dx as int);
        lemma_square_bound(dy as int);
    }
    let sq128: i128 = (dx as i128) * (dx as i128) + (dy as i128) * (dy as i128);
    proof {
        assert(0 <= sq128 < 0x1_0000_0000_0000_0000);
    }
    let d64 = isqrt_u64(sq128 as u64);
    proof {
        assert(is_isqrt(sq128 as int, d64 as int));
    }
    if d64 == 0 {
        Vec2i { x: 1000, y: 0 }
    } else {
        let d: i64 = d64 as i64;
        proof {
            lemma_component_le_root(dx as int, sq128 as int, d as int);
            lemma_component_le_root(dy as int, sq128 as int, d as int);
            lemma_dir_component(dx as int, d as int);
            lemma_dir_component(dy as int, d as int);
        }
        Vec2i { x: div_t(dx * 1000, d), y: div_t(dy * 1000, d) }
    }
}

/// Plane part of the unit direction toward (dx, dy, dz), in thousandths.
pub fn dir3_milli(dx: i64, dy: i64, dz: i64) -> (r: Vec2i)
    requires
        -2 * COORD_LIMIT <= dx <= 2 * COORD_LIMIT,
        -2 * COORD_LIMIT <= dy <= 2 * COORD_LIMIT,
        -2 * COORD_LIMIT <= dz <= 2 * COORD_LIMIT,
    ensures
        r.x as int == dir3_milli_spec(dx as int, dy as int, dz as int).0,
        r.y as int == dir3_milli_spec(dx as int, dy as int, dz as int).1,
        -1000 <= r.x <= 1000,
        -1000 <= r.y <= 1000,
{
    proof {
        lemma_square_bound(dx as int);
        lemma_square_bound(dy as int);
        lemma_square_bound(dz as int);
    }
    let sq128: i128 = (dx as i128) * (dx as i128) + (dy as i128) * (dy as i128) + (dz as i128) * (
    dz as i128);
    proof {
        assert(0 <= sq128 < 0x1_0000_0000_0000_0000);
    }
    let d64 = isqrt_u64(sq128 as u64);
    proof {
        assert(is_isqrt(sq128 as int, d64 as int));
    }
    if d64 == 0 {
        Vec2i { x: 0, y: 0 }
    } else {
        let d: i64 = d64 as i64;
        proof {
            lemma_component_le_root(dx as int, sq128 as int, d as int);
            lemma_component_le_root(dy as int, sq128 as int, d as int);
            lemma_dir_component(dx as int, d as int);
            lemma_dir_component(dy as int, d as int);
        }
        Vec2i { x: div_t(dx * 1000, d), y: div_t(dy * 1000, d) }
    }
}

} // verus!
