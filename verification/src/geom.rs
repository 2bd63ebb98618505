//! Plane geometry on exact integers: positions in micro-tiles,
//! direction vectors in milli-units, an integer square root, and the
//! random direction samplers that spawning and spread shots use.

use vstd::prelude::*;

use crate::consts;
use crate::rng;
use crate::util;

verus! {

/// A 2D vector. Positions are in micro-tiles; directions in milli-units.
#[derive(Clone, Copy, PartialEq, Eq, Structural, Debug)]
pub struct Vec2i {
    pub x: i64,
    pub y: i64,
}

impl Vec2i {
    pub open spec fn in_pos_band(self) -> bool {
        &&& -consts::POS_LIMIT <= self.x <= consts::POS_LIMIT
        &&& -consts::POS_LIMIT <= self.y <= consts::POS_LIMIT
    }

    pub open spec fn norm_sq(self) -> int {
        self.x * self.x + self.y * self.y
    }
}

/// Squared distance between two points, as a mathematical value.
pub open spec fn spec_dist_sq(a: Vec2i, b: Vec2i) -> int {
    (a.x - b.x) * (a.x - b.x) + (a.y - b.y) * (a.y - b.y)
}

/// A difference of clamped positions stays within twice the band.
pub open spec fn in_wide_band(v: Vec2i) -> bool {
    &&& -0x200_0000_0000 <= v.x <= 0x200_0000_0000
    &&& -0x200_0000_0000 <= v.y <= 0x200_0000_0000
}

/// Squared distance between two points near the coordinate band.
pub fn dist_sq(a: Vec2i, b: Vec2i) -> (r: i128)
    requires
        in_wide_band(a),
        in_wide_band(b),
    ensures
        r == spec_dist_sq(a, b),
        r >= 0,
{
    let dx: i64 = a.x - b.x;
    let dy: i64 = a.y - b.y;
    proof {
        assert(dx as int * dx as int <= 0x100000_0000_0000_0000_0000
            && dx as int * dx as int >= 0) by (nonlinear_arith)
            requires
                -0x400_0000_0000 <= dx as int <= 0x400_0000_0000,
        ;
        assert(dy as int * dy as int <= 0x100000_0000_0000_0000_0000
            && dy as int * dy as int >= 0) by (nonlinear_arith)
            requires
                -0x400_0000_0000 <= dy as int <= 0x400_0000_0000,
        ;
    }
    (dx as i128) * (dx as i128) + (dy as i128) * (dy as i128)
}

/// The integer square root, defined by counting up.
pub open spec fn spec_isqrt(x: nat) -> nat
    decreases x,
{
    if x == 0 {
        0
    } else {
        let r = spec_isqrt((x - 1) as nat);
        if (r + 1) * (r + 1) <= x {
            r + 1
        } else {
            r
        }
    }
}

/// `spec_isqrt(x)` really is the rounded-down square root of `x`.
pub proof fn lemma_isqrt_bounds(x: nat)
    ensures
        spec_isqrt(x) * spec_isqrt(x) <= x,
        x < (spec_isqrt(x) + 1) * (spec_isqrt(x) + 1),
    decreases x,
{
    let s = spec_isqrt(x);
    if x == 0 {
        assert(s == 0);
        assert(s * s <= x && x < (s + 1) * (s + 1)) by (nonlinear_arith)
            requires
                s == 0,
                x == 0,
        ;
    } else {
        lemma_isqrt_bounds((x - 1) as nat);
        let r = spec_isqrt((x - 1) as nat);
        assert(r * r <= x - 1 && x - 1 < (r + 1) * (r + 1));
        if (r + 1) * (r + 1) <= x {
            assert(s == r + 1);
            assert(s * s <= x && x < (s + 1) * (s + 1)) by (nonlinear_arith)
                requires
                    s == r + 1,
                    (r + 1) * (r + 1) <= x,
                    x - 1 < (r + 1) * (r + 1),
                    r >= 0,
            ;
        } else {
            assert(s == r);
            assert(s * s <= x && x < (s + 1) * (s + 1)) by (nonlinear_arith)
                requires
                    s == r,
                    r * r <= x - 1,
                    x < (r + 1) * (r + 1),
                    x >= 1,
            ;
        }
    }
}

/// Any value squeezed between consecutive squares is the square root.
pub proof fn lemma_isqrt_unique(x: nat, r: nat)
    requires
        r * r <= x,
        x < (r + 1) * (r + 1),
    ensures
        r == spec_isqrt(x),
{
    lemma_isqrt_bounds(x);
    let s = spec_isqrt(x);
    if r < s {
        assert(false) by (nonlinear_arith)
            requires
                r < s,
                s * s <= x,
                x < (r + 1) * (r + 1),
        ;
    }
    if s < r {
        assert(false) by (nonlinear_arith)
            requires
                s < r,
                r * r <= x,
                x < (s + 1) * (s + 1),
        ;
    }
}

/// Integer square root by binary search.
pub fn isqrt(x: u128) -> (r: u64)
    ensures
        r as nat == spec_isqrt(x as nat),
        r as int * r as int <= x,
        x < (r as int + 1) * (r as int + 1),
{
    let mut lo: u64 = 0;
    let mut hi: u64 = u64::MAX;
    proof {
        assert((hi as int + 1) * (hi as int + 1) > x) by (nonlinear_arith)
            requires
                hi as int == 0xFFFF_FFFF_FFFF_FFFF,
                (x as int) < 0x1_0000_0000_0000_0000_0000_0000_0000_0000,
        ;
    }
    while lo < hi
        invariant
            lo <= hi,
            lo as int * lo as int <= x,
            (hi as int + 1) * (hi as int + 1) > x,
        decreases hi - lo,
    {
        let mid: u64 = lo + (hi - lo) / 2;
        assert(mid < hi);
        let cand: u128 = (mid as u128) + 1;
        proof {
            assert((cand as int * cand as int) < 0x1_0000_0000_0000_0000_0000_0000_0000_0000)
                by (nonlinear_arith)
                requires
                    1 <= cand as int <= 0xFFFF_FFFF_FFFF_FFFF,
            ;
        }
        let sq: u128 = cand * cand;
        if sq <= x {
            lo = mid + 1;
        } else {
            hi = mid;
        }
    }
    proof {
        lemma_isqrt_unique(x as nat, lo as nat);
    }
    lo
}

/// `v` scaled to length about 1000 milli-units: each component is the
/// truncated quotient of `component * 1000` by the integer square root
/// of the squared length; the zero vector stays zero.
pub open spec fn spec_norm_dir(v: Vec2i) -> Vec2i {
    if v.norm_sq() == 0 {
        Vec2i { x: 0, y: 0 }
    } else {
        let n = spec_isqrt(v.norm_sq() as nat) as int;
        Vec2i {
            x: util::spec_tdiv(v.x * 1000, n) as i64,
            y: util::spec_tdiv(v.y * 1000, n) as i64,
        }
    }
}

/// Scale `v` to a direction of length about 1000 milli-units, or to the
/// zero vector when `v` is zero.
pub fn norm_dir(v: Vec2i) -> (d: Vec2i)
    requires
        in_wide_band(v),
    ensures
        d == spec_norm_dir(v),
        -1000 <= d.x <= 1000,
        -1000 <= d.y <= 1000,
{
    let s: i128 = dist_sq(v, Vec2i { x: 0, y: 0 });
    if s == 0 {
        proof {
            assert(v.x == 0 && v.y == 0) by (nonlinear_arith)
                requires
                    v.x * v.x + v.y * v.y == 0,
            ;
        }
        Vec2i { x: 0, y: 0 }
    } else {
        let n: u64 = isqrt(s as u128);
        proof {
            lemma_component_le_isqrt(v.x as int, v.y as int, n as nat);
            lemma_component_le_isqrt(v.y as int, v.x as int, n as nat);
        }
        let dx: i64 = util::mul_div(v.x, 1000, n as i64);
        let dy: i64 = util::mul_div(v.y, 1000, n as i64);
        proof {
            lemma_scaled_component_bound(v.x as int, n as int);
            lemma_scaled_component_bound(v.y as int, n as int);
        }
        Vec2i { x: dx, y: dy }
    }
}

/// A component of a vector is no longer than the vector, so the square
/// root of the squared length bounds each component.
proof fn lemma_component_le_isqrt(a: int, b: int, n: nat)
    requires
        n == spec_isqrt((a * a + b * b) as nat),
        a * a + b * b > 0,
        -0x200_0000_0000 <= a <= 0x200_0000_0000,
        -0x200_0000_0000 <= b <= 0x200_0000_0000,
    ensures
        1 <= n < 0x400_0000_0000,
        (if a >= 0 { a } else { -a }) <= n,
{
    let s = a * a + b * b;
    assert(a * a >= 0 && b * b >= 0 && s <= 0x8_0000_0000_0000_0000_0000) by (nonlinear_arith)
        requires
            s == a * a + b * b,
            -0x200_0000_0000 <= a <= 0x200_0000_0000,
            -0x200_0000_0000 <= b <= 0x200_0000_0000,
    ;
    lemma_isqrt_bounds(s as nat);
    let m = if a >= 0 { a } else { -a };
    assert(m <= n) by (nonlinear_arith)
        requires
            m == (if a >= 0 { a } else { -a }),
            s == a * a + b * b,
            s < (n + 1) * (n + 1),
            b * b >= 0,
            n >= 0,
    ;
    assert(1 <= n && n < 0x400_0000_0000) by (nonlinear_arith)
        requires
            s < (n + 1) * (n + 1),
            n * n <= s,
            0 < s <= 0x8_0000_0000_0000_0000_0000,
            n >= 0,
    ;
}

/// Dividing `a * 1000` by something at least `|a|` stays within 1000.
proof fn lemma_scaled_component_bound(a: int, n: int)
    requires
        n >= 1,
        (if a >= 0 { a } else { -a }) <= n,
    ensures
        -1000 <= util::spec_tdiv(a * 1000, n) <= 1000,
{
    let m = if a >= 0 { a } else { -a };
    assert(m * 1000 <= n * 1000) by (nonlinear_arith)
        requires
            m <= n,
    ;
    vstd::arithmetic::div_mod::lemma_div_is_ordered(m * 1000, n * 1000, n);
    vstd::arithmetic::div_mod::lemma_div_by_multiple(1000, n);
    assert(n * 1000 == 1000 * n) by (nonlinear_arith);
    assert((m * 1000) / n <= 1000);
    vstd::arithmetic::div_mod::lemma_div_pos_is_pos(m * 1000, n);
    if a >= 0 {
        assert(util::spec_tdiv(a * 1000, n) == (m * 1000) / n);
    } else {
        assert(a * 1000 == -(m * 1000)) by (nonlinear_arith)
            requires
                m == -a,
        ;
    }
}

/// A direction in the annulus between radii 500 and 1000 milli-units.
pub open spec fn in_annulus(d: Vec2i) -> bool {
    250_000 <= d.norm_sq() <= 1_000_000
}

/// Draw a random direction of length between 500 and 1000 milli-units.
/// A bounded number of rejection draws; falls back to pointing along
/// the positive x axis if every draw misses the annulus.
pub fn rand_annulus_dir() -> (d: Vec2i)
    ensures
        in_annulus(d),
        -1000 <= d.x <= 1000,
        -1000 <= d.y <= 1000,
{
    let mut tries: u64 = 0;
    while tries < 32
        invariant
            tries <= 32,
        decreases 32 - tries,
    {
        let dx: i64 = rng::gen_between(-1000, 1001);
        let dy: i64 = rng::gen_between(-1000, 1001);
        proof {
            lemma_small_products(dx as int, dy as int);
        }
        let s: i64 = dx * dx + dy * dy;
        if 250_000 <= s && s <= 1_000_000 {
            return Vec2i { x: dx, y: dy };
        }
        tries = tries + 1;
    }
    Vec2i { x: 1000, y: 0 }
}

/// Bounds for the products formed while sampling directions.
proof fn lemma_small_products(a: int, b: int)
    requires
        -2000 <= a <= 2000,
        -2000 <= b <= 2000,
    ensures
        0 <= a * a <= 4_000_000,
        0 <= b * b <= 4_000_000,
        -4_000_000 <= a * b <= 4_000_000,
{
    assert(0 <= a * a <= 4_000_000 && 0 <= b * b <= 4_000_000
        && -4_000_000 <= a * b <= 4_000_000) by (nonlinear_arith)
        requires
            -2000 <= a <= 2000,
            -2000 <= b <= 2000,
    ;
}

/// `d` lies within the spread cone around `dir`: the angle between them
/// is at most about 0.6 radians (cosine at least 825/1000), stated on
/// squared integer lengths.
pub open spec fn in_cone(d: Vec2i, dir: Vec2i) -> bool {
    let dot = d.x * dir.x + d.y * dir.y;
    &&& dot > 0
    &&& 1_000_000 * (dot * dot) >= 680_625 * (d.norm_sq() * dir.norm_sq())
}

/// Draw a random direction within the spread cone around `dir`; falls
/// back to `dir` itself if a bounded number of draws all miss.
pub fn rand_cone_dir(dir: Vec2i) -> (d: Vec2i)
    requires
        -2000 <= dir.x <= 2000,
        -2000 <= dir.y <= 2000,
    ensures
        (in_annulus(d) && in_cone(d, dir)) || d == dir,
        -2000 <= d.x <= 2000,
        -2000 <= d.y <= 2000,
{
    let mut tries: u64 = 0;
    while tries < 32
        invariant
            tries <= 32,
            -2000 <= dir.x <= 2000,
            -2000 <= dir.y <= 2000,
        decreases 32 - tries,
    {
        let dx: i64 = rng::gen_between(-1000, 1001);
        let dy: i64 = rng::gen_between(-1000, 1001);
        proof {
            lemma_small_products(dx as int, dy as int);
            lemma_small_products(dx as int, dir.x as int);
            lemma_small_products(dy as int, dir.y as int);
            lemma_small_products(dir.x as int, dir.y as int);
        }
        let s: i64 = dx * dx + dy * dy;
        if 250_000 <= s && s <= 1_000_000 {
            let dot: i64 = dx * dir.x + dy * dir.y;
            let sd: i64 = dir.x * dir.x + dir.y * dir.y;
            proof {
                assert(0 <= (dot as int * dot as int) <= 0x4000_0000_0000_0000
                    && 0 <= (s as int * sd as int) <= 0x4000_0000_0000_0000) by (nonlinear_arith)
                    requires
                        -8_000_000 <= dot as int <= 8_000_000,
                        0 <= s as int <= 1_000_000,
                        0 <= sd as int <= 8_000_000,
                ;
            }
            let dot2: i128 = (dot as i128) * (dot as i128);
            let ssd: i128 = (s as i128) * (sd as i128);
            let lhs: i128 = 1_000_000 * dot2;
            let rhs: i128 = 680_625 * ssd;
            if dot > 0 && lhs >= rhs {
                return Vec2i { x: dx, y: dy };
            }
        }
        tries = tries + 1;
    }
    dir
}


/// One truncated-quotient component keeps most of the scaled length:
/// `q = |a| * scale / m` satisfies `m^2 q^2 >= scale^2 a^2 - 2 scale m |a|`.
proof fn lemma_scaled_component_sq(a: int, scale: int, m: int, q: int)
    requires
        m >= 1,
        scale >= 1,
        0 <= a,
        q == (a * scale) / m,
    ensures
        m * m * (q * q) >= scale * scale * (a * a) - 2 * scale * m * a,
        q >= 0,
{
    vstd::arithmetic::div_mod::lemma_fundamental_div_mod(a * scale, m);
    vstd::arithmetic::div_mod::lemma_div_pos_is_pos(a * scale, m);
    let r = (a * scale) % m;
    assert(a * scale >= 0) by (nonlinear_arith)
        requires
            a >= 0,
            scale >= 1,
    ;
    assert(0 <= r < m) by {
        vstd::arithmetic::div_mod::lemma_mod_bound(a * scale, m);
    }
    assert(m * q == a * scale - r) by (nonlinear_arith)
        requires
            a * scale == m * ((a * scale) / m) + r,
            q == (a * scale) / m,
    ;
    assert(m * m * (q * q) >= scale * scale * (a * a) - 2 * scale * m * a) by (nonlinear_arith)
        requires
            m * q == a * scale - r,
            0 <= r < m,
            0 <= a,
            m >= 1,
            scale >= 1,
            q >= 0,
    ;
}

/// The truncated quotient of `a * scale / m` for any sign of `a`, as a
/// nonnegative magnitude.
proof fn lemma_tdiv_as_magnitude(a: int, scale: int, m: int)
    requires
        m >= 1,
        scale >= 1,
    ensures
        ({
            let u = if a >= 0 { a } else { -a };
            let q = util::spec_tdiv(a * scale, m);
            let uq = if q >= 0 { q } else { -q };
            uq == (u * scale) / m && q * q == uq * uq
        }),
{
    let u = if a >= 0 { a } else { -a };
    let q = util::spec_tdiv(a * scale, m);
    if a >= 0 {
        assert(a * scale >= 0) by (nonlinear_arith)
            requires
                a >= 0,
                scale >= 1,
        ;
        vstd::arithmetic::div_mod::lemma_div_pos_is_pos(a * scale, m);
    } else {
        assert(a * scale <= 0 && -(a * scale) == u * scale) by (nonlinear_arith)
            requires
                a < 0,
                scale >= 1,
                u == -a,
        ;
        vstd::arithmetic::div_mod::lemma_div_pos_is_pos(u * scale, m);
        let uq = if q >= 0 { q } else { -q };
        assert(q * q == uq * uq) by (nonlinear_arith)
            requires
                uq == q || uq == -q,
        ;
    }
}

/// Normalizing a vector sampled from the annulus loses little length:
/// the result's squared length stays at least 992000.
pub proof fn lemma_norm_annulus_lower(raw: Vec2i)
    requires
        -1000 <= raw.x <= 1000,
        -1000 <= raw.y <= 1000,
        250_000 <= raw.norm_sq() <= 1_000_000,
    ensures
        spec_norm_dir(raw).norm_sq() >= 992_000,
{
    let s = raw.norm_sq();
    let m = spec_isqrt(s as nat) as int;
    lemma_isqrt_bounds(s as nat);
    assert(500 <= m <= 1000) by (nonlinear_arith)
        requires
            m * m <= s,
            s < (m + 1) * (m + 1),
            250_000 <= s <= 1_000_000,
            m >= 0,
    ;
    let n = spec_norm_dir(raw);
    let u = if raw.x >= 0 { raw.x as int } else { -(raw.x as int) };
    let v = if raw.y >= 0 { raw.y as int } else { -(raw.y as int) };
    lemma_tdiv_as_magnitude(raw.x as int, 1000, m);
    lemma_tdiv_as_magnitude(raw.y as int, 1000, m);
    let qx = (u * 1000) / m;
    let qy = (v * 1000) / m;
    lemma_scaled_component_sq(u, 1000, m, qx);
    lemma_scaled_component_sq(v, 1000, m, qy);
    assert(u * u == raw.x * raw.x && v * v == raw.y * raw.y) by (nonlinear_arith)
        requires
            u == raw.x as int || u == -(raw.x as int),
            v == raw.y as int || v == -(raw.y as int),
    ;
    assert(n.x as int * n.x as int == qx * qx && n.y as int * n.y as int == qy * qy) by {
        assert(n.x as int == util::spec_tdiv(raw.x * 1000, m) && n.y as int == util::spec_tdiv(
            raw.y * 1000,
            m,
        ));
        assert(util::spec_tdiv(raw.x * 1000, m) * util::spec_tdiv(raw.x * 1000, m) == qx * qx
            && util::spec_tdiv(raw.y * 1000, m) * util::spec_tdiv(raw.y * 1000, m) == qy
            * qy) by (nonlinear_arith)
            requires
                ({
                    let q = util::spec_tdiv(raw.x * 1000, m);
                    (q == qx || -q == qx)
                }),
                ({
                    let q = util::spec_tdiv(raw.y * 1000, m);
                    (q == qy || -q == qy)
                }),
        ;
    }
    assert(m * m * (qx * qx + qy * qy) >= 1_000_000 * s - 2000 * m * (u + v)) by (nonlinear_arith)
        requires
            m * m * (qx * qx) >= 1000 * 1000 * (u * u) - 2 * 1000 * m * u,
            m * m * (qy * qy) >= 1000 * 1000 * (v * v) - 2 * 1000 * m * v,
            s == raw.x * raw.x + raw.y * raw.y,
            u * u == raw.x * raw.x,
            v * v == raw.y * raw.y,
    ;
    assert(n.norm_sq() >= 992_000) by (nonlinear_arith)
        requires
            m * m * (n.x as int * n.x as int + n.y as int * n.y as int) >= 1_000_000 * s - 2000
                * m * (u + v),
            n.norm_sq() == n.x as int * n.x as int + n.y as int * n.y as int,
            s >= m * m,
            0 <= u <= 1000,
            0 <= v <= 1000,
            500 <= m <= 1000,
    ;
}

/// Scaling a direction of near-unit length up to the spawn radius
/// keeps the offset within a sliver of the radius: its squared length
/// is at least 193 * 10^12 square micro-tiles.
pub proof fn lemma_spawn_offset_far(n: Vec2i, ox: int, oy: int)
    requires
        -1000 <= n.x <= 1000,
        -1000 <= n.y <= 1000,
        n.norm_sq() >= 992_000,
        ox == util::spec_tdiv(n.x * 14_000_000, 1000),
        oy == util::spec_tdiv(n.y * 14_000_000, 1000),
    ensures
        ox * ox + oy * oy >= 193_000_000_000_000,
{
    let u = if n.x >= 0 { n.x as int } else { -(n.x as int) };
    let v = if n.y >= 0 { n.y as int } else { -(n.y as int) };
    lemma_tdiv_as_magnitude(n.x as int, 14_000_000, 1000);
    lemma_tdiv_as_magnitude(n.y as int, 14_000_000, 1000);
    let qx = (u * 14_000_000) / 1000;
    let qy = (v * 14_000_000) / 1000;
    lemma_scaled_component_sq(u, 14_000_000, 1000, qx);
    lemma_scaled_component_sq(v, 14_000_000, 1000, qy);
    assert(u * u == n.x * n.x && v * v == n.y * n.y) by (nonlinear_arith)
        requires
            u == n.x as int || u == -(n.x as int),
            v == n.y as int || v == -(n.y as int),
    ;
    assert(ox * ox == qx * qx && oy * oy == qy * qy) by (nonlinear_arith)
        requires
            ox == qx || -ox == qx,
            oy == qy || -oy == qy,
    ;
    assert(1_000_000 * (qx * qx + qy * qy) >= 14_000_000 * 14_000_000 * (n.x * n.x + n.y * n.y)
        - 2 * 14_000_000 * 1000 * (u + v)) by (nonlinear_arith)
        requires
            1000 * 1000 * (qx * qx) >= 14_000_000 * 14_000_000 * (u * u) - 2 * 14_000_000 * 1000
                * u,
            1000 * 1000 * (qy * qy) >= 14_000_000 * 14_000_000 * (v * v) - 2 * 14_000_000 * 1000
                * v,
            u * u == n.x * n.x,
            v * v == n.y * n.y,
    ;
    assert(ox * ox + oy * oy >= 193_000_000_000_000) by (nonlinear_arith)
        requires
            1_000_000 * (qx * qx + qy * qy) >= 14_000_000 * 14_000_000 * (n.x * n.x + n.y * n.y)
                - 2 * 14_000_000 * 1000 * (u + v),
            ox * ox == qx * qx,
            oy * oy == qy * qy,
            n.x * n.x + n.y * n.y >= 992_000,
            0 <= u <= 1000,
            0 <= v <= 1000,
    ;
}

} // verus!
