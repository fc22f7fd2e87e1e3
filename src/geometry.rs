//! Fixed-point vectors and quaternions, and the rotation of a vector by a
//! quaternion.
use vstd::prelude::*;

verus! {

/// The fixed-point 1.0 of directions and quaternion components (2^30).
pub const ONE: i64 = 1073741824;

/// `ONE * ONE`, the scale of a product of two fixed-point numbers (2^60).
pub const ONE_SQ: i128 = 1152921504606846976;

/// The largest magnitude of a coordinate that `rotate_vector` accepts (2^40).
pub const COORD_LIMIT: i64 = 1099511627776;

/// A point or displacement in three dimensions, in integer length units.
#[derive(Clone, Copy, Debug, PartialEq, Eq, Structural)]
pub struct Vec3 {
    pub x: i64,
    pub y: i64,
    pub z: i64,
}

/// A quaternion `w + xi + yj + zk` whose components are fixed-point numbers
/// with `ONE` standing for 1.0.
#[derive(Clone, Copy, Debug, PartialEq, Eq, Structural)]
pub struct Quat {
    pub w: i64,
    pub x: i64,
    pub y: i64,
    pub z: i64,
}

/// A mathematical point with integer coordinates.
pub type Point = (int, int, int);

impl View for Vec3 {
    type V = Point;

    open spec fn view(&self) -> Point {
        (self.x as int, self.y as int, self.z as int)
    }
}

/// Every coordinate of `v` lies in `[-m, m]`.
pub open spec fn within(v: Point, m: int) -> bool {
    -m <= v.0 <= m && -m <= v.1 <= m && -m <= v.2 <= m
}

pub open spec fn point_add(a: Point, b: Point) -> Point {
    (a.0 + b.0, a.1 + b.1, a.2 + b.2)
}

pub open spec fn point_sub(a: Point, b: Point) -> Point {
    (a.0 - b.0, a.1 - b.1, a.2 - b.2)
}

pub open spec fn cross(a: Point, b: Point) -> Point {
    (a.1 * b.2 - a.2 * b.1, a.2 * b.0 - a.0 * b.2, a.0 * b.1 - a.1 * b.0)
}

/// The squared Euclidean norm.
pub open spec fn norm_sq(v: Point) -> int {
    v.0 * v.0 + v.1 * v.1 + v.2 * v.2
}

impl Quat {
    /// Each component lies in `[-ONE, ONE]`, as each component of a unit
    /// quaternion lies in `[-1, 1]`. This bounds the arithmetic only: a
    /// rotation is meant to be given as a unit quaternion, and one of another
    /// norm scales and skews the rotated vector.
    pub open spec fn wf(self) -> bool {
        -ONE <= self.w <= ONE && -ONE <= self.x <= ONE && -ONE <= self.y <= ONE && -ONE
            <= self.z <= ONE
    }

    /// The vector part `(x, y, z)`.
    pub open spec fn axis(self) -> Point {
        (self.x as int, self.y as int, self.z as int)
    }

    /// The rotation that leaves every vector where it is.
    pub fn identity() -> (r: Quat)
        ensures
            r == Quat::identity_spec(),
            r.wf(),
    {
        Quat { w: ONE, x: 0, y: 0, z: 0 }
    }

    pub open spec fn identity_spec() -> Quat {
        Quat { w: ONE, x: 0, y: 0, z: 0 }
    }
}

/// `ONE_SQ` times the rotation of `v` by `q`, written as
/// `v + w t + u x t` with `u` the vector part of `q` and `t = 2 (u x v)`.
/// For a unit quaternion this is `q v q*` scaled by `ONE_SQ`.
pub open spec fn rotation_scaled(q: Quat, v: Point) -> Point {
    let t = cross(q.axis(), v);
    let t2 = (2 * t.0, 2 * t.1, 2 * t.2);
    let ut = cross(q.axis(), t2);
    (
        v.0 * ONE_SQ + q.w * t2.0 + ut.0,
        v.1 * ONE_SQ + q.w * t2.1 + ut.1,
        v.2 * ONE_SQ + q.w * t2.2 + ut.2,
    )
}

/// The rotation of `v` by `q`, each coordinate rounded down to an integer.
pub open spec fn rotate(q: Quat, v: Point) -> Point {
    let s = rotation_scaled(q, v);
    (s.0 / (ONE_SQ as int), s.1 / (ONE_SQ as int), s.2 / (ONE_SQ as int))
}

/// `a / d` rounded down, for a positive `d`.
pub fn div_floor(a: i128, d: i128) -> (r: i128)
    requires
        d > 0,
        a > i128::MIN,
    ensures
        r == a / d,
{
    if a >= 0 {
        a / d
    } else {
        let n: i128 = -a;
        let q: i128 = n / d;
        let m: i128 = n % d;
        proof {
            vstd::arithmetic::div_mod::lemma_fundamental_div_mod(n as int, d as int);
        }
        assert(a == (-q - 1) * d + (d - m)) by (nonlinear_arith)
            requires
                a == -n,
                n == d * q + m,
        ;
        assert(m == 0 ==> a == (-q) * d + 0) by (nonlinear_arith)
            requires
                a == -n,
                n == d * q + m,
        ;
        if m == 0 {
            proof {
                vstd::arithmetic::div_mod::lemma_fundamental_div_mod_converse(
                    a as int,
                    d as int,
                    -q,
                    0,
                );
            }
            -q
        } else {
            proof {
                vstd::arithmetic::div_mod::lemma_fundamental_div_mod_converse(
                    a as int,
                    d as int,
                    -q - 1,
                    d - m,
                );
            }
            -q - 1
        }
    }
}

proof fn lemma_mul_within(a: int, b: int, ma: int, mb: int)
    requires
        -ma <= a <= ma,
        -mb <= b <= mb,
    ensures
        -(ma * mb) <= a * b <= ma * mb,
{
    assert(-(ma * mb) <= a * b <= ma * mb) by (nonlinear_arith)
        requires
            -ma <= a <= ma,
            -mb <= b <= mb,
    ;
}

/// The coordinates of `cross(u, v)` are bounded by `2 * mu * mv` when those of
/// `u` and `v` are bounded by `mu` and `mv`.
proof fn lemma_cross_within(u: Point, v: Point, mu: int, mv: int)
    requires
        within(u, mu),
        within(v, mv),
    ensures
        within(cross(u, v), 2 * (mu * mv)),
        -(mu * mv) <= u.1 * v.2 <= mu * mv,
        -(mu * mv) <= u.2 * v.1 <= mu * mv,
        -(mu * mv) <= u.2 * v.0 <= mu * mv,
        -(mu * mv) <= u.0 * v.2 <= mu * mv,
        -(mu * mv) <= u.0 * v.1 <= mu * mv,
        -(mu * mv) <= u.1 * v.0 <= mu * mv,
{
    lemma_mul_within(u.1, v.2, mu, mv);
    lemma_mul_within(u.2, v.1, mu, mv);
    lemma_mul_within(u.2, v.0, mu, mv);
    lemma_mul_within(u.0, v.2, mu, mv);
    lemma_mul_within(u.0, v.1, mu, mv);
    lemma_mul_within(u.1, v.0, mu, mv);
}

/// The identity rotation moves no point.
pub proof fn lemma_rotate_identity(v: Point)
    ensures
        rotate(Quat::identity_spec(), v) == v,
{
    let q = Quat::identity_spec();
    assert(cross(q.axis(), v) == (0int, 0int, 0int));
    assert(rotation_scaled(q, v) == (v.0 * ONE_SQ, v.1 * ONE_SQ, v.2 * ONE_SQ));
    vstd::arithmetic::div_mod::lemma_fundamental_div_mod_converse(v.0 * ONE_SQ, ONE_SQ as int, v.0, 0);
    vstd::arithmetic::div_mod::lemma_fundamental_div_mod_converse(v.1 * ONE_SQ, ONE_SQ as int, v.1, 0);
    vstd::arithmetic::div_mod::lemma_fundamental_div_mod_converse(v.2 * ONE_SQ, ONE_SQ as int, v.2, 0);
}

/// Rotates `v` by `o`: the result is `rotate(o, v)`, exact up to rounding each
/// coordinate down.
pub fn rotate_vector(o: Quat, v: Vec3) -> (r: Vec3)
    requires
        o.wf(),
        within(v@, COORD_LIMIT as int),
    ensures
        r@ == rotate(o, v@),
        within(r@, 16 * COORD_LIMIT),
{
    let qw = o.w as i128;
    let qx = o.x as i128;
    let qy = o.y as i128;
    let qz = o.z as i128;
    let vx = v.x as i128;
    let vy = v.y as i128;
    let vz = v.z as i128;
    let d: i128 = ONE_SQ;
    let ghost lim: int = COORD_LIMIT as int;
    proof {
        lemma_cross_within(o.axis(), v@, ONE as int, lim);
    }
    // t = 2 (u x v)
    let tx: i128 = 2 * (qy * vz - qz * vy);
    let ty: i128 = 2 * (qz * vx - qx * vz);
    let tz: i128 = 2 * (qx * vy - qy * vx);
    let ghost mt: int = 4 * (ONE * lim);
    proof {
        lemma_cross_within(o.axis(), (tx as int, ty as int, tz as int), ONE as int, mt);
        lemma_mul_within(qw as int, tx as int, ONE as int, mt);
        lemma_mul_within(qw as int, ty as int, ONE as int, mt);
        lemma_mul_within(qw as int, tz as int, ONE as int, mt);
        lemma_mul_within(vx as int, d as int, lim, ONE_SQ as int);
        lemma_mul_within(vy as int, d as int, lim, ONE_SQ as int);
        lemma_mul_within(vz as int, d as int, lim, ONE_SQ as int);
    }
    // v + w t + u x t, all scaled by ONE_SQ
    let sx: i128 = vx * d + qw * tx + (qy * tz - qz * ty);
    let sy: i128 = vy * d + qw * ty + (qz * tx - qx * tz);
    let sz: i128 = vz * d + qw * tz + (qx * ty - qy * tx);
    assert((sx as int, sy as int, sz as int) == rotation_scaled(o, v@));
    let rx = div_floor(sx, d);
    let ry = div_floor(sy, d);
    let rz = div_floor(sz, d);
    proof {
        lemma_div_within(sx as int, ONE_SQ as int, 13 * lim);
        lemma_div_within(sy as int, ONE_SQ as int, 13 * lim);
        lemma_div_within(sz as int, ONE_SQ as int, 13 * lim);
    }
    Vec3 { x: rx as i64, y: ry as i64, z: rz as i64 }
}

proof fn lemma_div_within(a: int, d: int, m: int)
    requires
        d > 0,
        m >= 0,
        -(d * m) <= a <= d * m,
    ensures
        -m <= a / d <= m,
{
    assert(-m <= a / d <= m) by (nonlinear_arith)
        requires
            d > 0,
            m >= 0,
            -(d * m) <= a <= d * m,
    ;
}

} // verus!
