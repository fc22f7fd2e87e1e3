//! The platform: its geometry, the pose solver and the leg lengths.
use vstd::prelude::*;

use crate::geometry::{
    div_floor, lemma_rotate_identity, norm_sq, point_add, point_sub, rotate, rotate_vector, within, Point, Quat, Vec3,
    COORD_LIMIT, ONE,
};
use crate::isqrt::{is_floor_sqrt, isqrt};

verus! {

/// The number of legs.
pub const LEGS: usize = 6;

/// A sixth of a turn (pi / 3), in nanoradians, rounded to the nearest.
pub const PI_THIRD_NRAD: i64 = 1047197551;

/// The largest magnitude of an anchor coordinate: a radius is a `u32`.
pub const ANCHOR_LIMIT: i64 = 4294967295;

/// A bound on the vertical offset between the base and the platform (2^34).
pub const HEIGHT_LIMIT: i64 = 17179869184;

/// A bound on the coordinates of a placed platform anchor and of a leg
/// vector (2^46).
pub const LEG_LIMIT: i64 = 70368744177664;

/// A direction in the plane: the cosine and the sine of an angle, as
/// fixed-point numbers with `ONE` standing for 1.0.
#[derive(Clone, Copy, Debug, PartialEq, Eq, Structural)]
pub struct Dir {
    pub c: i64,
    pub s: i64,
}

impl Dir {
    pub open spec fn wf(self) -> bool {
        -ONE <= self.c <= ONE && -ONE <= self.s <= ONE
    }
}

/// The angular positions of one leg's two anchors, in nanoradians.
#[derive(Clone, Copy, Debug, PartialEq, Eq, Structural)]
pub struct LegAngles {
    pub base: i64,
    pub platform: i64,
}

/// One leg: its two fixed anchors and what the latest pose made of them.
#[derive(Clone, Copy, Debug, PartialEq, Eq, Structural)]
pub struct Leg {
    /// The anchor on the base, in the base frame.
    pub base: Vec3,
    /// The anchor on the platform, in the platform frame.
    pub platform: Vec3,
    /// The platform anchor placed in the base frame by the latest pose.
    pub anchor: Vec3,
    /// The vector from the base anchor to the placed platform anchor.
    pub vector: Vec3,
}

/// Half of an offset given in microradians, in nanoradians, with the sign of
/// leg `i`'s parity: `+` for an even leg, `-` for an odd one.
pub open spec fn signed_half(i: int, offset: int) -> int {
    if i % 2 == 0 {
        500 * offset
    } else {
        -(500 * offset)
    }
}

/// The angle of base anchor `i`, in nanoradians, for a shaft offset in
/// microradians: `(i + i mod 2) * pi / 3 + parity * offset / 2`.
pub open spec fn base_angle(i: int, shaft_offset: int) -> int {
    (i + i % 2) * PI_THIRD_NRAD + signed_half(i, shaft_offset)
}

/// The angle of platform anchor `i`, in nanoradians, for an anchor offset in
/// microradians: `(1 + i - i mod 2) * pi / 3 - parity * offset / 2`.
pub open spec fn platform_angle(i: int, anchor_offset: int) -> int {
    (1 + i - i % 2) * PI_THIRD_NRAD - signed_half(i, anchor_offset)
}

/// `r * c` for a fixed-point `c`, rounded to the nearest integer (halves up).
pub open spec fn scale_coord(r: int, c: int) -> int {
    (2 * (r * c) + ONE) / (2 * ONE as int)
}

/// The anchor at distance `r` from the centre in direction `d`, in the plane
/// `z = 0`.
pub open spec fn anchor_point(r: int, d: Dir) -> Point {
    (scale_coord(r, d.c as int), scale_coord(r, d.s as int), 0)
}

/// The squared distance between two points, in the `xy` plane only.
pub open spec fn planar_dist_sq(b: Point, p: Point) -> int {
    (p.0 - b.0) * (p.0 - b.0) + (p.1 - b.1) * (p.1 - b.1)
}

/// `|nominal^2 - planar_dist_sq(b, p)|`: the square of the height at which a
/// leg of the nominal length spans the planar distance from `b` to `p`.
pub open spec fn neutral_height_sq(nominal: int, b: Point, p: Point) -> int {
    let h = nominal * nominal - planar_dist_sq(b, p);
    if h >= 0 {
        h
    } else {
        -h
    }
}

/// Platform anchor `p` placed in the base frame by the pose `(t, q)`, lifted
/// by the vertical offset `t0`.
pub open spec fn placed_anchor(p: Point, t0: int, t: Point, q: Quat) -> Point {
    point_add(point_add(t, rotate(q, p)), (0, 0, t0))
}

/// The vector of the leg from base anchor `b` to platform anchor `p` under the
/// pose `(t, q)`.
pub open spec fn leg_vector_at(b: Point, p: Point, t0: int, t: Point, q: Quat) -> Point {
    point_sub(placed_anchor(p, t0, t, q), b)
}

/// The pose with no translation and no rotation.
pub open spec fn origin() -> Point {
    (0, 0, 0)
}

/// The angular positions of the six legs' anchors, for the offsets between
/// the two joints of a pair, at the base and at the platform, in microradians.
pub fn leg_angles(shaft_offset: i32, anchor_offset: i32) -> (r: Vec<LegAngles>)
    ensures
        r.len() == LEGS,
        forall|i: int|
            0 <= i < 6 ==> (#[trigger] r@[i]).base == base_angle(i, shaft_offset as int)
                && r@[i].platform == platform_angle(i, anchor_offset as int),
{
    let mut r: Vec<LegAngles> = Vec::new();
    let mut i: usize = 0;
    while i < LEGS
        invariant
            i <= 6,
            r.len() == i,
            forall|j: int|
                0 <= j < i ==> (#[trigger] r@[j]).base == base_angle(j, shaft_offset as int)
                    && r@[j].platform == platform_angle(j, anchor_offset as int),
        decreases 6 - i,
    {
        let odd: i64 = (i % 2) as i64;
        let k: i64 = i as i64;
        let half_shaft: i64 = 500 * (shaft_offset as i64);
        let half_anchor: i64 = 500 * (anchor_offset as i64);
        let base_sector: i64 = (k + odd) * PI_THIRD_NRAD;
        let cut: i64 = (1 + k - odd) * PI_THIRD_NRAD;
        let (base, platform) = if odd == 0 {
            (base_sector + half_shaft, cut - half_anchor)
        } else {
            (base_sector - half_shaft, cut + half_anchor)
        };
        assert(base == base_angle(i as int, shaft_offset as int));
        assert(platform == platform_angle(i as int, anchor_offset as int));
        r.push(LegAngles { base, platform });
        i = i + 1;
    }
    r
}

/// `r * c` for a fixed-point `c`, rounded to the nearest integer.
fn scale(r: u32, c: i64) -> (x: i64)
    requires
        -ONE <= c <= ONE,
    ensures
        x == scale_coord(r as int, c as int),
        -ANCHOR_LIMIT <= x <= ANCHOR_LIMIT,
{
    proof {
        assert(-(r * ONE) <= r * c <= r * ONE) by (nonlinear_arith)
            requires
                -ONE <= c <= ONE,
                r >= 0,
        ;
        assert(-(r * ONE) <= r * ONE <= ANCHOR_LIMIT * ONE) by (nonlinear_arith)
            requires
                0 <= r <= ANCHOR_LIMIT,
        ;
    }
    let rc: i128 = (r as i128) * (c as i128);
    let one = ONE as i128;
    let x = div_floor(2 * rc + one, 2 * one);
    proof {
        let n = 2 * (r * c) + ONE;
        assert(-(2 * ONE) * r <= n - ONE && n - ONE <= 2 * ONE * r) by (nonlinear_arith)
            requires
                n == 2 * (r * c) + ONE,
                -ONE <= c <= ONE,
                r >= 0,
        ;
        assert(-(r as int) <= n / (2 * ONE as int) <= r) by (nonlinear_arith)
            requires
                -(2 * ONE) * r + ONE <= n <= 2 * ONE * r + ONE,
                r >= 0,
        ;
    }
    x as i64
}

/// The anchor at distance `r` from the centre in direction `d`.
fn place_anchor(r: u32, d: Dir) -> (a: Vec3)
    requires
        d.wf(),
    ensures
        a@ == anchor_point(r as int, d),
        within(a@, ANCHOR_LIMIT as int),
{
    Vec3 { x: scale(r, d.c), y: scale(r, d.s), z: 0 }
}

/// A six-legged platform: the fixed anchors of its legs, the vertical offset
/// of its neutral pose, and the leg vectors of the latest pose.
pub struct Stewart {
    legs: Vec<Leg>,
    t0: i64,
    min_leg_length: u32,
    max_leg_length: u32,
}

impl Stewart {
    pub closed spec fn legs_view(&self) -> Seq<Leg> {
        self.legs@
    }

    pub open spec fn base_spec(&self, i: int) -> Point {
        self.legs_view()[i].base@
    }

    pub open spec fn platform_spec(&self, i: int) -> Point {
        self.legs_view()[i].platform@
    }

    pub open spec fn vector_spec(&self, i: int) -> Point {
        self.legs_view()[i].vector@
    }

    pub closed spec fn height_spec(&self) -> int {
        self.t0 as int
    }

    /// The nominal leg length, which is also the advisory lower bound.
    pub closed spec fn nominal_spec(&self) -> nat {
        self.min_leg_length as nat
    }

    pub closed spec fn max_spec(&self) -> nat {
        self.max_leg_length as nat
    }

    /// Six legs whose anchors lie in their planes within the reach of a `u32`
    /// radius, whose placed anchors and vectors are bounded, and whose
    /// vertical offset makes leg 0 exactly as long as the nominal length at the
    /// neutral pose (up to rounding the offset down).
    pub open spec fn wf(&self) -> bool {
        &&& self.legs_view().len() == LEGS
        &&& forall|i: int|
            0 <= i < 6 ==> {
                let leg = #[trigger] self.legs_view()[i];
                &&& within(leg.base@, ANCHOR_LIMIT as int)
                &&& leg.base.z == 0
                &&& within(leg.platform@, ANCHOR_LIMIT as int)
                &&& leg.platform.z == 0
                &&& within(leg.anchor@, LEG_LIMIT as int)
                &&& within(leg.vector@, LEG_LIMIT as int)
            }
        &&& 0 <= self.height_spec() <= HEIGHT_LIMIT
        &&& is_floor_sqrt(
            self.height_spec(),
            neutral_height_sq(self.nominal_spec() as int, self.base_spec(0), self.platform_spec(0)),
        )
    }

    /// Both platforms have the same anchors, vertical offset and bounds.
    pub open spec fn same_frame(&self, other: &Stewart) -> bool {
        &&& self.legs_view().len() == other.legs_view().len()
        &&& forall|i: int|
            0 <= i < self.legs_view().len() ==> (#[trigger] self.legs_view()[i]).base == other.legs_view()[i].base
                && self.legs_view()[i].platform == other.legs_view()[i].platform
        &&& self.height_spec() == other.height_spec()
        &&& self.nominal_spec() == other.nominal_spec()
        &&& self.max_spec() == other.max_spec()
    }

    /// Every leg holds what the pose `(t, q)` makes of it.
    pub open spec fn at_pose(&self, t: Point, q: Quat) -> bool {
        forall|i: int|
            0 <= i < 6 ==> {
                let leg = #[trigger] self.legs_view()[i];
                &&& leg.anchor@ == placed_anchor(leg.platform@, self.height_spec(), t, q)
                &&& leg.vector@ == leg_vector_at(leg.base@, leg.platform@, self.height_spec(), t, q)
            }
    }

    /// Builds the platform from the radii of the base and platform circles,
    /// the direction of each base and platform anchor, the nominal leg
    /// length and the advisory largest leg length, and places it at the
    /// neutral pose.
    ///
    /// The vertical offset is the square root, rounded down, of
    /// `|nominal^2 - d^2|` with `d` the planar distance between the anchors of
    /// leg 0.
    pub fn new(
        base_radius: u32,
        platform_radius: u32,
        base_dirs: [Dir; 6],
        platform_dirs: [Dir; 6],
        leg_length: u32,
        max_leg_length: u32,
    ) -> (s: Self)
        requires
            forall|i: int| 0 <= i < 6 ==> (#[trigger] base_dirs@[i]).wf(),
            forall|i: int| 0 <= i < 6 ==> (#[trigger] platform_dirs@[i]).wf(),
        ensures
            s.wf(),
            forall|i: int|
                0 <= i < 6 ==> s.base_spec(i) == anchor_point(base_radius as int, base_dirs@[i])
                    && s.platform_spec(i) == anchor_point(
                    platform_radius as int,
                    #[trigger] platform_dirs@[i],
                ),
            is_floor_sqrt(
                s.height_spec(),
                neutral_height_sq(leg_length as int, s.base_spec(0), s.platform_spec(0)),
            ),
            s.nominal_spec() == leg_length,
            s.max_spec() == max_leg_length,
            s.at_pose(origin(), Quat::identity_spec()),
    {
        let rest = Vec3 { x: 0, y: 0, z: 0 };
        let mut legs: Vec<Leg> = Vec::new();
        let mut i: usize = 0;
        while i < LEGS
            invariant
                i <= 6,
                legs.len() == i,
                forall|k: int| 0 <= k < 6 ==> (#[trigger] base_dirs@[k]).wf(),
                forall|k: int| 0 <= k < 6 ==> (#[trigger] platform_dirs@[k]).wf(),
                forall|j: int|
                    0 <= j < i ==> {
                        let leg = #[trigger] legs@[j];
                        &&& leg.base@ == anchor_point(base_radius as int, base_dirs@[j])
                        &&& leg.platform@ == anchor_point(platform_radius as int, platform_dirs@[j])
                        &&& within(leg.base@, ANCHOR_LIMIT as int)
                        &&& within(leg.platform@, ANCHOR_LIMIT as int)
                        &&& leg.anchor == rest
                        &&& leg.vector == rest
                    },
            decreases 6 - i,
        {
            let base = place_anchor(base_radius, base_dirs[i]);
            let platform = place_anchor(platform_radius, platform_dirs[i]);
            legs.push(Leg { base, platform, anchor: rest, vector: rest });
            i = i + 1;
        }
        let t0 = height_for(leg_length, legs[0].base, legs[0].platform);
        let mut s = Stewart { legs, t0, min_leg_length: leg_length, max_leg_length };
        s.update(rest, Quat::identity());
        s
    }

    /// Places the platform at the pose `(translation, orientation)`: each
    /// platform anchor is rotated by `orientation`, moved by `translation` and
    /// lifted by the vertical offset, and each leg vector runs from the base
    /// anchor to it. Nothing of an earlier pose remains.
    ///
    /// `orientation` must be a unit quaternion (norm `ONE`, up to rounding):
    /// the rotation formula preserves lengths only then, and nothing here
    /// normalises it.
    pub fn update(&mut self, translation: Vec3, orientation: Quat)
        requires
            old(self).wf(),
            orientation.wf(),
            within(translation@, COORD_LIMIT as int),
        ensures
            final(self).wf(),
            final(self).same_frame(old(self)),
            final(self).at_pose(translation@, orientation),
    {
        let ghost start = *self;
        let mut i: usize = 0;
        while i < LEGS
            invariant
                i <= 6,
                start.wf(),
                orientation.wf(),
                within(translation@, COORD_LIMIT as int),
                self.wf(),
                self.same_frame(&start),
                forall|j: int|
                    0 <= j < i ==> {
                        let leg = #[trigger] self.legs@[j];
                        &&& leg.anchor@ == placed_anchor(
                            leg.platform@,
                            self.t0 as int,
                            translation@,
                            orientation,
                        )
                        &&& leg.vector@ == leg_vector_at(
                            leg.base@,
                            leg.platform@,
                            self.t0 as int,
                            translation@,
                            orientation,
                        )
                    },
            decreases 6 - i,
        {
            let leg = self.legs[i];
            assert(within(leg.platform@, ANCHOR_LIMIT as int));
            let o = rotate_vector(orientation, leg.platform);
            let anchor = Vec3 {
                x: translation.x + o.x,
                y: translation.y + o.y,
                z: translation.z + o.z + self.t0,
            };
            let vector = Vec3 {
                x: anchor.x - leg.base.x,
                y: anchor.y - leg.base.y,
                z: anchor.z - leg.base.z,
            };
            self.legs.set(i, Leg { base: leg.base, platform: leg.platform, anchor, vector });
            i = i + 1;
        }
    }

    /// The length of leg `leg` at the latest pose: the Euclidean norm of its
    /// vector, rounded down.
    pub fn leg_length(&self, leg: usize) -> (r: u64)
        requires
            self.wf(),
            leg < LEGS,
        ensures
            is_floor_sqrt(r as int, norm_sq(self.vector_spec(leg as int))),
    {
        let v = self.legs[leg].vector;
        let x = v.x as i128;
        let y = v.y as i128;
        let z = v.z as i128;
        proof {
            square_bound(x as int);
            square_bound(y as int);
            square_bound(z as int);
        }
        let n: i128 = x * x + y * y + z * z;
        isqrt(n as u128)
    }

    /// The lengths of all six legs at the latest pose, in leg order.
    pub fn leg_lengths(&self) -> (r: Vec<u64>)
        requires
            self.wf(),
        ensures
            r.len() == LEGS,
            forall|i: int|
                0 <= i < 6 ==> is_floor_sqrt(#[trigger] r@[i] as int, norm_sq(self.vector_spec(i))),
    {
        let mut r: Vec<u64> = Vec::new();
        let mut i: usize = 0;
        while i < LEGS
            invariant
                self.wf(),
                i <= 6,
                r.len() == i,
                forall|j: int|
                    0 <= j < i ==> is_floor_sqrt(
                        #[trigger] r@[j] as int,
                        norm_sq(self.vector_spec(j)),
                    ),
            decreases 6 - i,
        {
            let n = self.leg_length(i);
            r.push(n);
            i = i + 1;
        }
        r
    }

    /// Base anchor `leg`, in the base frame.
    pub fn base_anchor(&self, leg: usize) -> (r: Vec3)
        requires
            self.wf(),
            leg < LEGS,
        ensures
            r@ == self.base_spec(leg as int),
    {
        self.legs[leg].base
    }

    /// Platform anchor `leg`, in the platform frame.
    pub fn platform_anchor(&self, leg: usize) -> (r: Vec3)
        requires
            self.wf(),
            leg < LEGS,
        ensures
            r@ == self.platform_spec(leg as int),
    {
        self.legs[leg].platform
    }

    /// Platform anchor `leg` placed in the base frame by the latest pose.
    pub fn placed_anchor(&self, leg: usize) -> (r: Vec3)
        requires
            self.wf(),
            leg < LEGS,
        ensures
            r == self.legs_view()[leg as int].anchor,
    {
        self.legs[leg].anchor
    }

    /// The vector of leg `leg` at the latest pose.
    pub fn leg_vector(&self, leg: usize) -> (r: Vec3)
        requires
            self.wf(),
            leg < LEGS,
        ensures
            r@ == self.vector_spec(leg as int),
    {
        self.legs[leg].vector
    }

    /// The vertical offset between the base and the platform at the neutral
    /// pose.
    pub fn neutral_height(&self) -> (r: i64)
        ensures
            r == self.height_spec(),
    {
        self.t0
    }

    /// The nominal leg length, kept as the advisory lower bound.
    pub fn min_leg_length(&self) -> (r: u32)
        ensures
            r == self.nominal_spec(),
    {
        self.min_leg_length
    }

    /// The advisory upper bound on a leg's length; nothing here enforces it.
    pub fn max_leg_length(&self) -> (r: u32)
        ensures
            r == self.max_spec(),
    {
        self.max_leg_length
    }
}

impl Default for Stewart {
    /// The platform whose anchors all sit at the origin, with no vertical
    /// offset and zero length bounds, placed at the neutral pose: every placed
    /// anchor and every leg vector is the origin.
    fn default() -> (s: Self)
        ensures
            s.wf(),
            forall|i: int|
                0 <= i < 6 ==> s.base_spec(i) == origin() && s.platform_spec(i) == origin()
                    && s.legs_view()[i].anchor@ == origin()
                    && #[trigger] s.vector_spec(i) == origin(),
            s.at_pose(origin(), Quat::identity_spec()),
            s.height_spec() == 0,
            s.nominal_spec() == 0,
            s.max_spec() == 0,
    {
        let zero = Vec3 { x: 0, y: 0, z: 0 };
        let leg = Leg { base: zero, platform: zero, anchor: zero, vector: zero };
        let mut legs: Vec<Leg> = Vec::new();
        let mut i: usize = 0;
        while i < LEGS
            invariant
                i <= 6,
                legs.len() == i,
                forall|j: int| 0 <= j < i ==> #[trigger] legs@[j] == leg,
            decreases 6 - i,
        {
            legs.push(leg);
            i = i + 1;
        }
        let s = Stewart { legs, t0: 0, min_leg_length: 0, max_leg_length: 0 };
        assert(is_floor_sqrt(0, neutral_height_sq(0, zero@, zero@)));
        proof {
            lemma_rotate_identity(origin());
        }
        s
    }
}

/// `x * x` for a coordinate of a leg vector stays under 2^93.
proof fn square_bound(x: int)
    requires
        -LEG_LIMIT <= x <= LEG_LIMIT,
    ensures
        0 <= x * x <= 9903520314283042199192993792,
{
    assert(0 <= x * x <= LEG_LIMIT * LEG_LIMIT) by (nonlinear_arith)
        requires
            -LEG_LIMIT <= x <= LEG_LIMIT,
    ;
}

/// The vertical offset at which a leg of length `nominal` spans the planar
/// distance between `b` and `p`: the square root, rounded down, of
/// `|nominal^2 - d^2|`.
fn height_for(nominal: u32, b: Vec3, p: Vec3) -> (t0: i64)
    requires
        within(b@, ANCHOR_LIMIT as int),
        within(p@, ANCHOR_LIMIT as int),
    ensures
        is_floor_sqrt(t0 as int, neutral_height_sq(nominal as int, b@, p@)),
        0 <= t0 <= HEIGHT_LIMIT,
{
    let dx = (p.x as i128) - (b.x as i128);
    let dy = (p.y as i128) - (b.y as i128);
    let l = nominal as i128;
    proof {
        span_bound(dx as int);
        span_bound(dy as int);
        span_bound(l as int);
    }
    let d2: i128 = dx * dx + dy * dy;
    let l2: i128 = l * l;
    let h: i128 = if l2 >= d2 {
        l2 - d2
    } else {
        d2 - l2
    };
    let t0 = isqrt(h as u128);
    proof {
        assert(t0 <= HEIGHT_LIMIT) by (nonlinear_arith)
            requires
                t0 * t0 <= h,
                h <= 2 * 73786976294838206464,
                t0 >= 0,
        ;
    }
    t0 as i64
}

/// The square of a planar span between two anchors stays under 2^66.
proof fn span_bound(d: int)
    requires
        -2 * ANCHOR_LIMIT <= d <= 2 * ANCHOR_LIMIT,
    ensures
        0 <= d * d <= 73786976294838206464,
{
    assert(0 <= d * d <= 73786976294838206464) by (nonlinear_arith)
        requires
            -8589934590 <= d <= 8589934590,
    ;
}

} // verus!
