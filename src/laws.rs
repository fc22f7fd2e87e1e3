//! What holds of every platform and every sequence of poses.
use vstd::prelude::*;

use crate::geometry::{lemma_rotate_identity, norm_sq, Point, Quat};
use crate::isqrt::is_floor_sqrt;
use crate::stewart::{leg_vector_at, origin, planar_dist_sq, Stewart};

verus! {

/// How much the rounding of the vertical offset takes off the square of the
/// nominal length: `nominal^2 - d0^2 - t0^2`, with `d0` the planar span of
/// leg 0.
pub open spec fn height_rounding(s: Stewart) -> int {
    s.nominal_spec() * s.nominal_spec() - planar_dist_sq(s.base_spec(0), s.platform_spec(0)) - s.height_spec()
        * s.height_spec()
}

/// The planar span between the anchors of leg `i`, squared.
pub open spec fn span_sq(s: Stewart, i: int) -> int {
    planar_dist_sq(s.base_spec(i), s.platform_spec(i))
}

/// With no rotation, the squared length of a leg is its planar span squared
/// plus the square of its height.
proof fn lemma_unrotated_leg(s: Stewart, i: int, dz: int)
    requires
        s.wf(),
        0 <= i < 6,
    ensures
        norm_sq(
            leg_vector_at(
                s.base_spec(i),
                s.platform_spec(i),
                s.height_spec(),
                (0, 0, dz),
                Quat::identity_spec(),
            ),
        ) == span_sq(s, i) + (s.height_spec() + dz) * (s.height_spec() + dz),
{
    let leg = s.legs_view()[i];
    lemma_rotate_identity(leg.platform@);
}

/// At the neutral pose, each leg's squared length is the nominal length
/// squared, plus the amount by which its planar span squared exceeds leg 0's,
/// less the rounding `e` of the vertical offset, where `0 <= e <= 2 t0`. So a
/// leg whose planar span equals leg 0's is, once rounded down, as long as the
/// nominal length or one unit shorter. This holds where the nominal length
/// reaches across leg 0's planar span.
pub proof fn lemma_neutral_pose(s: Stewart, i: int, r: int)
    requires
        s.wf(),
        s.at_pose(origin(), Quat::identity_spec()),
        span_sq(s, 0) <= s.nominal_spec() * s.nominal_spec(),
        0 <= i < 6,
    ensures
        0 <= height_rounding(s) <= 2 * s.height_spec(),
        norm_sq(s.vector_spec(i)) == s.nominal_spec() * s.nominal_spec() - height_rounding(s)
            + (span_sq(s, i) - span_sq(s, 0)),
        span_sq(s, i) == span_sq(s, 0) && is_floor_sqrt(r, norm_sq(s.vector_spec(i)))
            ==> s.nominal_spec() - 1 <= r <= s.nominal_spec(),
{
    let l = s.nominal_spec();
    let t0 = s.height_spec();
    let d0 = span_sq(s, 0);
    let e = height_rounding(s);
    lemma_unrotated_leg(s, i, 0);
    assert(s.legs_view()[i].vector@ == leg_vector_at(
        s.base_spec(i),
        s.platform_spec(i),
        t0,
        origin(),
        Quat::identity_spec(),
    ));
    assert(0 <= e <= 2 * t0) by (nonlinear_arith)
        requires
            t0 >= 0,
            t0 * t0 <= l * l - d0 < (t0 + 1) * (t0 + 1),
            e == l * l - d0 - t0 * t0,
    ;
    assert(d0 >= 0) by (nonlinear_arith)
        requires
            d0 == planar_dist_sq(s.base_spec(0), s.platform_spec(0)),
    ;
    if span_sq(s, i) == d0 && is_floor_sqrt(r, norm_sq(s.vector_spec(i))) {
        assert(l - 1 <= r <= l) by (nonlinear_arith)
            requires
                l >= 0,
                t0 >= 0,
                d0 >= 0,
                t0 * t0 <= l * l - d0,
                e == l * l - d0 - t0 * t0,
                0 <= e <= 2 * t0,
                r >= 0,
                r * r <= l * l - e,
                l * l - e < (r + 1) * (r + 1),
        ;
    }
}

/// Moving the platform by `d` straight along the vertical axis, without
/// rotation, changes the squared length of every leg by the same amount,
/// `2 t0 d + d^2`: for `d > 0` all six legs lengthen, and for
/// `-2 t0 < d < 0` all six shorten. Rounded down, the lengths `ra` before and
/// `rb` after move the same way, or stay.
pub proof fn lemma_vertical_translation(a: Stewart, b: Stewart, d: int, i: int, ra: int, rb: int)
    requires
        a.wf(),
        b.same_frame(&a),
        a.at_pose(origin(), Quat::identity_spec()),
        b.at_pose((0, 0, d), Quat::identity_spec()),
        0 <= i < 6,
    ensures
        norm_sq(b.vector_spec(i)) == norm_sq(a.vector_spec(i)) + 2 * a.height_spec() * d + d * d,
        d > 0 ==> norm_sq(b.vector_spec(i)) > norm_sq(a.vector_spec(i)),
        -2 * a.height_spec() < d < 0 ==> norm_sq(b.vector_spec(i)) < norm_sq(a.vector_spec(i)),
        is_floor_sqrt(ra, norm_sq(a.vector_spec(i))) && is_floor_sqrt(rb, norm_sq(b.vector_spec(i)))
            ==> (d > 0 ==> ra <= rb) && (-2 * a.height_spec() < d < 0 ==> rb <= ra),
{
    let t0 = a.height_spec();
    lemma_unrotated_leg(a, i, 0);
    lemma_unrotated_leg(a, i, d);
    assert(a.legs_view()[i].vector@ == leg_vector_at(
        a.base_spec(i),
        a.platform_spec(i),
        t0,
        origin(),
        Quat::identity_spec(),
    ));
    assert(b.legs_view()[i].vector@ == leg_vector_at(
        b.base_spec(i),
        b.platform_spec(i),
        b.height_spec(),
        (0, 0, d),
        Quat::identity_spec(),
    ));
    assert((t0 + d) * (t0 + d) == t0 * t0 + 2 * t0 * d + d * d) by (nonlinear_arith);
    assert(d > 0 ==> 2 * t0 * d + d * d > 0) by (nonlinear_arith)
        requires
            t0 >= 0,
    ;
    assert(-2 * t0 < d < 0 ==> 2 * t0 * d + d * d < 0) by (nonlinear_arith);
    if is_floor_sqrt(ra, norm_sq(a.vector_spec(i))) && is_floor_sqrt(rb, norm_sq(b.vector_spec(i))) {
        lemma_floor_sqrt_monotone(ra, norm_sq(a.vector_spec(i)), rb, norm_sq(b.vector_spec(i)));
        lemma_floor_sqrt_monotone(rb, norm_sq(b.vector_spec(i)), ra, norm_sq(a.vector_spec(i)));
    }
}

/// A move straight up by `d`, without rotation, leaves each leg vector's
/// planar part as its anchors' planar offset and makes its height `t0 + d`.
pub proof fn lemma_vertical_leg_vector(s: Stewart, d: int, i: int)
    requires
        s.wf(),
        s.at_pose((0, 0, d), Quat::identity_spec()),
        0 <= i < 6,
    ensures
        s.vector_spec(i) == (
            s.platform_spec(i).0 - s.base_spec(i).0,
            s.platform_spec(i).1 - s.base_spec(i).1,
            s.height_spec() + d,
        ),
{
    let leg = s.legs_view()[i];
    lemma_rotate_identity(leg.platform@);
}

/// Once the platform is at or above the base plane, lifting it further,
/// without rotation, never shortens a leg: from a lift `d1 >= -t0` to a lift
/// `d2 >= d1`, each squared length and each rounded-down length grows or
/// stays.
pub proof fn lemma_lift_monotone(
    a: Stewart,
    b: Stewart,
    d1: int,
    d2: int,
    i: int,
    ra: int,
    rb: int,
)
    requires
        a.wf(),
        b.same_frame(&a),
        a.at_pose((0, 0, d1), Quat::identity_spec()),
        b.at_pose((0, 0, d2), Quat::identity_spec()),
        -a.height_spec() <= d1 <= d2,
        0 <= i < 6,
    ensures
        norm_sq(a.vector_spec(i)) <= norm_sq(b.vector_spec(i)),
        is_floor_sqrt(ra, norm_sq(a.vector_spec(i))) && is_floor_sqrt(rb, norm_sq(b.vector_spec(i)))
            ==> ra <= rb,
{
    let t0 = a.height_spec();
    lemma_unrotated_leg(a, i, d1);
    lemma_unrotated_leg(a, i, d2);
    assert(a.legs_view()[i].vector@ == leg_vector_at(
        a.base_spec(i),
        a.platform_spec(i),
        t0,
        (0, 0, d1),
        Quat::identity_spec(),
    ));
    assert(b.legs_view()[i].vector@ == leg_vector_at(
        b.base_spec(i),
        b.platform_spec(i),
        b.height_spec(),
        (0, 0, d2),
        Quat::identity_spec(),
    ));
    assert((t0 + d1) * (t0 + d1) <= (t0 + d2) * (t0 + d2)) by (nonlinear_arith)
        requires
            0 <= t0 + d1 <= t0 + d2,
    ;
    if is_floor_sqrt(ra, norm_sq(a.vector_spec(i))) && is_floor_sqrt(rb, norm_sq(b.vector_spec(i))) {
        lemma_floor_sqrt_monotone(ra, norm_sq(a.vector_spec(i)), rb, norm_sq(b.vector_spec(i)));
    }
}

/// A number at least as large has a floor square root at least as large.
proof fn lemma_floor_sqrt_monotone(r1: int, n1: int, r2: int, n2: int)
    requires
        is_floor_sqrt(r1, n1),
        is_floor_sqrt(r2, n2),
    ensures
        n1 <= n2 ==> r1 <= r2,
{
    assert(n1 <= n2 ==> r1 <= r2) by (nonlinear_arith)
        requires
            r1 >= 0,
            r2 >= 0,
            r1 * r1 <= n1,
            n2 < (r2 + 1) * (r2 + 1),
    ;
}

/// Two platforms with the same frame placed at the same pose hold the same
/// legs.
proof fn lemma_pose_determines_legs(a: Stewart, b: Stewart, t: Point, q: Quat)
    requires
        a.wf(),
        b.same_frame(&a),
        a.at_pose(t, q),
        b.at_pose(t, q),
    ensures
        b.legs_view() == a.legs_view(),
{
    assert forall|i: int| 0 <= i < b.legs_view().len() implies b.legs_view()[i]
        == a.legs_view()[i] by {
        let x = a.legs_view()[i];
        let y = b.legs_view()[i];
        assert(y.anchor@ == x.anchor@);
        assert(y.vector@ == x.vector@);
    }
    assert(b.legs_view() =~= a.legs_view());
}

/// Placing a platform twice in a row at the same pose leaves the same legs
/// after the second placement as after the first.
pub proof fn lemma_update_idempotent(s1: Stewart, s2: Stewart, t: Point, q: Quat)
    requires
        s1.wf(),
        s1.at_pose(t, q),
        s2.same_frame(&s1),
        s2.at_pose(t, q),
    ensures
        s2.legs_view() == s1.legs_view(),
{
    lemma_pose_determines_legs(s1, s2, t, q);
}

/// The legs depend on the latest pose alone: placing a platform at pose `A`,
/// then at pose `B`, then at `A` again leaves the legs of the first placement.
pub proof fn lemma_latest_pose_only(
    s1: Stewart,
    s2: Stewart,
    s3: Stewart,
    ta: Point,
    qa: Quat,
    tb: Point,
    qb: Quat,
)
    requires
        s1.wf(),
        s1.at_pose(ta, qa),
        s2.same_frame(&s1),
        s2.at_pose(tb, qb),
        s3.same_frame(&s2),
        s3.at_pose(ta, qa),
    ensures
        s3.legs_view() == s1.legs_view(),
{
    assert(s3.same_frame(&s1));
    lemma_pose_determines_legs(s1, s3, ta, qa);
}

} // verus!
