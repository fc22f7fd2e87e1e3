use stewart::geometry::{div_floor, rotate_vector, Quat, Vec3, ONE};
use stewart::isqrt::isqrt;
use stewart::stewart::{leg_angles, Dir, Stewart, PI_THIRD_NRAD};

/// Micrometres per millimetre: the tests give lengths in micrometres.
const UM: u32 = 1000;

fn dir(angle_nrad: i64) -> Dir {
    let a = angle_nrad as f64 * 1e-9;
    Dir {
        c: (a.cos() * ONE as f64).round() as i64,
        s: (a.sin() * ONE as f64).round() as i64,
    }
}

fn build(base: u32, platform: u32, shaft_urad: i32, anchor_urad: i32, leg: u32, max: u32) -> Stewart {
    let angles = leg_angles(shaft_urad, anchor_urad);
    let mut b = [Dir { c: 0, s: 0 }; 6];
    let mut p = [Dir { c: 0, s: 0 }; 6];
    for i in 0..6 {
        b[i] = dir(angles[i].base);
        p[i] = dir(angles[i].platform);
    }
    Stewart::new(base, platform, b, p, leg, max)
}

fn quat(w: f64, x: f64, y: f64, z: f64) -> Quat {
    let n = (w * w + x * x + y * y + z * z).sqrt();
    let f = |c: f64| (c / n * ONE as f64).round() as i64;
    Quat { w: f(w), x: f(x), y: f(y), z: f(z) }
}

fn v(x: i64, y: i64, z: i64) -> Vec3 {
    Vec3 { x, y, z }
}

fn lengths(s: &Stewart) -> Vec<u64> {
    s.leg_lengths()
}

fn reference() -> Stewart {
    build(206 * UM, 206 * UM, 53146, 53146, 320 * UM, 520 * UM)
}

#[test]
fn it_works() {
    let mut s = build(206 * UM, 206 * UM, 53146, 53146, 320 * UM, 520 * UM);
    for i in 0..6 {
        let l = s.leg_length(i);
        assert!(l.abs_diff(320 * UM as u64) <= 2, "leg {} is {}", i, l);
    }
    s.update(v(0, 0, 0), quat(1.0, 0.0, 0.0, 0.0));
    for i in 0..6 {
        assert!(s.leg_length(i).abs_diff(320 * UM as u64) <= 2);
    }
    s.update(v(0, 0, 200 * UM as i64), quat(1.0, 0.0, 0.0, 0.0));
    for i in 0..6 {
        let l = s.leg_length(i);
        assert!(l > 320 * UM as u64 && l < 520 * UM as u64, "leg {} is {}", i, l);
    }
    s.update(v(0, 0, 0), quat(1.0, 0.0, 0.0, 0.0));
    for i in 0..6 {
        assert!(s.leg_length(i).abs_diff(320 * UM as u64) <= 2);
    }
    s.update(v(0, 200 * UM as i64, 0), quat(1.0, 10.0, 0.0, 0.0));
    let tilted = lengths(&s);
    assert!(tilted.iter().any(|&l| l.abs_diff(320 * UM as u64) > 1000));
    s.update(v(0, 0, 0), quat(1.0, 0.0, 0.0, 0.0));
    for i in 0..6 {
        assert!(s.leg_length(i).abs_diff(320 * UM as u64) <= 2);
    }
}

#[test]
fn neutral_pose_gives_nominal_lengths() {
    let cases = [
        (206 * UM, 206 * UM, 53146, 53146, 320 * UM),
        (150 * UM, 100 * UM, 200000, 100000, 250 * UM),
        (300 * UM, 120 * UM, 0, 0, 400 * UM),
    ];
    for &(b, p, sh, an, l) in cases.iter() {
        let s = build(b, p, sh, an, l, 2 * l);
        for i in 0..6 {
            assert!(s.leg_length(i).abs_diff(l as u64) <= 2, "leg {} of {:?}", i, (b, p, l));
        }
        // leg 0 sets the height: it is exact up to one unit
        let l0 = s.leg_length(0);
        assert!(l0 == l as u64 || l0 + 1 == l as u64);
    }
}

#[test]
fn vertical_translation_changes_all_legs_alike() {
    let mut s = reference();
    let t0 = s.neutral_height() as i128;
    let sq = |s: &Stewart, i: usize| {
        let w = s.leg_vector(i);
        (w.x as i128).pow(2) + (w.y as i128).pow(2) + (w.z as i128).pow(2)
    };
    let neutral: Vec<i128> = (0..6).map(|i| sq(&s, i)).collect();
    for &d in [1i64, 5000, -5000, 200000].iter() {
        s.update(v(0, 0, d), Quat::identity());
        for i in 0..6 {
            let moved = sq(&s, i);
            let dd = d as i128;
            assert_eq!(moved, neutral[i] + 2 * t0 * dd + dd * dd);
            if d > 0 {
                assert!(moved > neutral[i]);
            } else {
                assert!(moved < neutral[i]);
            }
        }
    }
}

#[test]
fn conjugated_pose_permutes_lengths_by_two() {
    let mut s = reference();
    let (tx, ty, tz) = (10000.0f64, 5000.0f64, 20000.0f64);
    let q = (0.99f64, 0.1f64, 0.05f64, 0.02f64);
    s.update(v(tx as i64, ty as i64, tz as i64), quat(q.0, q.1, q.2, q.3));
    let a = lengths(&s);
    // rotate the whole pose by 120 degrees about the vertical axis
    let (c, sn) = ((2.0 * std::f64::consts::PI / 3.0).cos(), (2.0 * std::f64::consts::PI / 3.0).sin());
    let t2 = (c * tx - sn * ty, sn * tx + c * ty, tz);
    let g = ((std::f64::consts::PI / 3.0).cos(), 0.0, 0.0, (std::f64::consts::PI / 3.0).sin());
    let mul = |a: (f64, f64, f64, f64), b: (f64, f64, f64, f64)| {
        (
            a.0 * b.0 - a.1 * b.1 - a.2 * b.2 - a.3 * b.3,
            a.0 * b.1 + a.1 * b.0 + a.2 * b.3 - a.3 * b.2,
            a.0 * b.2 - a.1 * b.3 + a.2 * b.0 + a.3 * b.1,
            a.0 * b.3 + a.1 * b.2 - a.2 * b.1 + a.3 * b.0,
        )
    };
    let qn = (q.0 * q.0 + q.1 * q.1 + q.2 * q.2 + q.3 * q.3).sqrt();
    let qu = (q.0 / qn, q.1 / qn, q.2 / qn, q.3 / qn);
    let r = mul(mul(g, qu), (g.0, -g.1, -g.2, -g.3));
    s.update(v(t2.0.round() as i64, t2.1.round() as i64, t2.2 as i64), quat(r.0, r.1, r.2, r.3));
    let b = lengths(&s);
    for i in 0..6 {
        assert!(b[(i + 2) % 6].abs_diff(a[i]) <= 5, "leg {}: {} vs {}", i, b[(i + 2) % 6], a[i]);
    }
    // the pose differs, so the lengths are not simply the same in place
    assert!((0..6).any(|i| b[i].abs_diff(a[i]) > 100));
}

#[test]
fn rotation_about_vertical_axis_repeats_every_two_legs() {
    let mut s = reference();
    let h = std::f64::consts::PI / 3.0;
    s.update(v(0, 0, 0), quat(h.cos(), 0.0, 0.0, h.sin()));
    let l = lengths(&s);
    for i in 0..6 {
        assert!(l[(i + 2) % 6].abs_diff(l[i]) <= 5);
    }
}

#[test]
fn update_twice_gives_same_legs() {
    let mut s = reference();
    let t = v(1234, -5678, 9012);
    let q = quat(0.95, 0.1, -0.2, 0.05);
    s.update(t, q);
    let first: Vec<Vec3> = (0..6).map(|i| s.leg_vector(i)).collect();
    let first_len = lengths(&s);
    s.update(t, q);
    let second: Vec<Vec3> = (0..6).map(|i| s.leg_vector(i)).collect();
    assert_eq!(first, second);
    assert_eq!(first_len, lengths(&s));
}

#[test]
fn latest_pose_alone_decides() {
    let mut s = reference();
    let (ta, qa) = (v(3000, 4000, 50000), quat(0.9, 0.3, 0.1, -0.1));
    let (tb, qb) = (v(-20000, 0, -10000), quat(0.8, -0.2, 0.4, 0.3));
    s.update(ta, qa);
    let first: Vec<Vec3> = (0..6).map(|i| s.placed_anchor(i)).collect();
    let first_len = lengths(&s);
    s.update(tb, qb);
    assert_ne!(first_len, lengths(&s));
    s.update(ta, qa);
    let third: Vec<Vec3> = (0..6).map(|i| s.placed_anchor(i)).collect();
    assert_eq!(first, third);
    assert_eq!(first_len, lengths(&s));
}

#[test]
fn leg_angles_follow_the_sector_rule() {
    let a = leg_angles(1000, 2000);
    let p = PI_THIRD_NRAD;
    let expected = [
        (500000, p - 1000000),
        (2 * p - 500000, p + 1000000),
        (2 * p + 500000, 3 * p - 1000000),
        (4 * p - 500000, 3 * p + 1000000),
        (4 * p + 500000, 5 * p - 1000000),
        (6 * p - 500000, 5 * p + 1000000),
    ];
    assert_eq!(a.len(), 6);
    for i in 0..6 {
        assert_eq!((a[i].base, a[i].platform), expected[i]);
    }
    let z = leg_angles(0, 0);
    assert_eq!(z[1].base, 2 * p);
    assert_eq!(z[1].platform, p);
}

#[test]
fn anchors_round_to_nearest() {
    let half = ONE / 2;
    let b = [
        Dir { c: ONE, s: 0 },
        Dir { c: half, s: -half },
        Dir { c: 0, s: ONE },
        Dir { c: -ONE, s: 0 },
        Dir { c: 0, s: -ONE },
        Dir { c: half, s: half },
    ];
    let p = [Dir { c: ONE, s: 0 }; 6];
    let s = Stewart::new(3, 1000, b, p, 10, 20);
    assert_eq!(s.base_anchor(0), v(3, 0, 0));
    // 1.5 rounds up to 2, -1.5 rounds up to -1
    assert_eq!(s.base_anchor(1), v(2, -1, 0));
    assert_eq!(s.base_anchor(2), v(0, 3, 0));
    assert_eq!(s.base_anchor(3), v(-3, 0, 0));
    assert_eq!(s.platform_anchor(4), v(1000, 0, 0));
    assert_eq!(s.min_leg_length(), 10);
    assert_eq!(s.max_leg_length(), 20);
}

#[test]
fn height_is_floor_root_of_abs_difference() {
    // leg 0 spans 3 in the plane; nominal 5 gives a height of 4
    let b = [Dir { c: 0, s: 0 }; 6];
    let p = [Dir { c: ONE, s: 0 }; 6];
    let s = Stewart::new(0, 3, b, p, 5, 9);
    assert_eq!(s.neutral_height(), 4);
    assert_eq!(s.leg_length(0), 5);
    assert_eq!(s.leg_vector(0), v(3, 0, 4));
    // nominal 2 is shorter than the span: |4 - 9| = 5, root 2
    let t = Stewart::new(0, 3, b, p, 2, 9);
    assert_eq!(t.neutral_height(), 2);
    // equal span and nominal length: the platform lies in the base plane
    let u = Stewart::new(0, 3, b, p, 3, 9);
    assert_eq!(u.neutral_height(), 0);
}

#[test]
fn isqrt_rounds_down() {
    assert_eq!(isqrt(0), 0);
    assert_eq!(isqrt(1), 1);
    assert_eq!(isqrt(2), 1);
    assert_eq!(isqrt(15), 3);
    assert_eq!(isqrt(16), 4);
    assert_eq!(isqrt(102400000000), 320000);
    assert_eq!(isqrt((1u128 << 126) - 1), (1u64 << 63) - 1);
}

#[test]
fn div_floor_rounds_toward_negative_infinity() {
    assert_eq!(div_floor(7, 2), 3);
    assert_eq!(div_floor(-7, 2), -4);
    assert_eq!(div_floor(-6, 3), -2);
    assert_eq!(div_floor(0, 5), 0);
}

#[test]
fn rotation_by_exact_quaternions() {
    let p = v(1000, -250, 42);
    assert_eq!(rotate_vector(Quat::identity(), p), p);
    // half a turn about z
    assert_eq!(rotate_vector(Quat { w: 0, x: 0, y: 0, z: ONE }, p), v(-1000, 250, 42));
    // half a turn about x
    assert_eq!(rotate_vector(Quat { w: 0, x: ONE, y: 0, z: 0 }, p), v(1000, 250, -42));
    // a quarter turn about z, within rounding
    let q = quat(1.0, 0.0, 0.0, 1.0);
    let r = rotate_vector(q, v(1000, 0, 0));
    assert!(r.x.abs() <= 1 && (r.y - 1000).abs() <= 1 && r.z == 0, "{:?}", r);
}

#[test]
fn default_platform_is_all_zero() {
    let s = Stewart::default();
    for i in 0..6 {
        assert_eq!(s.base_anchor(i), v(0, 0, 0));
        assert_eq!(s.platform_anchor(i), v(0, 0, 0));
        assert_eq!(s.leg_vector(i), v(0, 0, 0));
        assert_eq!(s.placed_anchor(i), v(0, 0, 0));
        assert_eq!(s.leg_length(i), 0);
    }
    assert_eq!(s.neutral_height(), 0);
    assert_eq!((s.min_leg_length(), s.max_leg_length()), (0, 0));
}

#[test]
fn vertical_move_sets_leg_height_only() {
    let mut s = reference();
    let t0 = s.neutral_height();
    let d: i64 = 12345;
    s.update(v(0, 0, d), Quat::identity());
    for i in 0..6 {
        let b = s.base_anchor(i);
        let p = s.platform_anchor(i);
        assert_eq!(s.leg_vector(i), v(p.x - b.x, p.y - b.y, t0 + d));
    }
}

#[test]
fn lifting_never_shortens_a_leg() {
    let mut s = reference();
    let t0 = s.neutral_height();
    let mut previous: Vec<u64> = Vec::new();
    for &d in [-t0, -t0 / 2, 0, 1000, 200000].iter() {
        s.update(v(0, 0, d), Quat::identity());
        let now = lengths(&s);
        if !previous.is_empty() {
            for i in 0..6 {
                assert!(now[i] >= previous[i]);
            }
        }
        previous = now;
    }
}
