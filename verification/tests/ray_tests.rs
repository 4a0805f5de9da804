use ray_tracer::matrix::Matrix4;
use ray_tracer::ray::Ray;
use ray_tracer::vector::Vec3;

// One unit is 65536 raw; these tests use exact fixed-point values.

#[test]
fn at_t() {
    let ray = Ray {
        origin: Vec3 { x: 2 * 65536, y: 3 * 65536, z: 4 * 65536 },
        direction: Vec3 { x: 65536, y: 0, z: 0 },
        t_max: i64::MAX,
    };
    assert_eq!(ray.at_t(0), Vec3 { x: 2 * 65536, y: 3 * 65536, z: 4 * 65536 });
    assert_eq!(ray.at_t(65536), Vec3 { x: 3 * 65536, y: 3 * 65536, z: 4 * 65536 });
    assert_eq!(ray.at_t(-65536), Vec3 { x: 65536, y: 3 * 65536, z: 4 * 65536 });
    // t = 2.5 lands exactly half way between whole steps.
    assert_eq!(ray.at_t(163840), Vec3 { x: 294912, y: 3 * 65536, z: 4 * 65536 });
}

#[test]
fn translating() {
    let ray = Ray {
        origin: Vec3 { x: 65536, y: 2 * 65536, z: 3 * 65536 },
        direction: Vec3 { x: 0, y: 65536, z: 0 },
        t_max: i64::MAX,
    };
    let t = Matrix4::from_translation(Vec3 { x: 3 * 65536, y: 4 * 65536, z: 5 * 65536 });
    let ray = t.transform(&ray);
    assert_eq!(ray.origin, Vec3 { x: 4 * 65536, y: 6 * 65536, z: 8 * 65536 });
    assert_eq!(ray.direction, Vec3 { x: 0, y: 65536, z: 0 });
}

#[test]
fn scaling() {
    let ray = Ray {
        origin: Vec3 { x: 65536, y: 2 * 65536, z: 3 * 65536 },
        direction: Vec3 { x: 0, y: 65536, z: 0 },
        t_max: i64::MAX,
    };
    let t = Matrix4::from_nonuniform_scale(2 * 65536, 3 * 65536, 4 * 65536);
    let ray = t.transform(&ray);
    assert_eq!(ray.origin, Vec3 { x: 2 * 65536, y: 6 * 65536, z: 12 * 65536 });
    assert_eq!(ray.direction, Vec3 { x: 0, y: 3 * 65536, z: 0 });
}

#[test]
fn transpose_swaps_rows_and_columns() {
    let m = Matrix4 {
        m00: 1, m01: 2, m02: 3, m03: 4,
        m10: 5, m11: 6, m12: 7, m13: 8,
        m20: 9, m21: 10, m22: 11, m23: 12,
        m30: 13, m31: 14, m32: 15, m33: 16,
    };
    let t = m.transpose();
    assert_eq!(t.m01, 5);
    assert_eq!(t.m10, 2);
    assert_eq!(t.m30, 4);
    assert_eq!(t.m03, 13);
    assert_eq!(t.transpose(), m);
}

#[test]
fn identity_transform_keeps_points() {
    let id = Matrix4::identity();
    let p = Vec3 { x: 12345, y: -54321, z: 65536 };
    assert_eq!(id.transform_point(p), p);
    assert_eq!(id.transform_vector(p), p);
}
