use ray_tracer::matrix::Matrix4;
use ray_tracer::ray::Ray;
use ray_tracer::shape::Sphere;
use ray_tracer::vector::Vec3;

// The reference geometric cases of ray/unit-sphere intersection; every
// expected parameter is exact in fixed point (one unit is 65536 raw).

fn unit_sphere() -> Sphere {
    let identity = Matrix4::identity();
    Sphere::new(identity, identity)
}

fn z_ray(origin: Vec3) -> Ray {
    Ray { origin, direction: Vec3 { x: 0, y: 0, z: 65536 }, t_max: i64::MAX }
}

#[test]
fn ray_intersects_at_two_points() {
    let ray = z_ray(Vec3 { x: 0, y: 0, z: -5 * 65536 });
    let sphere = unit_sphere();
    let intersections = sphere.ray_intersections(&ray);
    assert_eq!(intersections.values.len(), 2);
    assert_eq!(intersections.values[0].t, 4 * 65536);
    assert_eq!(intersections.values[1].t, 6 * 65536);
}

#[test]
fn ray_intersects_at_tangent() {
    let ray = z_ray(Vec3 { x: 0, y: 65536, z: -5 * 65536 });
    let sphere = unit_sphere();
    let intersections = sphere.ray_intersections(&ray);
    assert_eq!(intersections.values.len(), 2);
    assert_eq!(intersections.values[0].t, 5 * 65536);
    assert_eq!(intersections.values[1].t, 5 * 65536);
}

#[test]
fn ray_misses() {
    let ray = z_ray(Vec3 { x: 0, y: 2 * 65536, z: -5 * 65536 });
    let sphere = unit_sphere();
    let intersections = sphere.ray_intersections(&ray);
    assert_eq!(intersections.values.len(), 0);
}

#[test]
fn ray_originates_inside_sphere() {
    let ray = z_ray(Vec3 { x: 0, y: 0, z: 0 });
    let sphere = unit_sphere();
    let intersections = sphere.ray_intersections(&ray);
    assert_eq!(intersections.values.len(), 2);
    assert_eq!(intersections.values[0].t, -65536);
    assert_eq!(intersections.values[1].t, 65536);
}

#[test]
fn sphere_is_behind_ray() {
    let ray = z_ray(Vec3 { x: 0, y: 0, z: 5 * 65536 });
    let sphere = unit_sphere();
    let intersections = sphere.ray_intersections(&ray);
    assert_eq!(intersections.values.len(), 2);
    assert_eq!(intersections.values[0].t, -6 * 65536);
    assert_eq!(intersections.values[1].t, -4 * 65536);
}

#[test]
fn plane_normal_and_intersection() {
    let identity = Matrix4::identity();
    let n = ray_tracer::shape::normal(&identity, false);
    assert_eq!(n, Vec3 { x: 0, y: 65536, z: 0 });

    let ray = Ray {
        origin: Vec3 { x: 0, y: 65536, z: 0 },
        direction: Vec3 { x: 0, y: -65536, z: 0 },
        t_max: 10 * 65536,
    };
    let hits = ray_tracer::shape::ray_intersections(&ray, &identity, &identity, false);
    assert_eq!(hits.len(), 1);
    assert_eq!(hits[0].0, 65536);
    assert_eq!(hits[0].1.point, Vec3 { x: 0, y: 0, z: 0 });
    assert_eq!(hits[0].1.original_geometry.normal, Vec3 { x: 0, y: 65536, z: 0 });
}

#[test]
fn plane_parallel_ray_misses() {
    let identity = Matrix4::identity();
    let ray = Ray {
        origin: Vec3 { x: 0, y: 65536, z: 0 },
        direction: Vec3 { x: 65536, y: 0, z: 0 },
        t_max: 10 * 65536,
    };
    let hits = ray_tracer::shape::ray_intersections(&ray, &identity, &identity, false);
    assert_eq!(hits.len(), 0);
}
