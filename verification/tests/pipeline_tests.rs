use ray_tracer::color::RgbaSpectrum;
use ray_tracer::crop::{crop_to_non_transparent, non_transparent_bounds};
use ray_tracer::error::Error;
use ray_tracer::film::Film;
use ray_tracer::filter::MitchellFilter;
use ray_tracer::fixed::{fpow, fsqrt, gamma};
use ray_tracer::integrator::{render, OriginalRayTracer};
use ray_tracer::light::{Light, LightFlags, PointLight};
use ray_tracer::interaction::SurfaceInteraction;
use ray_tracer::matrix::Matrix4;
use ray_tracer::mesh::{max_distance_from_origin, Mesh, MeshBuilder, SoupTriangle};
use ray_tracer::camera::OrthographicCamera;
use ray_tracer::sampler::{load_sampler, SamplerConfig, StratifiedSampler};
use ray_tracer::scene::{Material, PrimitiveAggregate, Scene};
use ray_tracer::vector::{add_point3, component, permute, Axis3, Pixel, Vec2, Vec3};

// One unit is 65536 raw throughout.

fn third() -> i64 {
    21845
}

#[test]
fn fixed_point_basics() {
    assert_eq!(fsqrt(4 * 65536), 2 * 65536);
    assert_eq!(fpow(32768, 2), 16384);
    assert_eq!(fpow(65536, 80), 65536);
    assert_eq!(gamma(7), 7);
}

#[test]
fn filter_is_zero_outside_support() {
    let filter = MitchellFilter::new(2 * 65536, 2 * 65536, third(), third());
    assert_eq!(filter.eval_at(Vec2 { x: 2 * 65536 + 1, y: 0 }), 0);
    assert_eq!(filter.eval_at(Vec2 { x: -2 * 65536 - 1, y: 0 }), 0);
    assert_eq!(filter.eval_at(Vec2 { x: 0, y: 2 * 65536 + 1 }), 0);
    assert_eq!(filter.eval_at(Vec2 { x: 0, y: -2 * 65536 - 1 }), 0);
    // The peak weight of the Mitchell kernel with b = c = 1/3, exactly.
    assert_eq!(filter.eval_at(Vec2 { x: 0, y: 0 }), 51781);
    assert_eq!(filter.half_width(), 2 * 65536);
    assert_eq!(filter.half_height(), 2 * 65536);
}

#[test]
fn sampler_exhausts_after_samples_per_pixel() {
    let mut s = StratifiedSampler::new(2, 2, 5, 0, true);
    assert_eq!(s.samples_per_pixel(), 4);
    s.start_pixel(Pixel { x: 3, y: 7 });
    for _ in 0..4 {
        assert!(s.start_next_sample());
    }
    assert!(!s.start_next_sample());
}

#[test]
fn sampler_centers_cells_without_jitter() {
    // Without jitter every sample sits at its cell's center; which cell
    // the first sample vector visits is set by the per-pixel,
    // per-dimension rotation. For seed 0 at pixel (0, 0) the rotations
    // are 1 and 0 for the first dimension pair and 3 for the next
    // dimension, so the centers are (1 + 1/2)/2, (0 + 1/2)/2 and
    // (3 + 1/2)/4.
    let mut s = StratifiedSampler::new(2, 2, 5, 0, false);
    s.start_pixel(Pixel { x: 0, y: 0 });
    assert!(s.start_next_sample());
    let p = s.get_2d();
    assert_eq!(p, Vec2 { x: 49152, y: 16384 });
    let v = s.get_1d();
    assert_eq!(v, 57344);
}

#[test]
fn sampler_covers_every_cell_once() {
    // Over one pixel's sample vectors, a dimension pair visits every cell
    // of the strata grid exactly once, whichever rotation it drew.
    let mut s = StratifiedSampler::new(2, 2, 5, 7, false);
    s.start_pixel(Pixel { x: 4, y: 9 });
    let mut seen = [false; 4];
    while s.start_next_sample() {
        let p = s.get_2d();
        let cx = (p.x / 32768) as usize;
        let cy = (p.y / 32768) as usize;
        let cell = cy * 2 + cx;
        assert!(!seen[cell]);
        seen[cell] = true;
    }
    assert!(seen.iter().all(|&c| c));
}

#[test]
fn sampler_values_stay_in_unit_range() {
    let mut s = StratifiedSampler::new(3, 2, 5, 9, true);
    s.start_pixel(Pixel { x: 1, y: 2 });
    while s.start_next_sample() {
        let a = s.get_1d();
        assert!(0 <= a && a < 65536);
        let p = s.get_2d();
        assert!(0 <= p.x && p.x < 65536);
        assert!(0 <= p.y && p.y < 65536);
    }
}

#[test]
fn load_sampler_resolves_configuration() {
    let cfg = SamplerConfig::StratifiedSampler {
        x_strata_count: 2,
        y_strata_count: 3,
        jitter: true,
    };
    let s = load_sampler(&cfg);
    assert_eq!(s.x_strata, 2);
    assert_eq!(s.y_strata, 3);
    assert_eq!(s.dimensions, 5);
    assert!(s.jitter);
    assert_eq!(s.samples_per_pixel(), 6);
}

#[test]
fn film_round_trip_recovers_radiance() {
    let mut film = Film::new(3, 3);
    let filter = MitchellFilter::new(2 * 65536, 2 * 65536, third(), third());
    // A single sample of radiance (0.5, 0.25, 1, 1) at the center of
    // pixel (1, 1); the filter's peak weight cancels in finalization.
    let radiance = RgbaSpectrum { r: 32768, g: 16384, b: 65536, a: 65536 };
    film.add_sample(Vec2 { x: 98304, y: 98304 }, radiance, &filter);
    let img = film.write_image();
    assert_eq!(img.len(), 36);
    let base = (1 * 3 + 1) * 4;
    assert_eq!(img[base], 127);
    assert_eq!(img[base + 1], 63);
    assert_eq!(img[base + 2], 255);
    assert_eq!(img[base + 3], 255);
}

#[test]
fn film_merge_sums_accumulators() {
    let filter = MitchellFilter::new(32768, 32768, third(), third());
    let radiance = RgbaSpectrum { r: 65536, g: 0, b: 0, a: 65536 };
    let mut a = Film::new(2, 2);
    a.add_sample(Vec2 { x: 32768, y: 32768 }, radiance, &filter);
    let mut b = Film::new(2, 2);
    b.add_sample(Vec2 { x: 32768, y: 32768 }, radiance, &filter);
    let before = a.pixels[0].weight_sum;
    a.merge(&b);
    assert_eq!(a.pixels[0].weight_sum, 2 * before);
    let img = a.write_image();
    // Doubling both sum and weight leaves the finalized value unchanged.
    assert_eq!(img[0], 255);
    assert_eq!(img[3], 255);
}

#[test]
fn point_light_falls_off_with_square_distance() {
    let light = PointLight::new(
        Vec3 { x: 0, y: 0, z: 2 * 65536 },
        RgbaSpectrum::from_rgb(65536, 65536, 65536),
    );
    let si = SurfaceInteraction::new_with_normal(
        Vec3 { x: 0, y: 0, z: 0 },
        Vec3 { x: 0, y: 0, z: 0 },
        Vec3 { x: 0, y: 0, z: 65536 },
        Vec3 { x: 0, y: 0, z: 0 },
        Vec3 { x: 0, y: 0, z: 0 },
        Vec3 { x: 0, y: 0, z: 65536 },
    );
    let (li, wi) = light.li(&si);
    // Distance 2 gives radiance intensity / 4, exactly.
    assert_eq!(li, RgbaSpectrum { r: 16384, g: 16384, b: 16384, a: 16384 });
    assert_eq!(wi, Vec3 { x: 0, y: 0, z: 65536 });
    // Power is 4 * pi * intensity.
    let p = light.power();
    assert_eq!(p.r, 823549);
    assert_eq!(light.flags().bits, 1);
    assert!(light.flags().contains(LightFlags::delta_position()));
    assert!(!light.flags().contains(LightFlags::area()));
}

#[test]
fn mesh_bounding_box_spans_all_vertices() {
    let positions = vec![
        Vec3 { x: 0, y: 0, z: 0 },
        Vec3 { x: 65536, y: 2 * 65536, z: 3 * 65536 },
        Vec3 { x: -65536, y: 0, z: 5 * 65536 },
    ];
    let normals = vec![
        Vec3 { x: 0, y: 0, z: 65536 },
        Vec3 { x: 0, y: 0, z: 65536 },
        Vec3 { x: 0, y: 0, z: 65536 },
    ];
    let mesh = Mesh {
        positions,
        normals,
        uvs: None,
        triangle_vertex_indices: vec![(0, 1, 2)],
        transformation_swaps_handedness: false,
        reverse_orientation: false,
    };
    let bb = mesh.bounding_box().unwrap();
    assert_eq!(bb.0, Vec3 { x: -65536, y: 0, z: 0 });
    assert_eq!(bb.1, Vec3 { x: 65536, y: 2 * 65536, z: 5 * 65536 });
    assert_eq!(max_distance_from_origin(&mesh), 334169);
}

#[test]
fn empty_mesh_has_no_bounding_box() {
    let mesh = Mesh {
        positions: vec![],
        normals: vec![],
        uvs: None,
        triangle_vertex_indices: vec![],
        transformation_swaps_handedness: false,
        reverse_orientation: false,
    };
    assert!(mesh.bounding_box().is_none());
    assert_eq!(mesh.checked_bounding_box(), Err(Error::EmptyMesh));
}

#[test]
fn mesh_builder_applies_transformation() {
    let tri = SoupTriangle {
        v0: Vec3 { x: 0, y: 0, z: 0 },
        v1: Vec3 { x: 65536, y: 0, z: 0 },
        v2: Vec3 { x: 0, y: 65536, z: 0 },
        normal: Vec3 { x: 0, y: 0, z: 65536 },
    };
    let builder = MeshBuilder::from_triangles(&vec![tri]);
    let mesh = builder
        .transformation(Matrix4::from_translation(Vec3 { x: 65536, y: 0, z: 0 }))
        .build();
    assert_eq!(mesh.positions.len(), 3);
    assert_eq!(mesh.positions[0], Vec3 { x: 65536, y: 0, z: 0 });
    assert_eq!(mesh.positions[1], Vec3 { x: 2 * 65536, y: 0, z: 0 });
    assert_eq!(mesh.normals[0], Vec3 { x: 0, y: 0, z: 65536 });
    assert_eq!(mesh.triangle_vertex_indices, vec![(0, 1, 2)]);
}

#[test]
fn point_helpers_pick_components() {
    let p = Vec3 { x: 1, y: 2, z: 3 };
    assert_eq!(component(p, Axis3::X), 1);
    assert_eq!(component(p, Axis3::Z), 3);
    assert_eq!(permute(p, Axis3::Z, Axis3::X, Axis3::Y), Vec3 { x: 3, y: 1, z: 2 });
    let sum = add_point3(vec![p, p, Vec3 { x: -1, y: -2, z: -3 }]);
    assert_eq!(sum, Vec3 { x: 1, y: 2, z: 3 });
}

#[test]
fn crop_trims_transparent_border() {
    // A 2x2 raster whose only opaque pixel is at (1, 0).
    let mut pixels = vec![0u8; 16];
    pixels[4 * 1 + 0] = 9;
    pixels[4 * 1 + 3] = 255;
    let bounds = non_transparent_bounds(2, 2, &pixels).unwrap();
    assert_eq!(bounds, (1, 0, 1, 0));
    let (w, h, out) = crop_to_non_transparent(2, 2, &pixels).unwrap();
    assert_eq!((w, h), (1, 1));
    assert_eq!(out, vec![9, 0, 0, 255]);
}

#[test]
fn crop_rejects_fully_transparent_image() {
    let pixels = vec![0u8; 16];
    assert_eq!(crop_to_non_transparent(2, 2, &pixels), Err(Error::ZeroAreaImage));
    assert_eq!(Error::ZeroAreaImage.message().is_empty(), false);
}

#[test]
fn shading_matches_hand_computed_radiance() {
    // One triangle at z = 0 facing +z, a unit-intensity light at z = 2,
    // and a ray straight down the z axis. The incident radiance is
    // intensity / 4; ambient is 0.05 of it and diffuse 0.7 of it (the
    // cosine is exactly one), all rounded toward zero.
    let tri = SoupTriangle {
        v0: Vec3 { x: -32768, y: -32768, z: 0 },
        v1: Vec3 { x: 32768, y: -32768, z: 0 },
        v2: Vec3 { x: 0, y: 32768, z: 0 },
        normal: Vec3 { x: 0, y: 0, z: 65536 },
    };
    let mesh = MeshBuilder::from_triangles(&vec![tri]).build();
    let material = Material::new(
        RgbaSpectrum::from_rgb(65536, 65536, 65536),
        3277,
        45875,
        0,
        80,
        0,
    );
    let light = Light::point_light(
        Vec3 { x: 0, y: 0, z: 2 * 65536 },
        RgbaSpectrum::from_rgb(65536, 65536, 65536),
    );
    let scene = Scene::new(
        vec![mesh],
        PrimitiveAggregate::from_mesh(0, 1, material),
        vec![light],
    );
    let ray = ray_tracer::ray::Ray {
        origin: Vec3 { x: 0, y: 0, z: 2 * 65536 },
        direction: Vec3 { x: 0, y: 0, z: -65536 },
        t_max: 10 * 65536,
    };
    let hit = scene.ray_intersection(&ray).unwrap();
    assert_eq!(hit.0, 2 * 65536);
    let c = OriginalRayTracer::color_at(&scene, &ray);
    // ambient: (3277 * 16384) / 65536 = 819;
    // diffuse: (45875 * 16384) / 65536 = 11468; specular is zero.
    assert_eq!(c, RgbaSpectrum { r: 12287, g: 12287, b: 12287, a: 12287 });
    let miss = ray_tracer::ray::Ray {
        origin: Vec3 { x: 2 * 65536, y: 0, z: 2 * 65536 },
        direction: Vec3 { x: 0, y: 0, z: -65536 },
        t_max: 10 * 65536,
    };
    assert_eq!(
        OriginalRayTracer::color_at(&scene, &miss),
        RgbaSpectrum { r: 0, g: 0, b: 0, a: 0 },
    );
}

#[test]
fn render_single_triangle_hits_center_only() {
    // A unit-scale triangle at z = 0, lit from above the camera, seen by
    // an orthographic camera at z = 2 looking along -z.
    let tri = SoupTriangle {
        v0: Vec3 { x: -32768, y: -32768, z: 0 },
        v1: Vec3 { x: 32768, y: -32768, z: 0 },
        v2: Vec3 { x: 0, y: 32768, z: 0 },
        normal: Vec3 { x: 0, y: 0, z: 65536 },
    };
    let mesh = MeshBuilder::from_triangles(&vec![tri]).build();
    let material = Material::new(
        RgbaSpectrum::from_rgb(65536, 65536, 65536),
        3277,
        45875,
        0,
        80,
        0,
    );
    let light = Light::point_light(
        Vec3 { x: 0, y: 0, z: 2 * 65536 },
        RgbaSpectrum::from_rgb(65536, 65536, 65536),
    );
    let scene = Scene::new(
        vec![mesh],
        PrimitiveAggregate::from_mesh(0, 1, material),
        vec![light],
    );
    let camera_to_world = Matrix4 {
        m00: 65536, m01: 0, m02: 0, m03: 0,
        m10: 0, m11: 65536, m12: 0, m13: 0,
        m20: 0, m21: 0, m22: -65536, m23: 2 * 65536,
        m30: 0, m31: 0, m32: 0, m33: 65536,
    };
    let camera = OrthographicCamera::new(
        camera_to_world,
        0,
        10 * 65536,
        Vec2 { x: 2 * 65536, y: 2 * 65536 },
        (5, 5),
    );
    let mut film = Film::new(5, 5);
    let filter = MitchellFilter::new(32768, 32768, third(), third());
    let sampler = StratifiedSampler::new(1, 1, 5, 0, false);
    render(&scene, &camera, &mut film, &filter, &sampler, &OriginalRayTracer {}, 5);
    let img = film.write_image();
    assert_eq!(img.len(), 100);
    // The pixel at the triangle's projected centroid is not transparent.
    assert!(img[(2 * 5 + 2) * 4 + 3] != 0);
    // Pixels outside the silhouette are fully transparent.
    assert_eq!(img[3], 0);
    assert_eq!(img[(0 * 5 + 4) * 4 + 3], 0);
    assert_eq!(img[(4 * 5 + 0) * 4 + 3], 0);
    assert_eq!(img[(4 * 5 + 4) * 4 + 3], 0);
}
