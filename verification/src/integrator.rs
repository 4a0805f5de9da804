//! The integrator: per pixel and per sample, build a camera ray, query the
//! scene for the nearest hit, shade it locally (ambient + diffuse +
//! specular under every light), and deposit the result into the film
//! through the reconstruction filter. Misses deposit the transparent
//! background color.

use vstd::prelude::*;
use crate::camera::{ortho_ray_s, wf_camera, OrthographicCamera};
use crate::color::{add_c_s, mul_c_s, okc, scale_c_s, RgbaSpectrum};
use crate::film::{
    deposit_s, pixel_offset_s, wf_film, Film, FilmView, FILM_SAMPLES_MAX,
};
use crate::filter::{eval_at_s, wf_filter, MitchellFilter};
use crate::fixed::{
    fclamp, fdiv_s, fmul, fmul_s, fpow, fpow_s, lemma_abs_mul_le, lemma_tdiv_bound, HALF, SCALE,
};
use crate::interaction::SurfaceInteraction;
use crate::light::{light_intensity, light_position, wf_light, Light};
use crate::ray::Ray;
use crate::sampler::{
    bits_s, dim_offset_s, next_state_s, pixel_seed_s, strat_value_s, stratum_s, wf_sampler,
    CameraSample, StratifiedSampler,
};
use crate::scene::{
    aggregate_prims, lemma_dot_range, lemma_nearest_valid, nearest_s, triangle_interaction_s,
    wf_material, wf_scene, Material, Scene,
};
use crate::vector::{dot_s, mag_s, neg_v_s, okv, okv_check, sub_v_s, Pixel, Vec2, Vec3, UMAX, VMAX};
use vstd::arithmetic::div_mod::lemma_div_pos_is_pos;

verus! {

/// The incident radiance of a light at an interaction point, channel by
/// channel; meaningful when the squared distance is nonzero.
pub open spec fn li_color_s(l: Light, si: SurfaceInteraction) -> RgbaSpectrum {
    let ltp = sub_v_s(light_position(l), si.point);
    let d2 = dot_s(ltp, ltp);
    RgbaSpectrum {
        r: fdiv_s(light_intensity(l).r as int, d2) as i64,
        g: fdiv_s(light_intensity(l).g as int, d2) as i64,
        b: fdiv_s(light_intensity(l).b as int, d2) as i64,
        a: fdiv_s(light_intensity(l).a as int, d2) as i64,
    }
}

/// The unit direction from an interaction point toward a light.
pub open spec fn wi_s(l: Light, si: SurfaceInteraction) -> Vec3 {
    let ltp = sub_v_s(light_position(l), si.point);
    Vec3 {
        x: fdiv_s(ltp.x as int, mag_s(ltp)) as i64,
        y: fdiv_s(ltp.y as int, mag_s(ltp)) as i64,
        z: fdiv_s(ltp.z as int, mag_s(ltp)) as i64,
    }
}

/// The mirror reflection of `v` about the normal `n`:
/// `v - n * (2 * dot(v, n))`.
pub open spec fn reflect_s(v: Vec3, n: Vec3) -> Vec3 {
    let k = 2 * dot_s(v, n);
    Vec3 {
        x: (v.x - fmul_s(n.x as int, k)) as i64,
        y: (v.y - fmul_s(n.y as int, k)) as i64,
        z: (v.z - fmul_s(n.z as int, k)) as i64,
    }
}

/// A cosine clamped into `[0, 1]` before it feeds the Phong exponent.
pub open spec fn clamp01_s(x: int) -> int {
    if x < 0 {
        0
    } else if x > SCALE {
        SCALE as int
    } else {
        x
    }
}

/// The local shading of one light at one interaction: ambient plus
/// diffuse (clamped at zero when the light is behind the surface) plus
/// specular (zero unless the mirror reflection has positive cosine with
/// the outgoing direction, else raised to the shininess exponent). A light
/// whose fixed-point squared distance to the point rounds to zero is a
/// numerical degeneracy and contributes nothing.
pub open spec fn shading_s(m: Material, l: Light, si: SurfaceInteraction) -> RgbaSpectrum {
    let ltp = sub_v_s(light_position(l), si.point);
    let d2 = dot_s(ltp, ltp);
    if d2 == 0 {
        RgbaSpectrum { r: 0, g: 0, b: 0, a: 0 }
    } else {
        let incident = li_color_s(l, si);
        let wi = wi_s(l, si);
        let eff = mul_c_s(m.color, incident);
        let ambient = scale_c_s(eff, m.ambient as int);
        let normal = si.original_geometry.normal;
        let ldn = dot_s(wi, normal);
        if ldn >= 0 {
            let diffuse = scale_c_s(scale_c_s(eff, m.diffuse as int), ldn);
            let refl = reflect_s(neg_v_s(wi), normal);
            let rde = dot_s(refl, si.neg_ray_direction);
            let specular = if rde <= 0 {
                RgbaSpectrum { r: 0, g: 0, b: 0, a: 0 }
            } else {
                scale_c_s(
                    scale_c_s(incident, m.specular as int),
                    fpow_s(clamp01_s(rde), m.shininess as nat),
                )
            };
            add_c_s(add_c_s(ambient, diffuse), specular)
        } else {
            ambient
        }
    }
}

/// The summed local shading of all lights, in list order.
pub open spec fn shade_sum_s(lights: Seq<Light>, m: Material, si: SurfaceInteraction)
    -> RgbaSpectrum
    decreases lights.len(),
{
    if lights.len() == 0 {
        RgbaSpectrum { r: 0, g: 0, b: 0, a: 0 }
    } else {
        add_c_s(shade_sum_s(lights.drop_last(), m, si), shading_s(m, lights.last(), si))
    }
}

/// The color a ray contributes: the summed local shading at the nearest
/// hit, or the transparent background when nothing is hit.
pub open spec fn color_at_s(s: Scene, r: Ray) -> RgbaSpectrum {
    match nearest_s(aggregate_prims(s.primitives), s.meshes@, r) {
        None => RgbaSpectrum { r: 0, g: 0, b: 0, a: 0 },
        Some(best) => {
            let prim = aggregate_prims(s.primitives)[best.1];
            let m = s.meshes@[prim.mesh_index as int];
            let tri = m.triangle_vertex_indices@[prim.triangle_index as int];
            shade_sum_s(s.lights@, prim.material, triangle_interaction_s(m, tri, r, best.0))
        },
    }
}

/// The camera sample drawn from a sampler state for a pixel, together
/// with the sampler state left behind: two dimensions for the film point,
/// one for the time, two for the lens point.
pub open spec fn camera_sample_of_s(s: StratifiedSampler, pixel: Pixel) -> (
    CameraSample,
    StratifiedSampler,
) {
    let n = s.x_strata * s.y_strata;
    let nx = s.x_strata as int;
    let ny = s.y_strata as int;
    let ps = s.pixel_state;
    let d = s.dim;
    let st = stratum_s(s.sample_idx as int, n as int);
    let fcx = (st % nx + dim_offset_s(ps, d as u64, nx)) % nx;
    let fcy = (st / nx + dim_offset_s(ps, (d + 1) as u64, ny)) % ny;
    let tc = (st + dim_offset_s(ps, (d + 2) as u64, n as int)) % (n as int);
    let lcx = (st % nx + dim_offset_s(ps, (d + 3) as u64, nx)) % nx;
    let lcy = (st / nx + dim_offset_s(ps, (d + 4) as u64, ny)) % ny;
    let jit = s.jitter;
    let s1 = next_state_s(s.state);
    let s2 = next_state_s(s1);
    let st_a = if jit { s2 } else { s.state };
    let s3 = next_state_s(st_a);
    let st_b = if jit { s3 } else { st_a };
    let s4 = next_state_s(st_b);
    let s5 = next_state_s(s4);
    let st_c = if jit { s5 } else { st_b };
    let jx = if jit { bits_s(s1) as int } else { HALF as int };
    let jy = if jit { bits_s(s2) as int } else { HALF as int };
    let jt = if jit { bits_s(s3) as int } else { HALF as int };
    let lx = if jit { bits_s(s4) as int } else { HALF as int };
    let ly = if jit { bits_s(s5) as int } else { HALF as int };
    let cs = CameraSample {
        film_point: Vec2 {
            x: ((pixel.x as int) * (SCALE as int) + strat_value_s(fcx, jx, nx)) as i64,
            y: ((pixel.y as int) * (SCALE as int) + strat_value_s(fcy, jy, ny)) as i64,
        },
        time: strat_value_s(tc, jt, n as int) as i64,
        lens_point: Vec2 {
            x: strat_value_s(lcx, lx, nx) as i64,
            y: strat_value_s(lcy, ly, ny) as i64,
        },
    };
    (cs, StratifiedSampler { state: st_c, dim: (s.dim + 5) as usize, ..s })
}

/// The film after one deposit at `point`: every pixel takes the filter
/// weight of the offset from its center times the radiance.
pub open spec fn film_deposit_view_s(
    fv: FilmView,
    filter: MitchellFilter,
    point: Vec2,
    rad: RgbaSpectrum,
) -> FilmView {
    FilmView {
        width: fv.width,
        height: fv.height,
        pixels: Seq::new(
            fv.pixels.len(),
            |i: int|
                deposit_s(fv.pixels[i], eval_at_s(filter, pixel_offset_s(i, fv.width as int, point)), rad),
        ),
        samples: (fv.samples + 1) as u64,
    }
}

/// The radiance a camera sample contributes: the color along its camera
/// ray, or the transparent background when the ray leaves the fixed-point
/// working range.
pub open spec fn sample_radiance_s(
    scene: Scene,
    camera: OrthographicCamera,
    cs: CameraSample,
) -> RgbaSpectrum {
    let ray = ortho_ray_s(camera, cs.film_point);
    if okv(ray.origin, UMAX) && okv(ray.direction, UMAX) {
        color_at_s(scene, ray)
    } else {
        RgbaSpectrum { r: 0, g: 0, b: 0, a: 0 }
    }
}

/// One sample of one pixel: draw a camera sample, deposit its radiance,
/// and advance the sampler to the next sample vector.
pub open spec fn after_sample_s(
    scene: Scene,
    camera: OrthographicCamera,
    filter: MitchellFilter,
    fv: FilmView,
    smp: StratifiedSampler,
    pixel: Pixel,
) -> (FilmView, StratifiedSampler) {
    let (cs, smp1) = camera_sample_of_s(smp, pixel);
    let rad = sample_radiance_s(scene, camera, cs);
    let fv2 = film_deposit_view_s(fv, filter, cs.film_point, rad);
    let smp2 = StratifiedSampler {
        sample_idx: (smp1.sample_idx + 1) as usize,
        dim: 0,
        ..smp1
    };
    (fv2, smp2)
}

/// The first `k` samples of one pixel, in order.
pub open spec fn after_pixel_samples_s(
    scene: Scene,
    camera: OrthographicCamera,
    filter: MitchellFilter,
    fv: FilmView,
    smp: StratifiedSampler,
    pixel: Pixel,
    k: nat,
) -> (FilmView, StratifiedSampler)
    decreases k,
{
    if k == 0 {
        (fv, smp)
    } else {
        let prev = after_pixel_samples_s(scene, camera, filter, fv, smp, pixel, (k - 1) as nat);
        after_sample_s(scene, camera, filter, prev.0, prev.1, pixel)
    }
}

/// One whole pixel: re-seed the sampler for the pixel, start its first
/// sample vector, and run all `samples_per_pixel` samples.
pub open spec fn after_pixel_s(
    scene: Scene,
    camera: OrthographicCamera,
    filter: MitchellFilter,
    fv: FilmView,
    smp: StratifiedSampler,
    pixel: Pixel,
) -> (FilmView, StratifiedSampler) {
    let smp0 = StratifiedSampler {
        state: pixel_seed_s(smp.seed, pixel),
        pixel_state: pixel_seed_s(smp.seed, pixel),
        current_pixel: pixel,
        sample_idx: 1,
        dim: 0,
        ..smp
    };
    after_pixel_samples_s(
        scene,
        camera,
        filter,
        fv,
        smp0,
        pixel,
        (smp.x_strata * smp.y_strata) as nat,
    )
}

/// The first `n` pixels of row `y`, in order.
pub open spec fn after_row_s(
    scene: Scene,
    camera: OrthographicCamera,
    filter: MitchellFilter,
    fv: FilmView,
    smp: StratifiedSampler,
    y: int,
    n: nat,
) -> (FilmView, StratifiedSampler)
    decreases n,
{
    if n == 0 {
        (fv, smp)
    } else {
        let prev = after_row_s(scene, camera, filter, fv, smp, y, (n - 1) as nat);
        after_pixel_s(
            scene,
            camera,
            filter,
            prev.0,
            prev.1,
            Pixel { x: (n - 1) as i32, y: y as i32 },
        )
    }
}

/// The first `n` rows of the image, in order, each `width` pixels wide.
pub open spec fn after_rows_s(
    scene: Scene,
    camera: OrthographicCamera,
    filter: MitchellFilter,
    fv: FilmView,
    smp: StratifiedSampler,
    width: nat,
    n: nat,
) -> (FilmView, StratifiedSampler)
    decreases n,
{
    if n == 0 {
        (fv, smp)
    } else {
        let prev = after_rows_s(scene, camera, filter, fv, smp, width, (n - 1) as nat);
        after_row_s(scene, camera, filter, prev.0, prev.1, n - 1, width)
    }
}

/// The reference radiance-computation strategy: single-bounce local
/// shading, no recursion.
pub struct OriginalRayTracer {}

/// Product of a coefficient in `[0, 1]` with a nonnegative radiance-scale
/// value.
fn tint(coeff: i64, value: i64) -> (r: i64)
    requires
        0 <= coeff <= SCALE,
        0 <= value <= 0x100_0000_0000,
    ensures
        r == fmul_s(coeff as int, value as int),
        0 <= r <= 0x100_0000_0000,
{
    proof {
        lemma_abs_mul_le(coeff as int, value as int, 65536, 0x100_0000_0000);
        lemma_tdiv_bound((coeff as int) * (value as int), 65536, 0x100_0000_0000);
        if coeff * value > 0 {
            lemma_div_pos_is_pos((coeff as int) * (value as int), 65536);
        }
    }
    fmul(coeff, value)
}

/// Product of a nonnegative cosine-scale value with a nonnegative
/// radiance-scale value.
fn dmul(cosv: i64, value: i64) -> (r: i64)
    requires
        0 <= cosv <= 0x1000_0000,
        0 <= value <= 0x100_0000_0000,
    ensures
        r == fmul_s(cosv as int, value as int),
        0 <= r <= 0x10_0000_0000_0000,
    {
    proof {
        lemma_abs_mul_le(cosv as int, value as int, 0x1000_0000, 0x100_0000_0000);
        lemma_tdiv_bound((cosv as int) * (value as int), 65536, 0x10_0000_0000_0000);
        if cosv * value > 0 {
            lemma_div_pos_is_pos((cosv as int) * (value as int), 65536);
        }
    }
    fmul(cosv, value)
}

/// The ranges of the reflection chain: the mirror reflection of a unit
/// direction about a unit-scale normal stays in range, and its cosine
/// with the outgoing direction fits the clamping step.
proof fn lemma_refl_ranges(wi: Vec3, n: Vec3, nrd: Vec3)
    requires
        okv(wi, 0x2_0000),
        okv(n, 0x100_0000),
        okv(nrd, 0x100_0000),
    ensures
        -0x800_0000 <= dot_s(wi, n) <= 0x800_0000,
        -0x800_0000 <= dot_s(neg_v_s(wi), n) <= 0x800_0000,
        okv(reflect_s(neg_v_s(wi), n), 0x20_0000_0000),
        -0x8000_0000_0000 <= dot_s(reflect_s(neg_v_s(wi), n), nrd) <= 0x8000_0000_0000,
{
    lemma_dot_range(wi, n, 0x2_0000, 0x100_0000, 0x800_0000);
    lemma_dot_range(neg_v_s(wi), n, 0x2_0000, 0x100_0000, 0x800_0000);
    let k = 2 * dot_s(neg_v_s(wi), n);
    lemma_abs_mul_le(n.x as int, k, 0x100_0000, 0x1000_0000);
    lemma_abs_mul_le(n.y as int, k, 0x100_0000, 0x1000_0000);
    lemma_abs_mul_le(n.z as int, k, 0x100_0000, 0x1000_0000);
    lemma_tdiv_bound((n.x as int) * k, 65536, 0x10_0000_0000);
    lemma_tdiv_bound((n.y as int) * k, 65536, 0x10_0000_0000);
    lemma_tdiv_bound((n.z as int) * k, 65536, 0x10_0000_0000);
    lemma_dot_range(reflect_s(neg_v_s(wi), n), nrd, 0x20_0000_0000, 0x100_0000, 0x8000_0000_0000);
}

/// The local shading of one light at one interaction; see `shading_s`.
fn shading(material: &Material, light: &Light, interaction: &SurfaceInteraction) -> (r:
    RgbaSpectrum)
    requires
        wf_material(*material),
        wf_light(*light),
        okv(interaction.point, UMAX),
        okv(interaction.neg_ray_direction, UMAX),
        okv(interaction.original_geometry.normal, UMAX),
    ensures
        r == shading_s(*material, *light, *interaction),
        okc(r, 0x20_0000_0000_0000),
        0 <= r.r && 0 <= r.g && 0 <= r.b && 0 <= r.a,
{
    let position = match light {
        Light::PointLight(pl) => pl.position,
    };
    let ltp = position.sub(interaction.point);
    let d2 = ltp.magnitude2();
    if d2 == 0 {
        return RgbaSpectrum::black();
    }
    proof {
        assert(ltp == sub_v_s(light_position(*light), interaction.point));
    }
    let (incident, wi) = light.li(interaction);
    let eff = RgbaSpectrum {
        r: tint(material.color.r, incident.r),
        g: tint(material.color.g, incident.g),
        b: tint(material.color.b, incident.b),
        a: tint(material.color.a, incident.a),
    };
    let ambient = RgbaSpectrum {
        r: tint(material.ambient, eff.r),
        g: tint(material.ambient, eff.g),
        b: tint(material.ambient, eff.b),
        a: tint(material.ambient, eff.a),
    };
    proof {
        lemma_fmul_comm4(material.ambient as int, eff);
        lemma_fmul_comm4_c(material.color, incident);
    }
    let normal = interaction.original_geometry.normal;
    proof {
        lemma_dot_range(wi, normal, 0x2_0000, 0x100_0000, 0x800_0000);
    }
    let light_dot_normal = wi.dot(normal);
    if light_dot_normal >= 0 {
        let d1 = RgbaSpectrum {
            r: tint(material.diffuse, eff.r),
            g: tint(material.diffuse, eff.g),
            b: tint(material.diffuse, eff.b),
            a: tint(material.diffuse, eff.a),
        };
        let diffuse = RgbaSpectrum {
            r: dmul(light_dot_normal, d1.r),
            g: dmul(light_dot_normal, d1.g),
            b: dmul(light_dot_normal, d1.b),
            a: dmul(light_dot_normal, d1.a),
        };
        proof {
            lemma_fmul_comm4(material.diffuse as int, eff);
            lemma_fmul_comm4(light_dot_normal as int, d1);
            lemma_refl_ranges(wi, normal, interaction.neg_ray_direction);
        }
        let neg_wi = wi.neg();
        let k = 2 * neg_wi.dot(normal);
        let reflect = neg_wi.sub(normal.scale(k));
        let reflect_dot_eye = reflect.dot(interaction.neg_ray_direction);
        let specular = if reflect_dot_eye <= 0 {
            RgbaSpectrum::black()
        } else {
            let factor = fpow(fclamp(reflect_dot_eye, 0, SCALE), material.shininess);
            let s1 = RgbaSpectrum {
                r: tint(material.specular, incident.r),
                g: tint(material.specular, incident.g),
                b: tint(material.specular, incident.b),
                a: tint(material.specular, incident.a),
            };
            proof {
                lemma_fmul_comm4(material.specular as int, incident);
            }
            let s2 = RgbaSpectrum {
                r: tint(factor, s1.r),
                g: tint(factor, s1.g),
                b: tint(factor, s1.b),
                a: tint(factor, s1.a),
            };
            proof {
                lemma_fmul_comm4(factor as int, s1);
            }
            s2
        };
        RgbaSpectrum {
            r: ambient.r + diffuse.r + specular.r,
            g: ambient.g + diffuse.g + specular.g,
            b: ambient.b + diffuse.b + specular.b,
            a: ambient.a + diffuse.a + specular.a,
        }
    } else {
        ambient
    }
}

/// `fmul_s` is symmetric in its arguments, channel by channel against a
/// scalar.
proof fn lemma_fmul_comm4(s: int, c: RgbaSpectrum)
    ensures
        fmul_s(s, c.r as int) == fmul_s(c.r as int, s),
        fmul_s(s, c.g as int) == fmul_s(c.g as int, s),
        fmul_s(s, c.b as int) == fmul_s(c.b as int, s),
        fmul_s(s, c.a as int) == fmul_s(c.a as int, s),
{
    vstd::arithmetic::mul::lemma_mul_is_commutative(s, c.r as int);
    vstd::arithmetic::mul::lemma_mul_is_commutative(s, c.g as int);
    vstd::arithmetic::mul::lemma_mul_is_commutative(s, c.b as int);
    vstd::arithmetic::mul::lemma_mul_is_commutative(s, c.a as int);
}

/// `fmul_s` is symmetric channel by channel between two colors.
proof fn lemma_fmul_comm4_c(a: RgbaSpectrum, b: RgbaSpectrum)
    ensures
        fmul_s(a.r as int, b.r as int) == fmul_s(b.r as int, a.r as int),
        fmul_s(a.g as int, b.g as int) == fmul_s(b.g as int, a.g as int),
        fmul_s(a.b as int, b.b as int) == fmul_s(b.b as int, a.b as int),
        fmul_s(a.a as int, b.a as int) == fmul_s(b.a as int, a.a as int),
{
    vstd::arithmetic::mul::lemma_mul_is_commutative(a.r as int, b.r as int);
    vstd::arithmetic::mul::lemma_mul_is_commutative(a.g as int, b.g as int);
    vstd::arithmetic::mul::lemma_mul_is_commutative(a.b as int, b.b as int);
    vstd::arithmetic::mul::lemma_mul_is_commutative(a.a as int, b.a as int);
}

impl OriginalRayTracer {
    /// The color a ray contributes to its film position: local shading at
    /// the nearest hit, the transparent background on a miss.
    pub fn color_at(scene: &Scene, ray: &Ray) -> (r: RgbaSpectrum)
        requires
            wf_scene(*scene),
            okv(ray.origin, UMAX),
            okv(ray.direction, UMAX),
            0 <= ray.t_max <= VMAX,
        ensures
            r == color_at_s(*scene, *ray),
            okc(r, 0x2000_0000_0000_0000),
            0 <= r.r && 0 <= r.g && 0 <= r.b && 0 <= r.a,
    {
        let hit = scene.ray_intersection(ray);
        match hit {
            Some((t, primitive, interaction)) => {
                proof {
                    lemma_nearest_valid(aggregate_prims(scene.primitives), scene.meshes@, *ray);
                }
                Self::shade_surface_interaction(scene, &interaction, &primitive.material)
            },
            None => RgbaSpectrum::transparent(),
        }
    }

    /// The summed local shading of every light in the scene at one
    /// interaction.
    pub fn shade_surface_interaction(
        scene: &Scene,
        interaction: &SurfaceInteraction,
        material: &Material,
    ) -> (r: RgbaSpectrum)
        requires
            wf_scene(*scene),
            wf_material(*material),
            okv(interaction.point, UMAX),
            okv(interaction.neg_ray_direction, UMAX),
            okv(interaction.original_geometry.normal, UMAX),
        ensures
            r == shade_sum_s(scene.lights@, *material, *interaction),
            okc(r, 0x2000_0000_0000_0000),
            0 <= r.r && 0 <= r.g && 0 <= r.b && 0 <= r.a,
    {
        let mut color = RgbaSpectrum::constant(0);
        let mut i: usize = 0;
        while i < scene.lights.len()
            invariant
                wf_scene(*scene),
                wf_material(*material),
                okv(interaction.point, UMAX),
                okv(interaction.neg_ray_direction, UMAX),
                okv(interaction.original_geometry.normal, UMAX),
                i <= scene.lights@.len(),
                color == shade_sum_s(scene.lights@.take(i as int), *material, *interaction),
                0 <= color.r <= i * 0x20_0000_0000_0000,
                0 <= color.g <= i * 0x20_0000_0000_0000,
                0 <= color.b <= i * 0x20_0000_0000_0000,
                0 <= color.a <= i * 0x20_0000_0000_0000,
            decreases scene.lights@.len() - i,
        {
            proof {
                assert(scene.lights@.take(i + 1).drop_last() =~= scene.lights@.take(i as int));
                assert(scene.lights@[i as int] == scene.lights@[i as int]);
            }
            let light = &scene.lights[i];
            let surface = shading(material, light, interaction);
            color = RgbaSpectrum {
                r: color.r + surface.r,
                g: color.g + surface.g,
                b: color.b + surface.b,
                a: color.a + surface.a,
            };
            i = i + 1;
        }
        proof {
            assert(scene.lights@.take(scene.lights@.len() as int) =~= scene.lights@);
        }
        color
    }

    /// The radiance arriving along a ray. The reference strategy performs
    /// no recursion: the depth parameters are accepted for forward
    /// compatibility and ignored, and the sampler is left untouched.
    pub fn incoming_radiance(
        &self,
        ray: &Ray,
        scene: &Scene,
        sampler: &mut StratifiedSampler,
        _depth: usize,
        _max_depth: usize,
    ) -> (r: RgbaSpectrum)
        requires
            wf_scene(*scene),
            okv(ray.origin, UMAX),
            okv(ray.direction, UMAX),
            0 <= ray.t_max <= VMAX,
        ensures
            r == color_at_s(*scene, *ray),
            *final(sampler) == *old(sampler),
    {
        Self::color_at(scene, ray)
    }
}

/// Render the scene onto the film: for every pixel in row order and every
/// one of the sampler's `samples_per_pixel` sample vectors, build a camera
/// ray, compute its radiance, and deposit the result at the sample's film
/// position through the filter. The whole run is deterministic: the final
/// film is exactly the fold of those deposits, as `after_rows_s` states. A
/// camera ray that leaves the fixed-point working range contributes the
/// transparent background.
pub fn render(
    scene: &Scene,
    camera: &OrthographicCamera,
    film: &mut Film,
    filter: &MitchellFilter,
    sampler: &StratifiedSampler,
    _ray_tracer: &OriginalRayTracer,
    _max_depth: usize,
)
    requires
        wf_scene(*scene),
        wf_camera(*camera),
        wf_filter(*filter),
        wf_film(*old(film)),
        wf_sampler(*sampler),
        camera.res_width == old(film).width,
        camera.res_height == old(film).height,
        old(film).samples + old(film).width * old(film).height * (sampler.x_strata
            * sampler.y_strata) <= FILM_SAMPLES_MAX,
    ensures
        wf_film(*final(film)),
        final(film).width == old(film).width,
        final(film).height == old(film).height,
        final(film).samples == old(film).samples + old(film).width * old(film).height * (
        sampler.x_strata * sampler.y_strata),
        final(film)@ == after_rows_s(
            *scene,
            *camera,
            *filter,
            old(film)@,
            render_start_sampler_s(*sampler),
            old(film).width as nat,
            old(film).height as nat,
        ).0,
{
    let width = film.width;
    let height = film.height;
    let spp = sampler.samples_per_pixel();
    proof {
        crate::sampler::lemma_spp_bound(sampler.x_strata as int, sampler.y_strata as int);
    }
    let ghost base = film.samples;
    proof {
        assert(0 * (width as int) * (spp as int) == 0) by (nonlinear_arith) {}
    }
    let mut local = sampler.clone_with_seed(sampler.seed);
    proof {
        assert(local == render_start_sampler_s(*sampler));
    }
    let mut y: usize = 0;
    while y < height
        invariant
            wf_scene(*scene),
            wf_camera(*camera),
            wf_filter(*filter),
            wf_film(*film),
            wf_sampler(local),
            local.x_strata == sampler.x_strata,
            local.y_strata == sampler.y_strata,
            width == camera.res_width,
            height == camera.res_height,
            film.width == width,
            film.height == height,
            spp == sampler.x_strata * sampler.y_strata,
            1 <= spp <= 65536,
            y <= height,
            film.samples == base + y * width * spp,
            base + width * height * spp <= FILM_SAMPLES_MAX,
            base == old(film).samples,
            film@ == after_rows_s(
                *scene,
                *camera,
                *filter,
                old(film)@,
                render_start_sampler_s(*sampler),
                width as nat,
                y as nat,
            ).0,
            local == after_rows_s(
                *scene,
                *camera,
                *filter,
                old(film)@,
                render_start_sampler_s(*sampler),
                width as nat,
                y as nat,
            ).1,
        decreases height - y,
    {
        proof {
            assert(0 * (spp as int) == 0) by (nonlinear_arith) {}
        }
        let ghost rows_fv = film@;
        let ghost rows_smp = local;
        let mut x: usize = 0;
        while x < width
            invariant
                wf_scene(*scene),
                wf_camera(*camera),
                wf_filter(*filter),
                wf_film(*film),
                wf_sampler(local),
                local.x_strata == sampler.x_strata,
                local.y_strata == sampler.y_strata,
                width == camera.res_width,
                height == camera.res_height,
                film.width == width,
                film.height == height,
                spp == sampler.x_strata * sampler.y_strata,
                1 <= spp <= 65536,
                y < height,
                x <= width,
                film.samples == base + y * width * spp + x * spp,
                base + width * height * spp <= FILM_SAMPLES_MAX,
                base == old(film).samples,
                film@ == after_row_s(*scene, *camera, *filter, rows_fv, rows_smp, y as int, x as nat).0,
                local == after_row_s(*scene, *camera, *filter, rows_fv, rows_smp, y as int, x as nat).1,
            decreases width - x,
        {
            proof {
                lemma_budget(
                    base as int,
                    y as int,
                    x as int,
                    width as int,
                    height as int,
                    spp as int,
                );
                assert(x < 8192);
                assert(y < 8192);
            }
            let ghost px_fv = film@;
            let ghost px_smp = local;
            let pixel = Pixel { x: x as i32, y: y as i32 };
            local.start_pixel(pixel);
            let ghost sample_base = film.samples;
            let mut more = local.start_next_sample();
            let ghost pre_fv = film@;
            let ghost pre_smp = local;
            while more
                invariant
                    wf_scene(*scene),
                    wf_camera(*camera),
                    wf_filter(*filter),
                    wf_film(*film),
                    wf_sampler(local),
                    local.x_strata == sampler.x_strata,
                    local.y_strata == sampler.y_strata,
                    width == camera.res_width,
                    height == camera.res_height,
                    film.width == width,
                    film.height == height,
                    spp == sampler.x_strata * sampler.y_strata,
                    1 <= spp <= 65536,
                    y < height,
                    x < width,
                    pixel.x == x as i32,
                    pixel.y == y as i32,
                    local.dim == 0,
                    1 <= local.sample_idx <= spp + 1,
                    more == (local.sample_idx <= spp),
                    film.samples == sample_base + local.sample_idx - 1,
                    !more ==> film.samples == sample_base + spp,
                    sample_base + spp <= FILM_SAMPLES_MAX,
                    film@ == after_pixel_samples_s(
                        *scene,
                        *camera,
                        *filter,
                        pre_fv,
                        pre_smp,
                        pixel,
                        (local.sample_idx - 1) as nat,
                    ).0,
                    local == after_pixel_samples_s(
                        *scene,
                        *camera,
                        *filter,
                        pre_fv,
                        pre_smp,
                        pixel,
                        (local.sample_idx - 1) as nat,
                    ).1,
                decreases spp + 1 - local.sample_idx,
            {
                let ghost fv_head = film@;
                let ghost smp_head = local;
                let cs = local.get_camera_sample(pixel);
                proof {
                    assert(cs.film_point.x < (x as int) * 65536 + 65536);
                    assert(cs.film_point.y < (y as int) * 65536 + 65536);
                    assert((x as int) * 65536 + 65536 <= (camera.res_width as int) * 65536);
                    assert((y as int) * 65536 + 65536 <= (camera.res_height as int) * 65536);
                }
                let ray = camera.generate_ray(&cs);
                let in_range = okv_check(ray.origin, UMAX) && okv_check(ray.direction, UMAX);
                let radiance = if in_range {
                    OriginalRayTracer::color_at(scene, &ray)
                } else {
                    RgbaSpectrum::transparent()
                };
                film.add_sample(cs.film_point, radiance, filter);
                more = local.start_next_sample();
                proof {
                    let step = after_sample_s(*scene, *camera, *filter, fv_head, smp_head, pixel);
                    assert(cs == camera_sample_of_s(smp_head, pixel).0);
                    assert(radiance == sample_radiance_s(*scene, *camera, cs));
                    assert(film@.pixels =~= film_deposit_view_s(
                        fv_head,
                        *filter,
                        cs.film_point,
                        radiance,
                    ).pixels);
                    assert(film@ == step.0);
                    assert(local == step.1);
                }
            }
            x = x + 1;
            proof {
                lemma_step_x(base as int, y as int, x as int, width as int, spp as int);
                assert(pre_smp == (StratifiedSampler {
                    state: pixel_seed_s(px_smp.seed, pixel),
                    pixel_state: pixel_seed_s(px_smp.seed, pixel),
                    current_pixel: pixel,
                    sample_idx: 1,
                    dim: 0,
                    ..px_smp
                }));
                assert(px_smp.x_strata * px_smp.y_strata == spp);
                assert(film@ == after_pixel_s(*scene, *camera, *filter, px_fv, px_smp, pixel).0);
                assert(local == after_pixel_s(*scene, *camera, *filter, px_fv, px_smp, pixel).1);
                assert(pixel == (Pixel { x: (x - 1) as i32, y: y as i32 }));
            }
        }
        y = y + 1;
        proof {
            lemma_step_y(base as int, y as int, width as int, spp as int);
        }
    }
    proof {
        assert((height as int) * (width as int) * (spp as int) == (width as int) * (height as int)
            * (spp as int)) by (nonlinear_arith) {}
    }
}

/// The sampler state the render loop starts from: an independently seeded
/// copy of the configured sampler.
pub open spec fn render_start_sampler_s(s: StratifiedSampler) -> StratifiedSampler {
    StratifiedSampler {
        state: s.seed,
        pixel_state: s.seed,
        current_pixel: Pixel { x: 0, y: 0 },
        sample_idx: 0,
        dim: 0,
        ..s
    }
}

/// The deposits made so far never exceed the film's budget.
proof fn lemma_budget(base: int, y: int, x: int, width: int, height: int, spp: int)
    requires
        0 <= y < height,
        0 <= x < width,
        0 <= spp,
        0 <= base,
        base + width * height * spp <= FILM_SAMPLES_MAX,
    ensures
        base + y * width * spp + x * spp + spp <= FILM_SAMPLES_MAX,
{
    assert(y * width * spp + x * spp + spp <= width * height * spp) by (nonlinear_arith)
        requires
            0 <= y < height,
            0 <= x < width,
            0 <= spp,
    {}
}

/// Advancing one pixel advances the deposit count by one pixel's worth.
proof fn lemma_step_x(base: int, y: int, x: int, width: int, spp: int)
    requires
        x >= 1,
    ensures
        base + y * width * spp + (x - 1) * spp + spp == base + y * width * spp + x * spp,
{
    assert((x - 1) * spp + spp == x * spp) by (nonlinear_arith) {}
}

/// Advancing one row advances the deposit count by one row's worth.
proof fn lemma_step_y(base: int, y: int, width: int, spp: int)
    requires
        y >= 1,
    ensures
        base + (y - 1) * width * spp + width * spp == base + y * width * spp,
{
    assert((y - 1) * width * spp + width * spp == y * width * spp) by (nonlinear_arith) {}
}

} // verus!
