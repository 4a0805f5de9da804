//! The orthographic camera: maps film-plane samples linearly onto a screen
//! rectangle and produces parallel world-space rays through a fixed
//! camera-to-world transform.

use vstd::prelude::*;
use crate::fixed::{fdiv, fdiv_s, fmul, fmul_s, lemma_abs_mul_le, lemma_tdiv_bound, HALF, SCALE};
use crate::matrix::{okm, tp_vec_s, tv_vec_s, Matrix4};
use crate::ray::{Ray, RayDifferential};
use crate::sampler::CameraSample;
use crate::vector::{Vec2, Vec3, VMAX};

verus! {

/// Largest screen extent and clip distance a camera accepts.
pub const CAM_MAX: i64 = 0x10_0000_0000;

/// The bounds every camera satisfies: they keep every step of the ray
/// construction inside the fixed-point working range.
pub open spec fn wf_camera(c: OrthographicCamera) -> bool {
    &&& okm(c.camera_to_world, VMAX)
    &&& 1 <= c.screen_width <= CAM_MAX
    &&& 1 <= c.screen_height <= CAM_MAX
    &&& -CAM_MAX <= c.z_near <= c.z_far <= CAM_MAX
    &&& 1 <= c.res_width <= 8192
    &&& 1 <= c.res_height <= 8192
}

/// A camera producing parallel rays: film samples map linearly onto a
/// `screen_width x screen_height` rectangle centered on the camera-space
/// origin, rays start on the near clip plane and run to the far clip
/// plane along camera-space +z.
#[derive(Clone, Copy, Debug, PartialEq, Eq, Structural)]
pub struct OrthographicCamera {
    pub camera_to_world: Matrix4,
    pub z_near: i64,
    pub z_far: i64,
    pub screen_width: i64,
    pub screen_height: i64,
    pub res_width: usize,
    pub res_height: usize,
}

/// The camera-space starting point of the ray for a film point: the film
/// coordinate normalized by the resolution, mapped across the screen
/// rectangle (film y grows downward, screen y upward), at the near clip
/// depth.
pub open spec fn cam_origin_s(c: OrthographicCamera, film: Vec2) -> Vec3 {
    let ndc_x = fdiv_s(film.x as int, (c.res_width * SCALE) as int);
    let ndc_y = fdiv_s(film.y as int, (c.res_height * SCALE) as int);
    Vec3 {
        x: (fmul_s(ndc_x, c.screen_width as int) - fmul_s(c.screen_width as int, HALF as int))
            as i64,
        y: (fmul_s(c.screen_height as int, HALF as int) - fmul_s(ndc_y, c.screen_height as int))
            as i64,
        z: c.z_near,
    }
}

/// The world-space ray for a film point: the camera-space start taken
/// through the camera-to-world transform, the fixed +z direction likewise,
/// and the parametric bound spanning the clip range.
pub open spec fn ortho_ray_s(c: OrthographicCamera, film: Vec2) -> Ray {
    Ray {
        origin: tp_vec_s(c.camera_to_world, cam_origin_s(c, film)),
        direction: tv_vec_s(c.camera_to_world, Vec3 { x: 0, y: 0, z: SCALE }),
        t_max: (c.z_far - c.z_near) as i64,
    }
}

impl OrthographicCamera {
    /// A camera from its transform, clip range, screen rectangle and film
    /// resolution.
    pub fn new(
        camera_to_world: Matrix4,
        z_near: i64,
        z_far: i64,
        screen_size: Vec2,
        resolution: (usize, usize),
    ) -> (r: OrthographicCamera)
        ensures
            r.camera_to_world == camera_to_world,
            r.z_near == z_near,
            r.z_far == z_far,
            r.screen_width == screen_size.x,
            r.screen_height == screen_size.y,
            r.res_width == resolution.0,
            r.res_height == resolution.1,
    {
        OrthographicCamera {
            camera_to_world,
            z_near,
            z_far,
            screen_width: screen_size.x,
            screen_height: screen_size.y,
            res_width: resolution.0,
            res_height: resolution.1,
        }
    }

    /// The world-space ray for a camera sample's film point.
    pub fn generate_ray(&self, sample: &CameraSample) -> (r: Ray)
        requires
            wf_camera(*self),
            0 <= sample.film_point.x <= self.res_width * SCALE + SCALE,
            0 <= sample.film_point.y <= self.res_height * SCALE + SCALE,
        ensures
            r == ortho_ray_s(*self, sample.film_point),
            r.t_max >= 0,
    {
        self.ray_for_film_point(sample.film_point)
    }

    /// The world-space ray for an explicit film point.
    fn ray_for_film_point(&self, film: Vec2) -> (r: Ray)
        requires
            wf_camera(*self),
            0 <= film.x <= self.res_width * SCALE + SCALE,
            0 <= film.y <= self.res_height * SCALE + SCALE,
        ensures
            r == ortho_ray_s(*self, film),
            r.t_max >= 0,
    {
        let rw: i64 = (self.res_width as i64) * SCALE;
        let rh: i64 = (self.res_height as i64) * SCALE;
        proof {
            lemma_tdiv_bound((film.x as int) * 65536, rw as int, 0x2_0000);
            lemma_tdiv_bound((film.y as int) * 65536, rh as int, 0x2_0000);
        }
        let ndc_x = fdiv(film.x, rw);
        let ndc_y = fdiv(film.y, rh);
        proof {
            lemma_cam_products(ndc_x as int, self.screen_width as int);
            lemma_cam_products(ndc_y as int, self.screen_height as int);
            lemma_cam_products(HALF as int, self.screen_width as int);
            lemma_cam_products(HALF as int, self.screen_height as int);
        }
        let half_w = fmul(self.screen_width, HALF);
        let half_h = fmul(self.screen_height, HALF);
        let sx = fmul(ndc_x, self.screen_width) - half_w;
        let sy = half_h - fmul(ndc_y, self.screen_height);
        let cam_p = Vec3 { x: sx, y: sy, z: self.z_near };
        let cam_d = Vec3 { x: 0, y: 0, z: SCALE };
        let origin = self.camera_to_world.transform_point(cam_p);
        let direction = self.camera_to_world.transform_vector(cam_d);
        Ray { origin, direction, t_max: self.z_far - self.z_near }
    }

    /// The primary ray together with the two auxiliary rays offset one
    /// pixel in film x and film y.
    pub fn generate_ray_differential(&self, sample: &CameraSample) -> (r: (Ray, RayDifferential))
        requires
            wf_camera(*self),
            0 <= sample.film_point.x <= self.res_width * SCALE,
            0 <= sample.film_point.y <= self.res_height * SCALE,
        ensures
            r.0 == ortho_ray_s(*self, sample.film_point),
            ({
                let dx = ortho_ray_s(
                    *self,
                    Vec2 { x: (sample.film_point.x + SCALE) as i64, y: sample.film_point.y },
                );
                let dy = ortho_ray_s(
                    *self,
                    Vec2 { x: sample.film_point.x, y: (sample.film_point.y + SCALE) as i64 },
                );
                &&& r.1.dx_origin == dx.origin
                &&& r.1.dx_direction == dx.direction
                &&& r.1.dy_origin == dy.origin
                &&& r.1.dy_direction == dy.direction
            }),
    {
        let primary = self.ray_for_film_point(sample.film_point);
        let fp = sample.film_point;
        let dx_ray = self.ray_for_film_point(Vec2 { x: fp.x + SCALE, y: fp.y });
        let dy_ray = self.ray_for_film_point(Vec2 { x: fp.x, y: fp.y + SCALE });
        (
            primary,
            RayDifferential {
                dx_origin: dx_ray.origin,
                dx_direction: dx_ray.direction,
                dy_origin: dy_ray.origin,
                dy_direction: dy_ray.direction,
            },
        )
    }
}

/// Products of a normalized coordinate (or one half) with a screen extent
/// stay within the multiplication range, with results below `2^38`.
proof fn lemma_cam_products(a: int, s: int)
    requires
        -0x2_0000 <= a <= 0x2_0000,
        1 <= s <= CAM_MAX,
    ensures
        -0x4000_0000_0000_0000_0000 <= a * s <= 0x4000_0000_0000_0000_0000,
        -0x4000_0000_0000_0000_0000 <= s * a <= 0x4000_0000_0000_0000_0000,
        ({
            let p = fmul_s(a, s);
            -0x20_0000_0000 <= p <= 0x20_0000_0000
        }),
        ({
            let q = fmul_s(s, a);
            -0x20_0000_0000 <= q <= 0x20_0000_0000
        }),
{
    lemma_abs_mul_le(a, s, 0x2_0000, CAM_MAX as int);
    lemma_abs_mul_le(s, a, CAM_MAX as int, 0x2_0000);
    lemma_tdiv_bound(a * s, 65536, 0x20_0000_0000);
    lemma_tdiv_bound(s * a, 65536, 0x20_0000_0000);
}

} // verus!
