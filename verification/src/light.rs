//! Light sources: a closed variant set (point light now; further variants
//! reserved), each evaluating incident radiance and direction at a point.

use vstd::prelude::*;
use crate::color::{nonneg_c, okc, RgbaSpectrum};
use crate::fixed::{fdiv_s, fmul_s, lemma_sqrt_floor, sqrt_floor, SCALE};
use crate::interaction::SurfaceInteraction;
use crate::vector::{dot_s, mag_s, okv, sub_v_s, Vec2, Vec3, UMAX, VMAX};
use vstd::arithmetic::div_mod::{lemma_div_nonincreasing, lemma_div_pos_is_pos};

verus! {

/// `4 * pi` as a fixed-point scalar, used for the total power of an
/// isotropic emitter.
pub const FOUR_PI: i64 = 823549;

/// Upper bound on an incident radiance channel returned by `li`: intensity
/// divided by a squared distance of at least one raw unit.
pub const LI_MAX: i64 = 0x100_0000_0000;

/// Bit flags describing the character of a light source.
#[derive(Clone, Copy, Debug, PartialEq, Eq, Structural)]
pub struct LightFlags {
    pub bits: u8,
}

impl LightFlags {
    /// The light's position is a delta distribution (e.g. a point light).
    pub fn delta_position() -> (r: LightFlags)
        ensures
            r.bits == 1,
    {
        LightFlags { bits: 1 }
    }

    /// The light's direction is a delta distribution (e.g. a directional
    /// light).
    pub fn delta_direction() -> (r: LightFlags)
        ensures
            r.bits == 2,
    {
        LightFlags { bits: 2 }
    }

    /// The light is an area light.
    pub fn area() -> (r: LightFlags)
        ensures
            r.bits == 4,
    {
        LightFlags { bits: 4 }
    }

    /// The light is an infinite environment light.
    pub fn infinite() -> (r: LightFlags)
        ensures
            r.bits == 8,
    {
        LightFlags { bits: 8 }
    }

    /// Whether all the flags of `o` are set in `self`.
    pub fn contains(self, o: LightFlags) -> (r: bool)
        ensures
            r == (self.bits & o.bits == o.bits),
    {
        self.bits & o.bits == o.bits
    }
}

/// A point light source that emits the same amount of light in all
/// directions.
#[derive(Clone, Copy, Debug, PartialEq, Eq, Structural)]
pub struct PointLight {
    /// The light's position in world space.
    pub position: Vec3,
    /// The amount of power emitted per unit solid angle.
    pub intensity: RgbaSpectrum,
}

/// The bounds every light in a scene satisfies: a unit-scale position and a
/// nonnegative, unit-scale intensity.
pub open spec fn wf_point_light(l: PointLight) -> bool {
    &&& okv(l.position, UMAX)
    &&& okc(l.intensity, UMAX)
    &&& nonneg_c(l.intensity)
}

impl PointLight {
    /// Create a new point light source at `position` emitting `intensity`
    /// per unit solid angle.
    pub fn new(position: Vec3, intensity: RgbaSpectrum) -> (r: PointLight)
        ensures
            r.position == position,
            r.intensity == intensity,
    {
        PointLight { position, intensity }
    }

    /// The radiance arriving at the interaction point from this light,
    /// ignoring occlusion, together with the unit direction from the point
    /// toward the light. Radiance falls off with the inverse square of the
    /// fixed-point distance.
    pub fn li(&self, interaction: &SurfaceInteraction) -> (r: (RgbaSpectrum, Vec3))
        requires
            wf_point_light(*self),
            okv(interaction.point, UMAX),
            dot_s(
                sub_v_s(self.position, interaction.point),
                sub_v_s(self.position, interaction.point),
            ) != 0,
        ensures
            ({
                let ltp = sub_v_s(self.position, interaction.point);
                let d2 = dot_s(ltp, ltp);
                &&& r.0.r == fdiv_s(self.intensity.r as int, d2)
                &&& r.0.g == fdiv_s(self.intensity.g as int, d2)
                &&& r.0.b == fdiv_s(self.intensity.b as int, d2)
                &&& r.0.a == fdiv_s(self.intensity.a as int, d2)
                &&& r.1.x == fdiv_s(ltp.x as int, mag_s(ltp))
                &&& r.1.y == fdiv_s(ltp.y as int, mag_s(ltp))
                &&& r.1.z == fdiv_s(ltp.z as int, mag_s(ltp))
            }),
            okv(r.1, 0x2_0000),
            0 <= r.0.r <= LI_MAX,
            0 <= r.0.g <= LI_MAX,
            0 <= r.0.b <= LI_MAX,
            0 <= r.0.a <= LI_MAX,
    {
        let light_to_point = self.position.sub(interaction.point);
        let d2 = light_to_point.magnitude2();
        proof {
            assert(light_to_point == sub_v_s(self.position, interaction.point));
            assert(d2 >= 1);
            lemma_sqrt_floor((d2 as int) * (SCALE as int));
            assert(mag_s(light_to_point) == sqrt_floor((d2 as int) * (SCALE as int)));
            if mag_s(light_to_point) == 0 {
                assert((d2 as int) * (SCALE as int) < (0 + 1) * (0 + 1));
                assert(false);
            }
            lemma_radiance_bound(self.intensity.r as int, d2 as int);
            lemma_radiance_bound(self.intensity.g as int, d2 as int);
            lemma_radiance_bound(self.intensity.b as int, d2 as int);
            lemma_radiance_bound(self.intensity.a as int, d2 as int);
        }
        let li = self.intensity.div(d2);
        let wi = light_to_point.normalize();
        (li, wi)
    }

    /// An approximation of the light's total emitted power: `4 * pi` times
    /// the intensity.
    pub fn power(&self) -> (r: RgbaSpectrum)
        requires
            okc(self.intensity, VMAX),
        ensures
            r.r == fmul_s(self.intensity.r as int, FOUR_PI as int),
            r.g == fmul_s(self.intensity.g as int, FOUR_PI as int),
            r.b == fmul_s(self.intensity.b as int, FOUR_PI as int),
            r.a == fmul_s(self.intensity.a as int, FOUR_PI as int),
    {
        self.intensity.scale(FOUR_PI)
    }

    /// A point light's position is a delta distribution, and nothing more.
    pub fn flags(&self) -> (r: LightFlags)
        ensures
            r.bits == 1,
    {
        LightFlags::delta_position()
    }

    /// A point light needs no preprocessing pass over the scene.
    pub fn preprocess(&mut self, _scene: &crate::scene::Scene)
        ensures
            *final(self) == *old(self),
    {
    }
}

/// Intensity over a squared distance of at least one raw unit stays between
/// zero and `intensity * SCALE`.
proof fn lemma_radiance_bound(i: int, d2: int)
    requires
        0 <= i <= UMAX,
        d2 >= 1,
    ensures
        0 <= fdiv_s(i, d2) <= LI_MAX,
{
    let s = SCALE as int;
    if i > 0 {
        lemma_div_pos_is_pos(i * s, d2);
        lemma_div_nonincreasing(i * s, d2);
    }
}

/// A light source: a closed set of variants sharing one contract.
pub enum Light {
    PointLight(PointLight),
}

/// The world-space position the light shines from.
pub open spec fn light_position(l: Light) -> Vec3 {
    match l {
        Light::PointLight(pl) => pl.position,
    }
}

/// The light's emitted intensity per unit solid angle.
pub open spec fn light_intensity(l: Light) -> RgbaSpectrum {
    match l {
        Light::PointLight(pl) => pl.intensity,
    }
}

/// The bounds every light in a scene satisfies.
pub open spec fn wf_light(l: Light) -> bool {
    match l {
        Light::PointLight(pl) => wf_point_light(pl),
    }
}

impl Light {
    /// A point light at `position` emitting `intensity` per unit solid
    /// angle.
    pub fn point_light(position: Vec3, intensity: RgbaSpectrum) -> (r: Light)
        ensures
            r == (Light::PointLight(PointLight { position, intensity })),
    {
        Light::PointLight(PointLight::new(position, intensity))
    }

    /// The radiance arriving at the interaction point due to this light,
    /// ignoring occlusion, and the unit direction from the point toward the
    /// light.
    pub fn li(&self, interaction: &SurfaceInteraction) -> (r: (RgbaSpectrum, Vec3))
        requires
            wf_light(*self),
            okv(interaction.point, UMAX),
            dot_s(
                sub_v_s(light_position(*self), interaction.point),
                sub_v_s(light_position(*self), interaction.point),
            ) != 0,
        ensures
            ({
                let ltp = sub_v_s(light_position(*self), interaction.point);
                let d2 = dot_s(ltp, ltp);
                &&& r.0.r == fdiv_s(light_intensity(*self).r as int, d2)
                &&& r.0.g == fdiv_s(light_intensity(*self).g as int, d2)
                &&& r.0.b == fdiv_s(light_intensity(*self).b as int, d2)
                &&& r.0.a == fdiv_s(light_intensity(*self).a as int, d2)
                &&& r.1.x == fdiv_s(ltp.x as int, mag_s(ltp))
                &&& r.1.y == fdiv_s(ltp.y as int, mag_s(ltp))
                &&& r.1.z == fdiv_s(ltp.z as int, mag_s(ltp))
            }),
            okv(r.1, 0x2_0000),
            0 <= r.0.r <= LI_MAX,
            0 <= r.0.g <= LI_MAX,
            0 <= r.0.b <= LI_MAX,
            0 <= r.0.a <= LI_MAX,
    {
        match self {
            Light::PointLight(pl) => pl.li(interaction),
        }
    }

    /// Incident radiance with a sampling weight: a point light has no solid
    /// angle to sample, so the single deterministic direction comes back
    /// with a probability weight of one.
    pub fn sample_li(&self, interaction: &SurfaceInteraction, _u: &Vec2) -> (r: (
        RgbaSpectrum,
        Vec3,
        i64,
    ))
        requires
            wf_light(*self),
            okv(interaction.point, UMAX),
            dot_s(
                sub_v_s(light_position(*self), interaction.point),
                sub_v_s(light_position(*self), interaction.point),
            ) != 0,
        ensures
            ({
                let ltp = sub_v_s(light_position(*self), interaction.point);
                let d2 = dot_s(ltp, ltp);
                &&& r.0.r == fdiv_s(light_intensity(*self).r as int, d2)
                &&& r.0.g == fdiv_s(light_intensity(*self).g as int, d2)
                &&& r.0.b == fdiv_s(light_intensity(*self).b as int, d2)
                &&& r.0.a == fdiv_s(light_intensity(*self).a as int, d2)
                &&& r.1.x == fdiv_s(ltp.x as int, mag_s(ltp))
                &&& r.1.y == fdiv_s(ltp.y as int, mag_s(ltp))
                &&& r.1.z == fdiv_s(ltp.z as int, mag_s(ltp))
            }),
            r.2 == SCALE,
    {
        let (li, wi) = self.li(interaction);
        (li, wi, SCALE)
    }

    /// An approximation of the light's total emitted power, useful for
    /// transport algorithms that spend more time on brighter lights.
    pub fn power(&self) -> (r: RgbaSpectrum)
        requires
            okc(light_intensity(*self), VMAX),
        ensures
            r.r == fmul_s(light_intensity(*self).r as int, FOUR_PI as int),
            r.g == fmul_s(light_intensity(*self).g as int, FOUR_PI as int),
            r.b == fmul_s(light_intensity(*self).b as int, FOUR_PI as int),
            r.a == fmul_s(light_intensity(*self).a as int, FOUR_PI as int),
    {
        match self {
            Light::PointLight(pl) => pl.power(),
        }
    }

    /// The light flags that describe the type of light source.
    pub fn flags(&self) -> (r: LightFlags)
        ensures
            *self is PointLight ==> r.bits == 1,
    {
        match self {
            Light::PointLight(pl) => pl.flags(),
        }
    }
}

} // verus!
