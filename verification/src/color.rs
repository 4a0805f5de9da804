//! RGBA radiance values with fixed-point channels.
//!
//! A channel value of `SCALE` is full intensity for display, but radiance
//! may exceed it; channels are only clamped when the film writes the image.

use vstd::prelude::*;
use crate::fixed::{fdiv, fdiv_s, fmul_s, SCALE};
use crate::vector::{cmul, VMAX};

verus! {

/// The channelwise fixed-point product, as a value.
pub open spec fn mul_c_s(a: RgbaSpectrum, b: RgbaSpectrum) -> RgbaSpectrum {
    RgbaSpectrum {
        r: fmul_s(a.r as int, b.r as int) as i64,
        g: fmul_s(a.g as int, b.g as int) as i64,
        b: fmul_s(a.b as int, b.b as int) as i64,
        a: fmul_s(a.a as int, b.a as int) as i64,
    }
}

/// Every channel multiplied by the scalar `s`, as a value.
pub open spec fn scale_c_s(c: RgbaSpectrum, s: int) -> RgbaSpectrum {
    RgbaSpectrum {
        r: fmul_s(c.r as int, s) as i64,
        g: fmul_s(c.g as int, s) as i64,
        b: fmul_s(c.b as int, s) as i64,
        a: fmul_s(c.a as int, s) as i64,
    }
}

/// The channelwise sum, as a value.
pub open spec fn add_c_s(a: RgbaSpectrum, b: RgbaSpectrum) -> RgbaSpectrum {
    RgbaSpectrum {
        r: (a.r + b.r) as i64,
        g: (a.g + b.g) as i64,
        b: (a.b + b.b) as i64,
        a: (a.a + b.a) as i64,
    }
}

/// A color / radiance sample with red, green, blue and alpha channels.
#[derive(Clone, Copy, Debug, PartialEq, Eq, Structural)]
pub struct RgbaSpectrum {
    pub r: i64,
    pub g: i64,
    pub b: i64,
    pub a: i64,
}

/// Every channel of `c` lies in `[-m, m]`.
pub open spec fn okc(c: RgbaSpectrum, m: i64) -> bool {
    &&& -m <= c.r <= m
    &&& -m <= c.g <= m
    &&& -m <= c.b <= m
    &&& -m <= c.a <= m
}

/// Every channel of `c` is nonnegative.
pub open spec fn nonneg_c(c: RgbaSpectrum) -> bool {
    c.r >= 0 && c.g >= 0 && c.b >= 0 && c.a >= 0
}

impl RgbaSpectrum {
    /// An opaque color from its red, green and blue channels.
    pub fn from_rgb(r: i64, g: i64, b: i64) -> (c: RgbaSpectrum)
        ensures
            c.r == r,
            c.g == g,
            c.b == b,
            c.a == SCALE,
    {
        RgbaSpectrum { r, g, b, a: SCALE }
    }

    /// The color with every channel equal to `v`.
    pub fn constant(v: i64) -> (c: RgbaSpectrum)
        ensures
            c.r == v && c.g == v && c.b == v && c.a == v,
    {
        RgbaSpectrum { r: v, g: v, b: v, a: v }
    }

    /// The fully transparent color: every channel zero.
    pub fn transparent() -> (c: RgbaSpectrum)
        ensures
            c.r == 0 && c.g == 0 && c.b == 0 && c.a == 0,
    {
        RgbaSpectrum { r: 0, g: 0, b: 0, a: 0 }
    }

    /// A zero radiance contribution.
    pub fn black() -> (c: RgbaSpectrum)
        ensures
            c.r == 0 && c.g == 0 && c.b == 0 && c.a == 0,
    {
        RgbaSpectrum { r: 0, g: 0, b: 0, a: 0 }
    }

    /// Channelwise sum.
    pub fn add(self, o: RgbaSpectrum) -> (c: RgbaSpectrum)
        requires
            okc(self, 0x2000_0000_0000_0000),
            okc(o, 0x2000_0000_0000_0000),
        ensures
            c.r == self.r + o.r,
            c.g == self.g + o.g,
            c.b == self.b + o.b,
            c.a == self.a + o.a,
    {
        RgbaSpectrum { r: self.r + o.r, g: self.g + o.g, b: self.b + o.b, a: self.a + o.a }
    }

    /// Channelwise fixed-point product, as when a surface color filters
    /// incident light.
    pub fn mul(self, o: RgbaSpectrum) -> (c: RgbaSpectrum)
        requires
            okc(self, VMAX),
            okc(o, VMAX),
        ensures
            c.r == fmul_s(self.r as int, o.r as int),
            c.g == fmul_s(self.g as int, o.g as int),
            c.b == fmul_s(self.b as int, o.b as int),
            c.a == fmul_s(self.a as int, o.a as int),
    {
        RgbaSpectrum {
            r: cmul(self.r, o.r),
            g: cmul(self.g, o.g),
            b: cmul(self.b, o.b),
            a: cmul(self.a, o.a),
        }
    }

    /// Multiply every channel by the scalar `s`.
    pub fn scale(self, s: i64) -> (c: RgbaSpectrum)
        requires
            okc(self, VMAX),
            -VMAX <= s <= VMAX,
        ensures
            c.r == fmul_s(self.r as int, s as int),
            c.g == fmul_s(self.g as int, s as int),
            c.b == fmul_s(self.b as int, s as int),
            c.a == fmul_s(self.a as int, s as int),
    {
        RgbaSpectrum { r: cmul(self.r, s), g: cmul(self.g, s), b: cmul(self.b, s), a: cmul(self.a, s) }
    }

    /// Divide every channel by the scalar `s`.
    pub fn div(self, s: i64) -> (c: RgbaSpectrum)
        requires
            okc(self, 0x4000_0000_0000),
            s != 0,
        ensures
            c.r == fdiv_s(self.r as int, s as int),
            c.g == fdiv_s(self.g as int, s as int),
            c.b == fdiv_s(self.b as int, s as int),
            c.a == fdiv_s(self.a as int, s as int),
    {
        RgbaSpectrum { r: fdiv(self.r, s), g: fdiv(self.g, s), b: fdiv(self.b, s), a: fdiv(self.a, s) }
    }
}

} // verus!
