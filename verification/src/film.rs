//! The film: per-pixel accumulation of filter-weighted radiance samples,
//! and export of the final raster.
//!
//! Each pixel keeps an exact weighted radiance sum (in product scale, so no
//! rounding happens while accumulating) and an exact weight sum. A pixel is
//! finalized by dividing sum by weight, which makes the single-sample
//! round trip exact: depositing radiance `R` with weight `W` and finalizing
//! gives back exactly `R`.

use vstd::prelude::*;
use crate::color::RgbaSpectrum;
use crate::filter::{eval_at_s, wf_filter, MitchellFilter};
use crate::fixed::{tdiv, HALF, SCALE};
use crate::vector::Vec2;
use vstd::arithmetic::div_mod::{lemma_div_multiples_vanish, lemma_div_pos_is_pos, lemma_div_is_ordered};

verus! {

/// Largest film side length.
pub const FILM_SIDE_MAX: usize = 8192;

/// Largest number of deposits a film accepts.
pub const FILM_SAMPLES_MAX: u64 = 0x1000_0000;

/// Largest radiance channel magnitude a deposit accepts.
pub const FILM_RAD_MAX: i64 = 0x2000_0000_0000_0000;

/// Largest filter weight magnitude a deposit accepts.
pub const FILM_W_MAX: i64 = 0x10_0000_0000;

/// Growth of one accumulator in one deposit stays below this.
pub const FILM_STEP: i128 = 0x2_0000_0000_0000_0000_0000_0000;

/// One film pixel: exact weighted radiance sums (product scale) and the
/// exact weight sum.
#[derive(Clone, Copy, Debug, PartialEq, Eq, Structural)]
pub struct FilmPixel {
    pub sum_r: i128,
    pub sum_g: i128,
    pub sum_b: i128,
    pub sum_a: i128,
    pub weight_sum: i128,
}

impl FilmPixel {
    /// An empty accumulator.
    pub fn zero() -> (r: FilmPixel)
        ensures
            r == (FilmPixel { sum_r: 0, sum_g: 0, sum_b: 0, sum_a: 0, weight_sum: 0 }),
    {
        FilmPixel { sum_r: 0, sum_g: 0, sum_b: 0, sum_a: 0, weight_sum: 0 }
    }
}

/// The pixel after one deposit of radiance `rad` with weight `w`.
pub open spec fn deposit_s(p: FilmPixel, w: int, rad: RgbaSpectrum) -> FilmPixel {
    FilmPixel {
        sum_r: (p.sum_r + w * rad.r) as i128,
        sum_g: (p.sum_g + w * rad.g) as i128,
        sum_b: (p.sum_b + w * rad.b) as i128,
        sum_a: (p.sum_a + w * rad.a) as i128,
        weight_sum: (p.weight_sum + w) as i128,
    }
}

/// The continuous offset from the center of pixel `i` of a `w`-wide film
/// to the film point `p`.
pub open spec fn pixel_offset_s(i: int, w: int, p: Vec2) -> Vec2 {
    Vec2 {
        x: ((i % w) * SCALE + HALF - p.x) as i64,
        y: ((i / w) * SCALE + HALF - p.y) as i64,
    }
}

/// A finalized channel: the weighted sum divided by the weight sum, or
/// zero where no weight was accumulated.
pub open spec fn finalize_channel_s(sum: int, weight: int) -> int {
    if weight == 0 {
        0
    } else {
        tdiv(sum, weight)
    }
}

/// A finalized channel clamped to `[0, 1]` and scaled to an 8-bit value.
pub open spec fn to_byte_s(v: int) -> int {
    let c = if v < 0 {
        0
    } else if v > SCALE {
        SCALE as int
    } else {
        v
    };
    (c * 255) / (SCALE as int)
}

/// The abstract contents of a film.
pub struct FilmView {
    pub width: usize,
    pub height: usize,
    pub pixels: Seq<FilmPixel>,
    pub samples: u64,
}

/// A pixel grid accumulating filter-weighted radiance samples.
pub struct Film {
    /// Film width in pixels.
    pub width: usize,
    /// Film height in pixels.
    pub height: usize,
    /// Row-major pixel accumulators.
    pub pixels: Vec<FilmPixel>,
    /// How many deposits have been accumulated.
    pub samples: u64,
}

impl View for Film {
    type V = FilmView;

    open spec fn view(&self) -> FilmView {
        FilmView {
            width: self.width,
            height: self.height,
            pixels: self.pixels@,
            samples: self.samples,
        }
    }
}

/// The structural invariant of a film, established by `new` and kept by
/// every deposit: the grid matches the resolution and the accumulators
/// stay within the range that `samples` more deposits can never overflow.
pub open spec fn wf_film(f: Film) -> bool {
    &&& 1 <= f.width <= FILM_SIDE_MAX
    &&& 1 <= f.height <= FILM_SIDE_MAX
    &&& f.pixels@.len() == f.width * f.height
    &&& f.samples <= FILM_SAMPLES_MAX
    &&& forall|i: int|
        0 <= i < f.pixels@.len() ==> {
            let p = #[trigger] f.pixels@[i];
            &&& -(f.samples * FILM_STEP) <= p.sum_r <= f.samples * FILM_STEP
            &&& -(f.samples * FILM_STEP) <= p.sum_g <= f.samples * FILM_STEP
            &&& -(f.samples * FILM_STEP) <= p.sum_b <= f.samples * FILM_STEP
            &&& -(f.samples * FILM_STEP) <= p.sum_a <= f.samples * FILM_STEP
            &&& -(f.samples * FILM_STEP) <= p.weight_sum <= f.samples * FILM_STEP
        }
}

impl Film {
    /// An empty film of the given resolution.
    pub fn new(width: usize, height: usize) -> (r: Film)
        requires
            1 <= width <= FILM_SIDE_MAX,
            1 <= height <= FILM_SIDE_MAX,
        ensures
            wf_film(r),
            r.width == width,
            r.height == height,
            r.samples == 0,
            forall|i: int| 0 <= i < r.pixels@.len() ==> #[trigger] r.pixels@[i] == (FilmPixel {
                sum_r: 0,
                sum_g: 0,
                sum_b: 0,
                sum_a: 0,
                weight_sum: 0,
            }),
    {
        proof {
            lemma_area_bound(width as int, height as int);
        }
        let n = width * height;
        let mut pixels: Vec<FilmPixel> = Vec::new();
        let mut i: usize = 0;
        while i < n
            invariant
                i <= n,
                pixels@.len() == i,
                forall|j: int| 0 <= j < i ==> #[trigger] pixels@[j] == (FilmPixel {
                    sum_r: 0,
                    sum_g: 0,
                    sum_b: 0,
                    sum_a: 0,
                    weight_sum: 0,
                }),
            decreases n - i,
        {
            pixels.push(FilmPixel::zero());
            i = i + 1;
        }
        Film { width, height, pixels, samples: 0 }
    }

    /// Deposit one radiance sample taken at the continuous film position
    /// `film_point`: every pixel's accumulator takes the filter weight of
    /// the offset from its center (zero outside the filter's support) times
    /// the radiance, and the weight itself.
    pub fn add_sample(
        &mut self,
        film_point: Vec2,
        radiance: RgbaSpectrum,
        filter: &MitchellFilter,
    )
        requires
            wf_film(*old(self)),
            old(self).samples < FILM_SAMPLES_MAX,
            wf_filter(*filter),
            -FILM_RAD_MAX <= radiance.r <= FILM_RAD_MAX,
            -FILM_RAD_MAX <= radiance.g <= FILM_RAD_MAX,
            -FILM_RAD_MAX <= radiance.b <= FILM_RAD_MAX,
            -FILM_RAD_MAX <= radiance.a <= FILM_RAD_MAX,
            -0x1000_0000_0000 <= film_point.x <= 0x1000_0000_0000,
            -0x1000_0000_0000 <= film_point.y <= 0x1000_0000_0000,
        ensures
            wf_film(*final(self)),
            final(self).width == old(self).width,
            final(self).height == old(self).height,
            final(self).samples == old(self).samples + 1,
            final(self).pixels@.len() == old(self).pixels@.len(),
            forall|i: int|
                0 <= i < old(self).pixels@.len() ==> #[trigger] final(self).pixels@[i]
                    == deposit_s(
                    old(self).pixels@[i],
                    eval_at_s(*filter, pixel_offset_s(i, old(self).width as int, film_point)),
                    radiance,
                ),
    {
        let ghost orig = *self;
        let w = self.width;
        let n = self.pixels.len();
        let mut new_pixels: Vec<FilmPixel> = Vec::new();
        let mut i: usize = 0;
        while i < n
            invariant
                *self == orig,
                wf_film(orig),
                orig.samples < FILM_SAMPLES_MAX,
                wf_filter(*filter),
                -FILM_RAD_MAX <= radiance.r <= FILM_RAD_MAX,
                -FILM_RAD_MAX <= radiance.g <= FILM_RAD_MAX,
                -FILM_RAD_MAX <= radiance.b <= FILM_RAD_MAX,
                -FILM_RAD_MAX <= radiance.a <= FILM_RAD_MAX,
                -0x1000_0000_0000 <= film_point.x <= 0x1000_0000_0000,
                -0x1000_0000_0000 <= film_point.y <= 0x1000_0000_0000,
                w == orig.width,
                n == orig.pixels@.len(),
                i <= n,
                new_pixels@.len() == i,
                forall|j: int|
                    0 <= j < i ==> #[trigger] new_pixels@[j] == deposit_s(
                        orig.pixels@[j],
                        eval_at_s(*filter, pixel_offset_s(j, orig.width as int, film_point)),
                        radiance,
                    ),
            decreases n - i,
        {
            proof {
                vstd::arithmetic::div_mod::lemma_mod_division_less_than_divisor(
                    i as int,
                    w as int,
                );
                lemma_row_below_height(i as int, w as int, orig.height as int);
            }
            let px: i64 = ((i % w) as i64) * SCALE + HALF;
            let py: i64 = ((i / w) as i64) * SCALE + HALF;
            let offset = Vec2 { x: px - film_point.x, y: py - film_point.y };
            let weight = filter.eval_at(offset);
            proof {
                lemma_weight_bound(*filter, offset);
                lemma_deposit_growth(
                    orig.pixels@[i as int],
                    weight as int,
                    radiance,
                    orig.samples as int,
                );
            }
            proof {
                assert(orig.pixels@[i as int] == orig.pixels@[i as int]);
            }
            let old_p = self.pixels[i];
            let new_p = FilmPixel {
                sum_r: old_p.sum_r + (weight as i128) * (radiance.r as i128),
                sum_g: old_p.sum_g + (weight as i128) * (radiance.g as i128),
                sum_b: old_p.sum_b + (weight as i128) * (radiance.b as i128),
                sum_a: old_p.sum_a + (weight as i128) * (radiance.a as i128),
                weight_sum: old_p.weight_sum + (weight as i128),
            };
            new_pixels.push(new_p);
            i = i + 1;
        }
        self.pixels = new_pixels;
        self.samples = self.samples + 1;
        proof {
            lemma_wf_after_deposit(orig, *self, *filter, film_point, radiance);
        }
    }

    /// Finalize every pixel as `sum / weight` (a zero weight sum becomes
    /// fully transparent black) and clamp to the 8-bit output range. The
    /// raster holds four bytes per pixel, in row-major R, G, B, A order.
    pub fn write_image(&self) -> (r: Vec<u8>)
        requires
            wf_film(*self),
        ensures
            r@.len() == 4 * self.pixels@.len(),
            forall|i: int|
                0 <= i < self.pixels@.len() ==> {
                    let p = #[trigger] self.pixels@[i];
                    &&& r@[4 * i] == to_byte_s(
                        finalize_channel_s(p.sum_r as int, p.weight_sum as int),
                    )
                    &&& r@[4 * i + 1] == to_byte_s(
                        finalize_channel_s(p.sum_g as int, p.weight_sum as int),
                    )
                    &&& r@[4 * i + 2] == to_byte_s(
                        finalize_channel_s(p.sum_b as int, p.weight_sum as int),
                    )
                    &&& r@[4 * i + 3] == to_byte_s(
                        finalize_channel_s(p.sum_a as int, p.weight_sum as int),
                    )
                },
    {
        let n = self.pixels.len();
        let mut out: Vec<u8> = Vec::new();
        let mut i: usize = 0;
        while i < n
            invariant
                wf_film(*self),
                n == self.pixels@.len(),
                i <= n,
                out@.len() == 4 * i,
                forall|j: int|
                    0 <= j < i ==> {
                        let p = #[trigger] self.pixels@[j];
                        &&& out@[4 * j] == to_byte_s(
                            finalize_channel_s(p.sum_r as int, p.weight_sum as int),
                        )
                        &&& out@[4 * j + 1] == to_byte_s(
                            finalize_channel_s(p.sum_g as int, p.weight_sum as int),
                        )
                        &&& out@[4 * j + 2] == to_byte_s(
                            finalize_channel_s(p.sum_b as int, p.weight_sum as int),
                        )
                        &&& out@[4 * j + 3] == to_byte_s(
                            finalize_channel_s(p.sum_a as int, p.weight_sum as int),
                        )
                    },
            decreases n - i,
        {
            let p = self.pixels[i];
            out.push(channel_byte(p.sum_r, p.weight_sum));
            out.push(channel_byte(p.sum_g, p.weight_sum));
            out.push(channel_byte(p.sum_b, p.weight_sum));
            out.push(channel_byte(p.sum_a, p.weight_sum));
            i = i + 1;
        }
        out
    }

    /// Merge a worker's partial film into this one by pixel-wise summation
    /// of weighted sums and weight sums.
    pub fn merge(&mut self, other: &Film)
        requires
            wf_film(*old(self)),
            wf_film(*other),
            old(self).width == other.width,
            old(self).height == other.height,
            old(self).samples + other.samples <= FILM_SAMPLES_MAX,
        ensures
            wf_film(*final(self)),
            final(self).width == old(self).width,
            final(self).height == old(self).height,
            final(self).samples == old(self).samples + other.samples,
            final(self).pixels@.len() == old(self).pixels@.len(),
            forall|i: int|
                0 <= i < old(self).pixels@.len() ==> #[trigger] final(self).pixels@[i]
                    == merge_pixel_s(old(self).pixels@[i], other.pixels@[i]),
    {
        let ghost orig = *self;
        let n = self.pixels.len();
        let mut new_pixels: Vec<FilmPixel> = Vec::new();
        let mut i: usize = 0;
        while i < n
            invariant
                *self == orig,
                wf_film(orig),
                wf_film(*other),
                orig.width == other.width,
                orig.height == other.height,
                orig.samples + other.samples <= FILM_SAMPLES_MAX,
                n == orig.pixels@.len(),
                i <= n,
                new_pixels@.len() == i,
                forall|j: int|
                    0 <= j < i ==> #[trigger] new_pixels@[j] == merge_pixel_s(
                        orig.pixels@[j],
                        other.pixels@[j],
                    ),
            decreases n - i,
        {
            let a = self.pixels[i];
            let b = other.pixels[i];
            let new_p = FilmPixel {
                sum_r: a.sum_r + b.sum_r,
                sum_g: a.sum_g + b.sum_g,
                sum_b: a.sum_b + b.sum_b,
                sum_a: a.sum_a + b.sum_a,
                weight_sum: a.weight_sum + b.weight_sum,
            };
            new_pixels.push(new_p);
            i = i + 1;
        }
        self.pixels = new_pixels;
        self.samples = self.samples + other.samples;
        proof {
            lemma_wf_after_merge(orig, *other, *self);
        }
    }
}

/// The pixel-wise sum of two accumulators.
pub open spec fn merge_pixel_s(a: FilmPixel, b: FilmPixel) -> FilmPixel {
    FilmPixel {
        sum_r: (a.sum_r + b.sum_r) as i128,
        sum_g: (a.sum_g + b.sum_g) as i128,
        sum_b: (a.sum_b + b.sum_b) as i128,
        sum_a: (a.sum_a + b.sum_a) as i128,
        weight_sum: (a.weight_sum + b.weight_sum) as i128,
    }
}

/// Merging partial films is commutative pixel by pixel, so the order in
/// which workers' tiles are merged does not matter.
pub proof fn lemma_merge_commutes(a: FilmPixel, b: FilmPixel)
    ensures
        merge_pixel_s(a, b) == merge_pixel_s(b, a),
{
}

/// Accumulating a single sample of radiance `rad` with a nonzero filter
/// weight `w` into an empty pixel and finalizing returns exactly `rad`:
/// the weight cancels.
pub proof fn lemma_film_round_trip(w: int, rad: int)
    requires
        w > 0,
    ensures
        finalize_channel_s(0 + w * rad, 0 + w) == rad,
{
    if rad > 0 {
        lemma_div_multiples_vanish(rad, w);
    } else if rad < 0 {
        lemma_div_multiples_vanish(-rad, w);
        assert(w * rad * -1 == w * (-rad)) by (nonlinear_arith) {}
    }
}

/// The record-level single-sample round trip: depositing radiance `rad`
/// with a positive weight `w` into an empty pixel and finalizing yields
/// exactly `rad`, channel by channel.
pub proof fn lemma_film_single_sample(w: int, rad: RgbaSpectrum)
    requires
        0 < w <= FILM_W_MAX,
        -FILM_RAD_MAX <= rad.r <= FILM_RAD_MAX,
        -FILM_RAD_MAX <= rad.g <= FILM_RAD_MAX,
        -FILM_RAD_MAX <= rad.b <= FILM_RAD_MAX,
        -FILM_RAD_MAX <= rad.a <= FILM_RAD_MAX,
    ensures
        ({
            let empty = FilmPixel { sum_r: 0, sum_g: 0, sum_b: 0, sum_a: 0, weight_sum: 0 };
            let p = deposit_s(empty, w, rad);
            &&& finalize_channel_s(p.sum_r as int, p.weight_sum as int) == rad.r
            &&& finalize_channel_s(p.sum_g as int, p.weight_sum as int) == rad.g
            &&& finalize_channel_s(p.sum_b as int, p.weight_sum as int) == rad.b
            &&& finalize_channel_s(p.sum_a as int, p.weight_sum as int) == rad.a
        }),
{
    crate::fixed::lemma_abs_mul_le(w, rad.r as int, FILM_W_MAX as int, FILM_RAD_MAX as int);
    crate::fixed::lemma_abs_mul_le(w, rad.g as int, FILM_W_MAX as int, FILM_RAD_MAX as int);
    crate::fixed::lemma_abs_mul_le(w, rad.b as int, FILM_W_MAX as int, FILM_RAD_MAX as int);
    crate::fixed::lemma_abs_mul_le(w, rad.a as int, FILM_W_MAX as int, FILM_RAD_MAX as int);
    lemma_film_round_trip(w, rad.r as int);
    lemma_film_round_trip(w, rad.g as int);
    lemma_film_round_trip(w, rad.b as int);
    lemma_film_round_trip(w, rad.a as int);
}

/// One finalized channel as a clamped byte.
fn channel_byte(sum: i128, weight: i128) -> (r: u8)
    requires
        -0x4000_0000_0000_0000_0000_0000_0000_0000 <= sum
            <= 0x4000_0000_0000_0000_0000_0000_0000_0000,
    ensures
        r == to_byte_s(finalize_channel_s(sum as int, weight as int)),
{
    let v: i128 = if weight == 0 {
        0
    } else {
        proof {
            crate::fixed::lemma_tdiv_abs_le(sum as int, weight as int);
        }
        match sum.checked_div(weight) {
            Some(q) => q,
            None => {
                assert(false);
                0
            },
        }
    };
    let c: i128 = if v < 0 {
        0
    } else if v > 65536 {
        65536
    } else {
        v
    };
    proof {
        lemma_byte_range(c as int);
    }
    ((c as u128 * 255) / 65536) as u8
}

/// The clamped channel maps into `[0, 255]`.
proof fn lemma_byte_range(c: int)
    requires
        0 <= c <= 65536,
    ensures
        0 <= (c * 255) / 65536 <= 255,
{
    lemma_div_pos_is_pos(c * 255, 65536);
    lemma_div_is_ordered(c * 255, 16711680, 65536);
    lemma_div_multiples_vanish(255, 65536);
}

/// A pixel index below the area has its row below the height.
proof fn lemma_row_below_height(i: int, w: int, h: int)
    requires
        1 <= w,
        1 <= h,
        0 <= i < w * h,
    ensures
        0 <= i / w < h,
{
    lemma_div_pos_is_pos(i, w);
    vstd::arithmetic::div_mod::lemma_fundamental_div_mod(i, w);
    vstd::arithmetic::div_mod::lemma_mod_division_less_than_divisor(i, w);
    assert(i / w < h) by (nonlinear_arith)
        requires
            1 <= w,
            1 <= h,
            0 <= i < w * h,
            i / w >= 0,
            w * (i / w) + i % w == i,
            0 <= i % w < w,
    {}
}

/// The film area fits a `usize`.
proof fn lemma_area_bound(w: int, h: int)
    requires
        1 <= w <= FILM_SIDE_MAX,
        1 <= h <= FILM_SIDE_MAX,
    ensures
        1 <= w * h <= 0x400_0000,
{
    assert(1 <= w * h <= 0x400_0000) by (nonlinear_arith)
        requires
            1 <= w <= 8192,
            1 <= h <= 8192,
    {}
}

/// A filter weight is bounded by `2^36` raw units.
proof fn lemma_weight_bound(f: MitchellFilter, p: Vec2)
    requires
        wf_filter(f),
    ensures
        -FILM_W_MAX <= eval_at_s(f, p) <= FILM_W_MAX,
{
    if !(p.x > f.half_width || p.x < -f.half_width || p.y > f.half_height || p.y
        < -f.half_height) {
        crate::filter::lemma_eval_bound(f, p);
    }
}

/// One deposit grows each accumulator by less than `FILM_STEP`.
proof fn lemma_deposit_growth(p: FilmPixel, w: int, rad: RgbaSpectrum, samples: int)
    requires
        -FILM_W_MAX <= w <= FILM_W_MAX,
        -FILM_RAD_MAX <= rad.r <= FILM_RAD_MAX,
        -FILM_RAD_MAX <= rad.g <= FILM_RAD_MAX,
        -FILM_RAD_MAX <= rad.b <= FILM_RAD_MAX,
        -FILM_RAD_MAX <= rad.a <= FILM_RAD_MAX,
    ensures
        -FILM_STEP <= w * rad.r <= FILM_STEP,
        -FILM_STEP <= w * rad.g <= FILM_STEP,
        -FILM_STEP <= w * rad.b <= FILM_STEP,
        -FILM_STEP <= w * rad.a <= FILM_STEP,
{
    crate::fixed::lemma_abs_mul_le(w, rad.r as int, FILM_W_MAX as int, FILM_RAD_MAX as int);
    crate::fixed::lemma_abs_mul_le(w, rad.g as int, FILM_W_MAX as int, FILM_RAD_MAX as int);
    crate::fixed::lemma_abs_mul_le(w, rad.b as int, FILM_W_MAX as int, FILM_RAD_MAX as int);
    crate::fixed::lemma_abs_mul_le(w, rad.a as int, FILM_W_MAX as int, FILM_RAD_MAX as int);
}

/// A deposit into every pixel keeps the film invariant.
proof fn lemma_wf_after_deposit(
    orig: Film,
    now: Film,
    filter: MitchellFilter,
    film_point: Vec2,
    radiance: RgbaSpectrum,
)
    requires
        wf_film(orig),
        orig.samples < FILM_SAMPLES_MAX,
        wf_filter(filter),
        -FILM_RAD_MAX <= radiance.r <= FILM_RAD_MAX,
        -FILM_RAD_MAX <= radiance.g <= FILM_RAD_MAX,
        -FILM_RAD_MAX <= radiance.b <= FILM_RAD_MAX,
        -FILM_RAD_MAX <= radiance.a <= FILM_RAD_MAX,
        now.width == orig.width,
        now.height == orig.height,
        now.samples == orig.samples + 1,
        now.pixels@.len() == orig.pixels@.len(),
        forall|i: int|
            0 <= i < orig.pixels@.len() ==> #[trigger] now.pixels@[i] == deposit_s(
                orig.pixels@[i],
                eval_at_s(filter, pixel_offset_s(i, orig.width as int, film_point)),
                radiance,
            ),
    ensures
        wf_film(now),
{
    assert forall|i: int| 0 <= i < now.pixels@.len() implies {
        let p = #[trigger] now.pixels@[i];
        &&& -(now.samples * FILM_STEP) <= p.sum_r <= now.samples * FILM_STEP
        &&& -(now.samples * FILM_STEP) <= p.sum_g <= now.samples * FILM_STEP
        &&& -(now.samples * FILM_STEP) <= p.sum_b <= now.samples * FILM_STEP
        &&& -(now.samples * FILM_STEP) <= p.sum_a <= now.samples * FILM_STEP
        &&& -(now.samples * FILM_STEP) <= p.weight_sum <= now.samples * FILM_STEP
    } by {
        let off = pixel_offset_s(i, orig.width as int, film_point);
        let w = eval_at_s(filter, off);
        assert(orig.pixels@[i] == orig.pixels@[i]);
        lemma_weight_bound(filter, off);
        lemma_deposit_growth(orig.pixels@[i], w, radiance, orig.samples as int);
    }
}

/// Merging keeps the film invariant under the combined sample count.
proof fn lemma_wf_after_merge(a: Film, b: Film, now: Film)
    requires
        wf_film(a),
        wf_film(b),
        a.width == b.width,
        a.height == b.height,
        a.samples + b.samples <= FILM_SAMPLES_MAX,
        now.width == a.width,
        now.height == a.height,
        now.samples == a.samples + b.samples,
        now.pixels@.len() == a.pixels@.len(),
        a.pixels@.len() == b.pixels@.len(),
        forall|i: int|
            0 <= i < a.pixels@.len() ==> #[trigger] now.pixels@[i] == merge_pixel_s(
                a.pixels@[i],
                b.pixels@[i],
            ),
    ensures
        wf_film(now),
{
    assert forall|i: int| 0 <= i < now.pixels@.len() implies {
        let p = #[trigger] now.pixels@[i];
        &&& -(now.samples * FILM_STEP) <= p.sum_r <= now.samples * FILM_STEP
        &&& -(now.samples * FILM_STEP) <= p.sum_g <= now.samples * FILM_STEP
        &&& -(now.samples * FILM_STEP) <= p.sum_b <= now.samples * FILM_STEP
        &&& -(now.samples * FILM_STEP) <= p.sum_a <= now.samples * FILM_STEP
        &&& -(now.samples * FILM_STEP) <= p.weight_sum <= now.samples * FILM_STEP
    } by {
        assert(a.pixels@[i] == a.pixels@[i]);
        assert(b.pixels@[i] == b.pixels@[i]);
    }
}

} // verus!
