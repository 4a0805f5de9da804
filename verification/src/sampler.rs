//! Stratified sample generation.
//!
//! A sampler generates up to `samples_per_pixel` sample vectors per pixel;
//! each element of a vector lies in `[0, 1)`. The unit square is split into
//! `x_strata * y_strata` cells and one sample falls in each cell, jittered
//! within it or centered when jitter is off. Each dimension of the sample
//! vector visits the cells in its own per-pixel pseudo-random rotation of
//! the grid, so different dimension pairs sample decorrelated cell
//! sequences while every cell is still covered exactly once. The generator
//! state is a deterministic congruential sequence, so every draw is pinned
//! exactly by the contracts.

use vstd::prelude::*;
use crate::fixed::{HALF, SCALE};
use crate::vector::{Pixel, Vec2};

verus! {

/// Multiplier of the congruential generator step.
pub const RNG_MUL: u64 = 0x5851_F42D_4C95_7F2D;

/// Increment of the congruential generator step.
pub const RNG_INC: u64 = 0x1405_7B7E_F767_814F;

/// Multiplier mixing the pixel's x coordinate into the per-pixel seed.
pub const SEED_MIX_X: u64 = 0x9E37_79B9_7F4A_7C15;

/// Multiplier mixing the pixel's y coordinate into the per-pixel seed.
pub const SEED_MIX_Y: u64 = 0xC2B2_AE3D_27D4_EB4F;

/// Multiplier mixing the dimension index into the per-dimension cell
/// rotation.
pub const DIM_MIX: u64 = 0xBF58_476D_1CE4_E5B9;

/// The generator state after one step.
pub open spec fn next_state_s(s: u64) -> u64 {
    s.wrapping_mul(RNG_MUL).wrapping_add(RNG_INC)
}

/// The sample bits drawn from a generator state: the top 16 bits, a raw
/// fixed-point value in `[0, 1)`.
pub open spec fn bits_s(s: u64) -> i64 {
    (s >> 48) as i64
}

/// The generator state a pixel starts from.
pub open spec fn pixel_seed_s(seed: u64, p: Pixel) -> u64 {
    (p.x as u64).wrapping_mul(SEED_MIX_X).wrapping_add(
        (p.y as u64).wrapping_mul(SEED_MIX_Y),
    ).wrapping_add(seed)
}

/// The stratified value of cell `stratum` out of `n`, jittered by `j`:
/// `(stratum + j / SCALE) / n` as a raw fixed-point value.
pub open spec fn strat_value_s(stratum: int, j: int, n: int) -> int {
    (stratum * SCALE + j) / n
}

/// The cell rotation of dimension `dim` for the current pixel: a value in
/// `[0, n)` drawn from the pixel's stable seed and the dimension index.
/// Rotating every stratum of a dimension by it keeps one sample per cell
/// while decorrelating the cell order from other dimensions.
pub open spec fn dim_offset_s(pixel_state: u64, dim: u64, n: int) -> int {
    (bits_s(next_state_s(pixel_state.wrapping_add(dim.wrapping_mul(DIM_MIX)))) as int) % n
}

/// A stratified sampler: one jittered sample per cell of an
/// `x_strata * y_strata` grid over each pixel.
#[derive(Clone, Copy, Debug, PartialEq, Eq, Structural)]
pub struct StratifiedSampler {
    /// Number of strata along x in the unit square.
    pub x_strata: usize,
    /// Number of strata along y in the unit square.
    pub y_strata: usize,
    /// Number of dimensions a sample vector is expected to have.
    pub dimensions: usize,
    /// The seed this sampler was created with.
    pub seed: u64,
    /// Whether samples are jittered within their cell.
    pub jitter: bool,
    /// The congruential generator state.
    pub state: u64,
    /// The per-pixel seed the cell rotations are drawn from; stable for
    /// the whole pixel.
    pub pixel_state: u64,
    /// The pixel samples are being generated for.
    pub current_pixel: Pixel,
    /// How many sample vectors have been started for this pixel.
    pub sample_idx: usize,
    /// The next dimension of the current sample vector.
    pub dim: usize,
}

/// The configuration bounds every sampler satisfies.
pub open spec fn wf_sampler(s: StratifiedSampler) -> bool {
    &&& 1 <= s.x_strata <= 256
    &&& 1 <= s.y_strata <= 256
}

/// The sample count of a well-formed sampler fits comfortably in a
/// `usize`.
pub proof fn lemma_spp_bound(x: int, y: int)
    requires
        1 <= x <= 256,
        1 <= y <= 256,
    ensures
        1 <= x * y <= 65536,
{
    assert(1 <= x * y <= 65536) by (nonlinear_arith)
        requires
            1 <= x <= 256,
            1 <= y <= 256,
    {}
}

impl StratifiedSampler {
    /// A sampler drawing `x_strata * y_strata` samples per pixel with the
    /// given seed; `dimensions` records how many dimensions each sample
    /// vector is expected to have.
    pub fn new(x_strata: usize, y_strata: usize, dimensions: usize, seed: u64, jitter: bool) -> (r:
        StratifiedSampler)
        requires
            1 <= x_strata <= 256,
            1 <= y_strata <= 256,
        ensures
            r.x_strata == x_strata,
            r.y_strata == y_strata,
            r.dimensions == dimensions,
            r.seed == seed,
            r.jitter == jitter,
            r.state == seed,
            r.pixel_state == seed,
            r.sample_idx == 0,
            r.dim == 0,
            r.current_pixel == (Pixel { x: 0, y: 0 }),
            wf_sampler(r),
    {
        StratifiedSampler {
            x_strata,
            y_strata,
            dimensions,
            seed,
            jitter,
            state: seed,
            pixel_state: seed,
            current_pixel: Pixel { x: 0, y: 0 },
            sample_idx: 0,
            dim: 0,
        }
    }

    /// An independently seeded copy with otherwise identical
    /// configuration, so that multiple workers can render disjoint pixels
    /// without sharing generator state.
    pub fn clone_with_seed(&self, seed: u64) -> (r: StratifiedSampler)
        requires
            wf_sampler(*self),
        ensures
            r.x_strata == self.x_strata,
            r.y_strata == self.y_strata,
            r.dimensions == self.dimensions,
            r.jitter == self.jitter,
            r.seed == seed,
            r.state == seed,
            r.pixel_state == seed,
            r.sample_idx == 0,
            r.dim == 0,
            r.current_pixel == (Pixel { x: 0, y: 0 }),
            wf_sampler(r),
    {
        StratifiedSampler::new(self.x_strata, self.y_strata, self.dimensions, seed, self.jitter)
    }

    /// The number of sample vectors generated for each pixel.
    pub fn samples_per_pixel(&self) -> (r: usize)
        requires
            wf_sampler(*self),
        ensures
            r == self.x_strata * self.y_strata,
    {
        proof {
            lemma_spp_bound(self.x_strata as int, self.y_strata as int);
        }
        self.x_strata * self.y_strata
    }

    /// Start sampling work on the given pixel: the generator is re-seeded
    /// from the sampler's seed and the pixel, and the sample and dimension
    /// cursors reset.
    pub fn start_pixel(&mut self, pixel: Pixel)
        ensures
            *final(self) == (StratifiedSampler {
                state: pixel_seed_s(old(self).seed, pixel),
                pixel_state: pixel_seed_s(old(self).seed, pixel),
                current_pixel: pixel,
                sample_idx: 0,
                dim: 0,
                ..*old(self)
            }),
    {
        self.state = (pixel.x as u64).wrapping_mul(SEED_MIX_X).wrapping_add(
            (pixel.y as u64).wrapping_mul(SEED_MIX_Y),
        ).wrapping_add(self.seed);
        self.pixel_state = self.state;
        self.current_pixel = pixel;
        self.sample_idx = 0;
        self.dim = 0;
    }

    /// Draw the next raw 16 bits from the generator.
    fn next_bits(&mut self) -> (r: i64)
        ensures
            *final(self) == (StratifiedSampler { state: next_state_s(old(self).state), ..*old(self) }),
            r == bits_s(final(self).state),
            0 <= r < SCALE,
    {
        self.state = self.state.wrapping_mul(RNG_MUL).wrapping_add(RNG_INC);
        let s_now = self.state;
        let bits = s_now >> 48;
        proof {
            assert(bits < 65536) by (bit_vector)
                requires
                    bits == s_now >> 48,
            {}
        }
        bits as i64
    }

    /// The cell rotation of the given dimension for the current pixel.
    fn dim_offset(&self, dim: u64, n: usize) -> (r: usize)
        requires
            1 <= n <= 0x1_0000,
        ensures
            r == dim_offset_s(self.pixel_state, dim, n as int),
            r < n,
    {
        let mixed = self.pixel_state.wrapping_add(dim.wrapping_mul(DIM_MIX));
        let stepped = mixed.wrapping_mul(RNG_MUL).wrapping_add(RNG_INC);
        let bits = stepped >> 48;
        proof {
            assert(bits < 65536) by (bit_vector)
                requires
                    bits == stepped >> 48,
            {}
            vstd::arithmetic::div_mod::lemma_mod_division_less_than_divisor(
                bits as int,
                n as int,
            );
        }
        (bits as usize) % n
    }

    /// The stratum of the current sample vector, counted within `n` cells.
    fn stratum(&self, n: usize) -> (r: usize)
        requires
            n >= 1,
        ensures
            r == stratum_s(self.sample_idx as int, n as int),
            r < n,
    {
        proof {
            if self.sample_idx >= 1 {
                vstd::arithmetic::div_mod::lemma_mod_division_less_than_divisor(
                    self.sample_idx - 1,
                    n as int,
                );
            }
        }
        if self.sample_idx >= 1 {
            (self.sample_idx - 1) % n
        } else {
            0
        }
    }

    /// Get a value in `[0, 1)` for the next dimension of the current
    /// sample vector, stratified over all `x_strata * y_strata` cells.
    pub fn get_1d(&mut self) -> (r: i64)
        requires
            wf_sampler(*old(self)),
            old(self).dim < 0x1000_0000,
        ensures
            ({
                let n = old(self).x_strata * old(self).y_strata;
                let stratum = stratum_s(old(self).sample_idx as int, n as int);
                let cell = (stratum + dim_offset_s(
                    old(self).pixel_state,
                    old(self).dim as u64,
                    n as int,
                )) % (n as int);
                let j = if old(self).jitter {
                    bits_s(next_state_s(old(self).state)) as int
                } else {
                    HALF as int
                };
                &&& r == strat_value_s(cell, j, n as int)
                &&& *final(self) == (StratifiedSampler {
                    state: if old(self).jitter {
                        next_state_s(old(self).state)
                    } else {
                        old(self).state
                    },
                    dim: (old(self).dim + 1) as usize,
                    ..*old(self)
                })
            }),
            0 <= r < SCALE,
    {
        proof {
            lemma_spp_bound(self.x_strata as int, self.y_strata as int);
        }
        let n = self.x_strata * self.y_strata;
        let stratum = self.stratum(n);
        let off = self.dim_offset(self.dim as u64, n);
        proof {
            vstd::arithmetic::div_mod::lemma_mod_division_less_than_divisor(
                stratum + off,
                n as int,
            );
        }
        let cell = (stratum + off) % n;
        let j: i64 = if self.jitter {
            self.next_bits()
        } else {
            HALF
        };
        self.dim = self.dim + 1;
        strat_value(cell, j, n)
    }

    /// Get a pair of values in `[0, 1)^2` for the next two dimensions of
    /// the current sample vector: the current cell of the
    /// `x_strata * y_strata` grid, jittered within the cell.
    pub fn get_2d(&mut self) -> (r: Vec2)
        requires
            wf_sampler(*old(self)),
            old(self).dim < 0x1000_0000,
        ensures
            ({
                let n = old(self).x_strata * old(self).y_strata;
                let stratum = stratum_s(old(self).sample_idx as int, n as int);
                let cx = (stratum % (old(self).x_strata as int) + dim_offset_s(
                    old(self).pixel_state,
                    old(self).dim as u64,
                    old(self).x_strata as int,
                )) % (old(self).x_strata as int);
                let cy = (stratum / (old(self).x_strata as int) + dim_offset_s(
                    old(self).pixel_state,
                    (old(self).dim + 1) as u64,
                    old(self).y_strata as int,
                )) % (old(self).y_strata as int);
                let s1 = next_state_s(old(self).state);
                let s2 = next_state_s(s1);
                let jx = if old(self).jitter {
                    bits_s(s1) as int
                } else {
                    HALF as int
                };
                let jy = if old(self).jitter {
                    bits_s(s2) as int
                } else {
                    HALF as int
                };
                &&& r.x == strat_value_s(cx, jx, old(self).x_strata as int)
                &&& r.y == strat_value_s(cy, jy, old(self).y_strata as int)
                &&& *final(self) == (StratifiedSampler {
                    state: if old(self).jitter {
                        s2
                    } else {
                        old(self).state
                    },
                    dim: (old(self).dim + 2) as usize,
                    ..*old(self)
                })
            }),
            0 <= r.x < SCALE,
            0 <= r.y < SCALE,
    {
        proof {
            lemma_spp_bound(self.x_strata as int, self.y_strata as int);
        }
        let n = self.x_strata * self.y_strata;
        let stratum = self.stratum(n);
        proof {
            vstd::arithmetic::div_mod::lemma_mod_division_less_than_divisor(
                stratum as int,
                self.x_strata as int,
            );
            lemma_cell_row_in_range(stratum as int, self.x_strata as int, self.y_strata as int);
        }
        let ox = self.dim_offset(self.dim as u64, self.x_strata);
        let oy = self.dim_offset((self.dim + 1) as u64, self.y_strata);
        proof {
            vstd::arithmetic::div_mod::lemma_mod_division_less_than_divisor(
                stratum % self.x_strata + ox,
                self.x_strata as int,
            );
            vstd::arithmetic::div_mod::lemma_mod_division_less_than_divisor(
                stratum / self.x_strata + oy,
                self.y_strata as int,
            );
        }
        let cx = (stratum % self.x_strata + ox) % self.x_strata;
        let cy = (stratum / self.x_strata + oy) % self.y_strata;
        let (jx, jy): (i64, i64) = if self.jitter {
            let a = self.next_bits();
            let b = self.next_bits();
            (a, b)
        } else {
            (HALF, HALF)
        };
        self.dim = self.dim + 2;
        let vx = strat_value(cx, jx, self.x_strata);
        let vy = strat_value(cy, jy, self.y_strata);
        Vec2 { x: vx, y: vy }
    }

    /// Create a camera sample for the given pixel: a film point inside the
    /// pixel's unit square, a time, and a lens point.
    pub fn get_camera_sample(&mut self, pixel: Pixel) -> (r: CameraSample)
        requires
            wf_sampler(*old(self)),
            old(self).dim < 0x100_0000,
        ensures
            ({
                let n = old(self).x_strata * old(self).y_strata;
                let nx = old(self).x_strata as int;
                let ny = old(self).y_strata as int;
                let ps = old(self).pixel_state;
                let d = old(self).dim;
                let st = stratum_s(old(self).sample_idx as int, n as int);
                let fcx = (st % nx + dim_offset_s(ps, d as u64, nx)) % nx;
                let fcy = (st / nx + dim_offset_s(ps, (d + 1) as u64, ny)) % ny;
                let tc = (st + dim_offset_s(ps, (d + 2) as u64, n as int)) % (n as int);
                let lcx = (st % nx + dim_offset_s(ps, (d + 3) as u64, nx)) % nx;
                let lcy = (st / nx + dim_offset_s(ps, (d + 4) as u64, ny)) % ny;
                let jit = old(self).jitter;
                let s1 = next_state_s(old(self).state);
                let s2 = next_state_s(s1);
                let st_a = if jit { s2 } else { old(self).state };
                let s3 = next_state_s(st_a);
                let st_b = if jit { s3 } else { st_a };
                let s4 = next_state_s(st_b);
                let s5 = next_state_s(s4);
                let st_c = if jit { s5 } else { st_b };
                let jx = if jit { bits_s(s1) as int } else { HALF as int };
                let jy = if jit { bits_s(s2) as int } else { HALF as int };
                let jt = if jit { bits_s(s3) as int } else { HALF as int };
                let lx = if jit { bits_s(s4) as int } else { HALF as int };
                let ly = if jit { bits_s(s5) as int } else { HALF as int };
                &&& r.film_point.x == (pixel.x as int) * (SCALE as int) + strat_value_s(
                    fcx,
                    jx,
                    nx,
                )
                &&& r.film_point.y == (pixel.y as int) * (SCALE as int) + strat_value_s(
                    fcy,
                    jy,
                    ny,
                )
                &&& r.time == strat_value_s(tc, jt, n as int)
                &&& r.lens_point.x == strat_value_s(lcx, lx, nx)
                &&& r.lens_point.y == strat_value_s(lcy, ly, ny)
                &&& *final(self) == (StratifiedSampler {
                    state: st_c,
                    dim: (old(self).dim + 5) as usize,
                    ..*old(self)
                })
            }),
            (pixel.x as int) * (SCALE as int) <= r.film_point.x < (pixel.x as int) * (SCALE as int)
                + SCALE,
            (pixel.y as int) * (SCALE as int) <= r.film_point.y < (pixel.y as int) * (SCALE as int)
                + SCALE,
            0 <= r.time < SCALE,
            0 <= r.lens_point.x < SCALE,
            0 <= r.lens_point.y < SCALE,
    {
        let film_sample = self.get_2d();
        let film_point = Vec2 {
            x: (pixel.x as i64) * SCALE + film_sample.x,
            y: (pixel.y as i64) * SCALE + film_sample.y,
        };
        let time = self.get_1d();
        let lens_point = self.get_2d();
        CameraSample { film_point, time, lens_point }
    }

    /// Tell the sampler to start working on the next sample vector for the
    /// current pixel; the dimension cursor resets. Returns `true` while
    /// the number of started vectors is at most `samples_per_pixel`: the
    /// first `samples_per_pixel` calls after `start_pixel` return `true`
    /// and every later call returns `false`.
    pub fn start_next_sample(&mut self) -> (r: bool)
        requires
            wf_sampler(*old(self)),
            old(self).sample_idx < 0x1000_0000,
        ensures
            *final(self) == (StratifiedSampler {
                sample_idx: (old(self).sample_idx + 1) as usize,
                dim: 0,
                ..*old(self)
            }),
            r == (old(self).sample_idx + 1 <= old(self).x_strata * old(self).y_strata),
    {
        proof {
            lemma_spp_bound(self.x_strata as int, self.y_strata as int);
        }
        self.sample_idx = self.sample_idx + 1;
        self.dim = 0;
        self.sample_idx <= self.x_strata * self.y_strata
    }
}

/// The cell of the current sample vector: vectors are numbered from one
/// once started, and vector `k` samples cell `(k - 1) mod n`.
pub open spec fn stratum_s(sample_idx: int, n: int) -> int {
    if sample_idx >= 1 {
        (sample_idx - 1) % n
    } else {
        0
    }
}

/// The row index of a cell is within the grid.
proof fn lemma_cell_row_in_range(stratum: int, x: int, y: int)
    requires
        1 <= x,
        1 <= y,
        0 <= stratum < x * y,
    ensures
        0 <= stratum / x < y,
{
    vstd::arithmetic::div_mod::lemma_div_pos_is_pos(stratum, x);
    vstd::arithmetic::div_mod::lemma_fundamental_div_mod(stratum, x);
    vstd::arithmetic::div_mod::lemma_mod_division_less_than_divisor(stratum, x);
    assert(stratum / x < y) by (nonlinear_arith)
        requires
            1 <= x,
            1 <= y,
            0 <= stratum < x * y,
            stratum / x >= 0,
            x * (stratum / x) + stratum % x == stratum,
            0 <= stratum % x < x,
    {}
}

/// A declarative sampler configuration, resolved into a concrete sampler
/// by `load_sampler`.
#[derive(Clone, Copy, Debug, PartialEq, Eq, Structural)]
pub enum SamplerConfig {
    StratifiedSampler { x_strata_count: usize, y_strata_count: usize, jitter: bool },
}

/// Resolve a sampler configuration into a stratified sampler with five
/// dimensions per sample vector and a zero base seed.
pub fn load_sampler(sampler_config: &SamplerConfig) -> (r: StratifiedSampler)
    requires
        ({
            let SamplerConfig::StratifiedSampler { x_strata_count, y_strata_count, jitter } =
                *sampler_config;
            1 <= x_strata_count <= 256 && 1 <= y_strata_count <= 256
        }),
    ensures
        ({
            let SamplerConfig::StratifiedSampler { x_strata_count, y_strata_count, jitter } =
                *sampler_config;
            &&& r.x_strata == x_strata_count
            &&& r.y_strata == y_strata_count
            &&& r.dimensions == 5
            &&& r.seed == 0
            &&& r.state == 0
            &&& r.jitter == jitter
            &&& r.sample_idx == 0
            &&& r.dim == 0
            &&& wf_sampler(r)
        }),
{
    match sampler_config {
        SamplerConfig::StratifiedSampler { x_strata_count, y_strata_count, jitter } => {
            StratifiedSampler::new(*x_strata_count, *y_strata_count, 5, 0, *jitter)
        },
    }
}

/// The per-pixel sample vector for a camera: a film-plane point in
/// continuous pixel coordinates, a time, and a lens point.
#[derive(Clone, Copy, Debug, PartialEq, Eq, Structural)]
pub struct CameraSample {
    /// A point on the film plane, in continuous pixel coordinates.
    pub film_point: Vec2,
    /// The time the sample is taken at, in `[0, 1)`.
    pub time: i64,
    /// A point on the lens, for depth of field.
    pub lens_point: Vec2,
}

/// The stratified value `(stratum + j / SCALE) / n` as a raw fixed-point
/// scalar in `[0, 1)`.
fn strat_value(stratum: usize, j: i64, n: usize) -> (r: i64)
    requires
        1 <= n <= 0x1_0000,
        stratum < n,
        0 <= j < SCALE,
    ensures
        r == strat_value_s(stratum as int, j as int, n as int),
        0 <= r < SCALE,
{
    let num: u64 = (stratum as u64) * 65536 + (j as u64);
    let q: u64 = num / (n as u64);
    proof {
        vstd::arithmetic::div_mod::lemma_div_pos_is_pos(num as int, n as int);
        vstd::arithmetic::div_mod::lemma_div_is_ordered(num as int, (n as int) * 65536 - 1, n as int);
        lemma_strat_upper(n as int);
    }
    q as i64
}

/// `(n * SCALE - 1) / n < SCALE`.
proof fn lemma_strat_upper(n: int)
    requires
        1 <= n,
    ensures
        (n * 65536 - 1) / n < 65536,
{
    assert((n * 65536 - 1) / n < 65536) by (nonlinear_arith)
        requires
            1 <= n,
    {}
}

} // verus!
