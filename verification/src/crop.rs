//! Cropping transparent borders from a finished RGBA raster.

use vstd::prelude::*;
use crate::error::Error;

verus! {

/// The byte of channel `k` of pixel `(x, y)` in a row-major RGBA raster
/// of width `w`.
pub open spec fn byte_at(pixels: Seq<u8>, w: int, x: int, y: int, k: int) -> u8 {
    pixels[4 * (y * w + x) + k]
}

/// The alpha byte of pixel `(x, y)` in a row-major RGBA raster of width
/// `w`.
pub open spec fn alpha_at(pixels: Seq<u8>, w: int, x: int, y: int) -> u8 {
    pixels[4 * (y * w + x) + 3]
}

/// Whether every pixel of the raster is fully transparent.
pub open spec fn all_transparent(pixels: Seq<u8>, w: int, h: int) -> bool {
    forall|x: int, y: int|
        0 <= x < w && 0 <= y < h ==> #[trigger] alpha_at(pixels, w, x, y) == 0
}

/// `(x0, y0, x1, y1)` are the inclusive bounds of the non-transparent
/// content of a `w` by `h` raster: every non-transparent pixel lies inside
/// them, and each of the four edges is attained by one.
pub open spec fn is_content_bounds(
    pixels: Seq<u8>,
    w: int,
    h: int,
    x0: int,
    y0: int,
    x1: int,
    y1: int,
) -> bool {
    &&& 0 <= x0 <= x1 < w
    &&& 0 <= y0 <= y1 < h
    &&& (forall|x: int, y: int|
        0 <= x < w && 0 <= y < h && #[trigger] alpha_at(pixels, w, x, y) != 0 ==> x0 <= x <= x1
            && y0 <= y <= y1)
    &&& (exists|x: int, y: int|
        0 <= x < w && 0 <= y < h && #[trigger] alpha_at(pixels, w, x, y) != 0 && x == x0)
    &&& (exists|x: int, y: int|
        0 <= x < w && 0 <= y < h && #[trigger] alpha_at(pixels, w, x, y) != 0 && x == x1)
    &&& (exists|x: int, y: int|
        0 <= x < w && 0 <= y < h && #[trigger] alpha_at(pixels, w, x, y) != 0 && y == y0)
    &&& (exists|x: int, y: int|
        0 <= x < w && 0 <= y < h && #[trigger] alpha_at(pixels, w, x, y) != 0 && y == y1)
}

/// The non-transparent bounds of a raster are unique: any two tuples that
/// satisfy the characterization are equal.
pub proof fn lemma_content_bounds_unique(
    pixels: Seq<u8>,
    w: int,
    h: int,
    ax0: int,
    ay0: int,
    ax1: int,
    ay1: int,
    bx0: int,
    by0: int,
    bx1: int,
    by1: int,
)
    requires
        is_content_bounds(pixels, w, h, ax0, ay0, ax1, ay1),
        is_content_bounds(pixels, w, h, bx0, by0, bx1, by1),
    ensures
        ax0 == bx0 && ay0 == by0 && ax1 == bx1 && ay1 == by1,
{
    let (px0, py0) = choose|x: int, y: int|
        0 <= x < w && 0 <= y < h && #[trigger] alpha_at(pixels, w, x, y) != 0 && x == ax0;
    let (qx0, qy0) = choose|x: int, y: int|
        0 <= x < w && 0 <= y < h && #[trigger] alpha_at(pixels, w, x, y) != 0 && x == bx0;
    assert(bx0 <= px0 && ax0 <= qx0);
    let (px1, py1) = choose|x: int, y: int|
        0 <= x < w && 0 <= y < h && #[trigger] alpha_at(pixels, w, x, y) != 0 && x == ax1;
    let (qx1, qy1) = choose|x: int, y: int|
        0 <= x < w && 0 <= y < h && #[trigger] alpha_at(pixels, w, x, y) != 0 && x == bx1;
    assert(px1 <= bx1 && qx1 <= ax1);
    let (rx0, ry0) = choose|x: int, y: int|
        0 <= x < w && 0 <= y < h && #[trigger] alpha_at(pixels, w, x, y) != 0 && y == ay0;
    let (sx0, sy0) = choose|x: int, y: int|
        0 <= x < w && 0 <= y < h && #[trigger] alpha_at(pixels, w, x, y) != 0 && y == by0;
    assert(by0 <= ry0 && ay0 <= sy0);
    let (rx1, ry1) = choose|x: int, y: int|
        0 <= x < w && 0 <= y < h && #[trigger] alpha_at(pixels, w, x, y) != 0 && y == ay1;
    let (sx1, sy1) = choose|x: int, y: int|
        0 <= x < w && 0 <= y < h && #[trigger] alpha_at(pixels, w, x, y) != 0 && y == by1;
    assert(ry1 <= by1 && sy1 <= ay1);
}

/// Return the minimum and maximum (inclusive) pixel coordinates of a 2D
/// bounding box around any non-transparent content in the image, or
/// `None` when the whole image is transparent.
pub fn non_transparent_bounds(width: usize, height: usize, pixels: &Vec<u8>) -> (r: Option<
    (usize, usize, usize, usize),
>)
    requires
        width <= 8192,
        height <= 8192,
        pixels@.len() == 4 * width * height,
    ensures
        (r is None) <==> all_transparent(pixels@, width as int, height as int),
        r is Some ==> ({
            let (x0, y0, x1, y1) = r->Some_0;
            is_content_bounds(
                pixels@,
                width as int,
                height as int,
                x0 as int,
                y0 as int,
                x1 as int,
                y1 as int,
            )
        }),
{
    let mut found = false;
    let mut x0: usize = 0;
    let mut y0: usize = 0;
    let mut x1: usize = 0;
    let mut y1: usize = 0;
    let mut y: usize = 0;
    while y < height
        invariant
            width <= 8192,
            height <= 8192,
            pixels@.len() == 4 * width * height,
            y <= height,
            !found ==> (forall|xx: int, yy: int|
                0 <= xx < width && 0 <= yy < y ==> #[trigger] alpha_at(
                    pixels@,
                    width as int,
                    xx,
                    yy,
                ) == 0),
            found ==> x0 <= x1 < width && y0 <= y1 < y,
            found ==> (forall|xx: int, yy: int|
                0 <= xx < width && 0 <= yy < y && #[trigger] alpha_at(
                    pixels@,
                    width as int,
                    xx,
                    yy,
                ) != 0 ==> x0 <= xx <= x1 && y0 <= yy <= y1),
            found ==> (exists|xx: int, yy: int|
                0 <= xx < width && 0 <= yy < y && #[trigger] alpha_at(
                    pixels@,
                    width as int,
                    xx,
                    yy,
                ) != 0 && xx == x0),
            found ==> (exists|xx: int, yy: int|
                0 <= xx < width && 0 <= yy < y && #[trigger] alpha_at(
                    pixels@,
                    width as int,
                    xx,
                    yy,
                ) != 0 && xx == x1),
            found ==> (exists|xx: int, yy: int|
                0 <= xx < width && 0 <= yy < y && #[trigger] alpha_at(
                    pixels@,
                    width as int,
                    xx,
                    yy,
                ) != 0 && yy == y0),
            found ==> (exists|xx: int, yy: int|
                0 <= xx < width && 0 <= yy < y && #[trigger] alpha_at(
                    pixels@,
                    width as int,
                    xx,
                    yy,
                ) != 0 && yy == y1),
        decreases height - y,
    {
        let mut x: usize = 0;
        while x < width
            invariant
                width <= 8192,
                height <= 8192,
                pixels@.len() == 4 * width * height,
                y < height,
                x <= width,
                !found ==> (forall|xx: int, yy: int|
                    0 <= xx < width && 0 <= yy < y ==> #[trigger] alpha_at(
                        pixels@,
                        width as int,
                        xx,
                        yy,
                    ) == 0),
                !found ==> (forall|xx: int|
                    0 <= xx < x ==> #[trigger] alpha_at(pixels@, width as int, xx, y as int)
                        == 0),
                found ==> x0 <= x1 < width && y0 <= y1 <= y < height,
                found ==> (forall|xx: int, yy: int|
                    0 <= xx < width && 0 <= yy < y && #[trigger] alpha_at(
                        pixels@,
                        width as int,
                        xx,
                        yy,
                    ) != 0 ==> x0 <= xx <= x1 && y0 <= yy <= y1),
                found ==> (forall|xx: int|
                    0 <= xx < x && #[trigger] alpha_at(pixels@, width as int, xx, y as int) != 0
                        ==> x0 <= xx <= x1 && y1 == y),
                found ==> (exists|xx: int, yy: int|
                    0 <= xx < width && 0 <= yy <= y && yy < height && #[trigger] alpha_at(
                        pixels@,
                        width as int,
                        xx,
                        yy,
                    ) != 0 && xx == x0),
                found ==> (exists|xx: int, yy: int|
                    0 <= xx < width && 0 <= yy <= y && yy < height && #[trigger] alpha_at(
                        pixels@,
                        width as int,
                        xx,
                        yy,
                    ) != 0 && xx == x1),
                found ==> (exists|xx: int, yy: int|
                    0 <= xx < width && 0 <= yy <= y && yy < height && #[trigger] alpha_at(
                        pixels@,
                        width as int,
                        xx,
                        yy,
                    ) != 0 && yy == y0),
                found ==> (exists|xx: int, yy: int|
                    0 <= xx < width && 0 <= yy <= y && yy < height && #[trigger] alpha_at(
                        pixels@,
                        width as int,
                        xx,
                        yy,
                    ) != 0 && yy == y1),
            decreases width - x,
        {
            proof {
                lemma_pixel_index(x as int, y as int, width as int, height as int);
            }
            let a = pixels[4 * (y * width + x) + 3];
            proof {
                assert(alpha_at(pixels@, width as int, x as int, y as int) == a);
            }
            if a != 0 {
                if !found {
                    found = true;
                    x0 = x;
                    y0 = y;
                    x1 = x;
                    y1 = y;
                } else {
                    if x < x0 {
                        x0 = x;
                    }
                    if x > x1 {
                        x1 = x;
                    }
                    y1 = y;
                }
            }
            x = x + 1;
        }
        y = y + 1;
    }
    if found {
        Some((x0, y0, x1, y1))
    } else {
        None
    }
}

/// The flat byte index of a pixel is inside the raster.
proof fn lemma_pixel_index(x: int, y: int, w: int, h: int)
    requires
        0 <= x < w,
        0 <= y < h,
        w <= 8192,
        h <= 8192,
    ensures
        0 <= 4 * (y * w + x) + 3 < 4 * w * h,
        4 * (y * w + x) + 3 < 0x1000_0000,
{
    assert(0 <= 4 * (y * w + x) + 3 < 4 * w * h && 4 * w * h <= 0x1000_0000)
        by (nonlinear_arith)
        requires
            0 <= x < w,
            0 <= y < h,
            w <= 8192,
            h <= 8192,
    {}
}

/// Crop transparent edges from the image: the result spans exactly the
/// inclusive bounding box of the non-transparent content, pixel for pixel.
/// An image with no such content cannot be cropped and is reported as
/// having zero area.
pub fn crop_to_non_transparent(width: usize, height: usize, pixels: &Vec<u8>) -> (r: Result<
    (usize, usize, Vec<u8>),
    Error,
>)
    requires
        width <= 8192,
        height <= 8192,
        pixels@.len() == 4 * width * height,
    ensures
        (r is Err) <==> all_transparent(pixels@, width as int, height as int),
        r is Err ==> r->Err_0 == Error::ZeroAreaImage,
        r is Ok ==> ({
            let (cw, ch, out) = r->Ok_0;
            &&& 1 <= cw <= width
            &&& 1 <= ch <= height
            &&& out@.len() == 4 * cw * ch
            &&& (forall|x0: int, y0: int, x1: int, y1: int|
                #[trigger] is_content_bounds(
                    pixels@,
                    width as int,
                    height as int,
                    x0,
                    y0,
                    x1,
                    y1,
                ) ==> {
                    &&& cw == x1 - x0 + 1
                    &&& ch == y1 - y0 + 1
                    &&& (forall|xx: int, yy: int, k: int|
                        0 <= xx < cw && 0 <= yy < ch && 0 <= k < 4 ==> #[trigger] byte_at(
                            out@,
                            cw as int,
                            xx,
                            yy,
                            k,
                        ) == byte_at(pixels@, width as int, x0 + xx, y0 + yy, k))
                })
        }),
{
    let bounds = non_transparent_bounds(width, height, pixels);
    match bounds {
        None => Err(Error::ZeroAreaImage),
        Some((x0, y0, x1, y1)) => {
            let cw = x1 - x0 + 1;
            let ch = y1 - y0 + 1;
            let mut out: Vec<u8> = Vec::new();
            let mut yy: usize = 0;
            while yy < ch
                invariant
                    width <= 8192,
                    height <= 8192,
                    pixels@.len() == 4 * width * height,
                    x0 + cw <= width,
                    y0 + ch <= height,
                    1 <= cw,
                    1 <= ch,
                    yy <= ch,
                    out@.len() == 4 * ((yy as int) * (cw as int)),
                    forall|px: int, py: int, k: int|
                        0 <= px < cw && 0 <= py < yy && 0 <= k < 4 ==> #[trigger] byte_at(
                            out@,
                            cw as int,
                            px,
                            py,
                            k,
                        ) == byte_at(pixels@, width as int, x0 + px, y0 + py, k),
                decreases ch - yy,
            {
                let mut xx: usize = 0;
                while xx < cw
                    invariant
                        width <= 8192,
                        height <= 8192,
                        pixels@.len() == 4 * width * height,
                        x0 + cw <= width,
                        y0 + ch <= height,
                        1 <= cw,
                        1 <= ch,
                        yy < ch,
                        xx <= cw,
                        out@.len() == 4 * ((yy as int) * (cw as int)) + 4 * xx,
                        forall|px: int, py: int, k: int|
                            0 <= px < cw && 0 <= py < yy && 0 <= k < 4 ==> #[trigger] byte_at(
                                out@,
                                cw as int,
                                px,
                                py,
                                k,
                            ) == byte_at(pixels@, width as int, x0 + px, y0 + py, k),
                        forall|px: int, k: int|
                            0 <= px < xx && 0 <= k < 4 ==> #[trigger] byte_at(
                                out@,
                                cw as int,
                                px,
                                yy as int,
                                k,
                            ) == byte_at(pixels@, width as int, x0 + px, y0 + yy, k),
                    decreases cw - xx,
                {
                    proof {
                        lemma_pixel_index(
                            (x0 + xx) as int,
                            (y0 + yy) as int,
                            width as int,
                            height as int,
                        );
                        lemma_row_start_in_range(yy as int, xx as int, cw as int, ch as int);
                    }
                    let base = 4 * ((y0 + yy) * width + (x0 + xx));
                    let ghost out0 = out@;
                    let ghost len0 = out@.len() as int;
                    out.push(pixels[base]);
                    out.push(pixels[base + 1]);
                    out.push(pixels[base + 2]);
                    out.push(pixels[base + 3]);
                    proof {
                        assert(base + 0 == 4 * (((y0 + yy) as int) * (width as int) + (x0
                            + xx)));
                        lemma_after_pixel_push(
                            out0,
                            out@,
                            pixels@,
                            cw as int,
                            width as int,
                            x0 as int,
                            y0 as int,
                            xx as int,
                            yy as int,
                        );
                    }
                    xx = xx + 1;
                }
                yy = yy + 1;
                proof {
                    assert(4 * ((yy as int) * (cw as int)) == 4 * ((yy - 1) * (cw as int)) + 4 * (
                    cw as int)) by (nonlinear_arith) {}
                }
            }
            proof {
                assert(out@.len() == 4 * (cw as int) * (ch as int)) by (nonlinear_arith)
                    requires
                        out@.len() == 4 * ((ch as int) * (cw as int)),
                {}
                let gx0 = x0 as int;
                let gy0 = y0 as int;
                let gx1 = x1 as int;
                let gy1 = y1 as int;
                assert forall|bx0: int, by0: int, bx1: int, by1: int|
                    #[trigger] is_content_bounds(
                        pixels@,
                        width as int,
                        height as int,
                        bx0,
                        by0,
                        bx1,
                        by1,
                    ) implies {
                    &&& cw == bx1 - bx0 + 1
                    &&& ch == by1 - by0 + 1
                    &&& (forall|px: int, py: int, k: int|
                        0 <= px < cw && 0 <= py < ch && 0 <= k < 4 ==> #[trigger] byte_at(
                            out@,
                            cw as int,
                            px,
                            py,
                            k,
                        ) == byte_at(pixels@, width as int, bx0 + px, by0 + py, k))
                } by {
                    lemma_content_bounds_unique(
                        pixels@,
                        width as int,
                        height as int,
                        gx0,
                        gy0,
                        gx1,
                        gy1,
                        bx0,
                        by0,
                        bx1,
                        by1,
                    );
                }
            }
            Ok((cw, ch, out))
        },
    }
}

/// The byte index of a pixel of the crop window stays inside the output
/// raster built so far.
proof fn lemma_row_start_in_range(yy: int, xx: int, cw: int, ch: int)
    requires
        0 <= yy < ch,
        0 <= xx < cw,
        1 <= cw,
    ensures
        4 * (yy * cw + xx) == 4 * (yy * cw) + 4 * xx,
        0 <= 4 * (yy * cw),
{
    assert(0 <= yy * cw) by (nonlinear_arith)
        requires
            0 <= yy,
            0 <= cw,
    {}
}

/// After appending the four channel bytes of source pixel
/// `(x0 + xx, y0 + yy)`, the output holds the copied bytes of every
/// window pixel of the finished rows, of the current row up to `xx`, and
/// of `(xx, yy)` itself.
proof fn lemma_after_pixel_push(
    out0: Seq<u8>,
    out: Seq<u8>,
    pixels: Seq<u8>,
    cw: int,
    width: int,
    x0: int,
    y0: int,
    xx: int,
    yy: int,
)
    requires
        out0.len() == 4 * (yy * cw) + 4 * xx,
        out == out0.push(byte_at(pixels, width, x0 + xx, y0 + yy, 0)).push(
            byte_at(pixels, width, x0 + xx, y0 + yy, 1),
        ).push(byte_at(pixels, width, x0 + xx, y0 + yy, 2)).push(
            byte_at(pixels, width, x0 + xx, y0 + yy, 3),
        ),
        0 <= xx < cw,
        0 <= yy,
        forall|px: int, py: int, k: int|
            0 <= px < cw && 0 <= py < yy && 0 <= k < 4 ==> #[trigger] byte_at(out0, cw, px, py, k)
                == byte_at(pixels, width, x0 + px, y0 + py, k),
        forall|px: int, k: int|
            0 <= px < xx && 0 <= k < 4 ==> #[trigger] byte_at(out0, cw, px, yy, k) == byte_at(
                pixels,
                width,
                x0 + px,
                y0 + yy,
                k,
            ),
    ensures
        forall|px: int, py: int, k: int|
            0 <= px < cw && 0 <= py < yy && 0 <= k < 4 ==> #[trigger] byte_at(out, cw, px, py, k)
                == byte_at(pixels, width, x0 + px, y0 + py, k),
        forall|px: int, k: int|
            0 <= px <= xx && 0 <= k < 4 ==> #[trigger] byte_at(out, cw, px, yy, k) == byte_at(
                pixels,
                width,
                x0 + px,
                y0 + yy,
                k,
            ),
{
    let len0 = out0.len() as int;
    assert forall|px: int, py: int, k: int|
        0 <= px < cw && 0 <= py < yy && 0 <= k < 4 implies #[trigger] byte_at(out, cw, px, py, k)
        == byte_at(pixels, width, x0 + px, y0 + py, k) by {
        assert(4 * (py * cw + px) + k < 4 * (yy * cw)) by (nonlinear_arith)
            requires
                0 <= px < cw,
                0 <= py < yy,
                0 <= k < 4,
        {}
        assert(out[4 * (py * cw + px) + k] == out0[4 * (py * cw + px) + k]);
        assert(byte_at(out0, cw, px, py, k) == byte_at(pixels, width, x0 + px, y0 + py, k));
    }
    assert forall|px: int, k: int| 0 <= px <= xx && 0 <= k < 4 implies #[trigger] byte_at(
        out,
        cw,
        px,
        yy,
        k,
    ) == byte_at(pixels, width, x0 + px, y0 + yy, k) by {
        assert(4 * (yy * cw + px) == 4 * (yy * cw) + 4 * px);
        if px == xx {
            assert(out[len0 + k] == byte_at(pixels, width, x0 + xx, y0 + yy, k));
        } else {
            assert(4 * (yy * cw + px) + k < len0);
            assert(out[4 * (yy * cw + px) + k] == out0[4 * (yy * cw + px) + k]);
            assert(byte_at(out0, cw, px, yy, k) == byte_at(pixels, width, x0 + px, y0 + yy, k));
        }
    }
}

} // verus!
