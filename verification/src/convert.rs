//! BGRA8 → planar YUV 4:2:0 pixel-format conversion.
//!
//! The converter takes an interleaved BGRA buffer of `width * height * 4`
//! bytes and produces a planar image of `width * height * 3 / 2` bytes: a
//! full-resolution luma plane followed by two quarter-resolution chroma
//! planes. BT.601-style coefficients are applied in fixed-point milli-units
//! (the coefficient 0.257 becomes 257, and the scaled sum is divided by
//! 1000), and every channel value is clamped to `[0, 255]`. Chroma is taken
//! from the top-left pixel of each 2×2 luma block, without averaging.
//!
//! Both dimensions must be even; the caller is responsible for never handing
//! in an odd-sized frame.

use vstd::prelude::*;

verus! {

use vstd::arithmetic::div_mod::{
    lemma_fundamental_div_mod, lemma_fundamental_div_mod_converse,
    lemma_mod_division_less_than_divisor, lemma_multiply_divide_lt,
};

/// Clamp a channel value to the representable byte range.
pub open spec fn clamp_byte(x: int) -> int {
    if x < 0 {
        0
    } else if x > 255 {
        255
    } else {
        x
    }
}

/// Luma of one pixel: 16 + 0.257 r + 0.504 g + 0.098 b, in milli-units.
pub open spec fn luma_value(r: int, g: int, b: int) -> int {
    clamp_byte((16000 + 257 * r + 504 * g + 98 * b) / 1000)
}

/// Blue-difference chroma of one pixel: 128 − 0.148 r − 0.291 g + 0.439 b.
pub open spec fn chroma_u_value(r: int, g: int, b: int) -> int {
    clamp_byte((128000 - 148 * r - 291 * g + 439 * b) / 1000)
}

/// Red-difference chroma of one pixel: 128 + 0.439 r − 0.368 g − 0.071 b.
pub open spec fn chroma_v_value(r: int, g: int, b: int) -> int {
    clamp_byte((128000 + 439 * r - 368 * g - 71 * b) / 1000)
}

/// Blue channel of the pixel at (`row`, `col`) in an interleaved BGRA buffer
/// of width `w`.
pub open spec fn px_b(bgra: Seq<u8>, w: int, row: int, col: int) -> int {
    bgra[(row * w + col) * 4] as int
}

/// Green channel of the pixel at (`row`, `col`).
pub open spec fn px_g(bgra: Seq<u8>, w: int, row: int, col: int) -> int {
    bgra[(row * w + col) * 4 + 1] as int
}

/// Red channel of the pixel at (`row`, `col`).
pub open spec fn px_r(bgra: Seq<u8>, w: int, row: int, col: int) -> int {
    bgra[(row * w + col) * 4 + 2] as int
}

/// Luma the converter assigns to the pixel at (`row`, `col`).
pub open spec fn luma_at(bgra: Seq<u8>, w: int, row: int, col: int) -> int {
    luma_value(px_r(bgra, w, row, col), px_g(bgra, w, row, col), px_b(bgra, w, row, col))
}

/// Blue-difference chroma of the 2×2 block whose top-left pixel is at
/// (`2 * row`, `2 * col`).
pub open spec fn block_u(bgra: Seq<u8>, w: int, row: int, col: int) -> int {
    chroma_u_value(
        px_r(bgra, w, 2 * row, 2 * col),
        px_g(bgra, w, 2 * row, 2 * col),
        px_b(bgra, w, 2 * row, 2 * col),
    )
}

/// Red-difference chroma of the 2×2 block whose top-left pixel is at
/// (`2 * row`, `2 * col`).
pub open spec fn block_v(bgra: Seq<u8>, w: int, row: int, col: int) -> int {
    chroma_v_value(
        px_r(bgra, w, 2 * row, 2 * col),
        px_g(bgra, w, 2 * row, 2 * col),
        px_b(bgra, w, 2 * row, 2 * col),
    )
}

/// Position of the luma byte for pixel (`row`, `col`) in the planar output.
pub open spec fn luma_idx(w: int, row: int, col: int) -> int {
    row * w + col
}

/// Position of the blue-difference byte for block (`row`, `col`).
pub open spec fn chroma_u_idx(w: int, h: int, row: int, col: int) -> int {
    w * h + row * (w / 2) + col
}

/// Position of the red-difference byte for block (`row`, `col`).
pub open spec fn chroma_v_idx(w: int, h: int, row: int, col: int) -> int {
    w * h + (w * h) / 4 + row * (w / 2) + col
}

/// Length of a planar 4:2:0 image for a `w` × `h` frame.
pub open spec fn planar_len(w: int, h: int) -> int {
    w * h + (w * h) / 2
}

/// The planar 4:2:0 image of a BGRA frame, as one byte sequence: the luma
/// plane, then the blue-difference plane, then the red-difference plane.
pub open spec fn planar_seq(bgra: Seq<u8>, w: int, h: int) -> Seq<u8> {
    Seq::new((w * h) as nat, |j: int| luma_at(bgra, w, j / w, j % w) as u8) + Seq::new(
        ((w / 2) * (h / 2)) as nat,
        |j: int| block_u(bgra, w, j / (w / 2), j % (w / 2)) as u8,
    ) + Seq::new(
        ((w / 2) * (h / 2)) as nat,
        |j: int| block_v(bgra, w, j / (w / 2), j % (w / 2)) as u8,
    )
}

fn luma_byte(r: u8, g: u8, b: u8) -> (y: u8)
    ensures
        y as int == luma_value(r as int, g as int, b as int),
{
    let num: u32 = 16000 + 257 * (r as u32) + 504 * (g as u32) + 98 * (b as u32);
    let q: u32 = num / 1000;
    if q > 255 {
        255
    } else {
        q as u8
    }
}

fn chroma_u_byte(r: u8, g: u8, b: u8) -> (u: u8)
    ensures
        u as int == chroma_u_value(r as int, g as int, b as int),
{
    let num: u32 = 128000 + 439 * (b as u32) - (148 * (r as u32) + 291 * (g as u32));
    let q: u32 = num / 1000;
    if q > 255 {
        255
    } else {
        q as u8
    }
}

fn chroma_v_byte(r: u8, g: u8, b: u8) -> (v: u8)
    ensures
        v as int == chroma_v_value(r as int, g as int, b as int),
{
    let num: u32 = 128000 + 439 * (r as u32) - (368 * (g as u32) + 71 * (b as u32));
    let q: u32 = num / 1000;
    if q > 255 {
        255
    } else {
        q as u8
    }
}

/// Convert an interleaved BGRA frame to a planar 4:2:0 image.
///
/// The output holds the luma plane (`w * h` bytes, row-major), then the
/// blue-difference plane, then the red-difference plane (each
/// `(w / 2) * (h / 2)` bytes, row-major over 2×2 blocks).
pub fn bgra_to_yuv420(bgra: &[u8], w: usize, h: usize) -> (out: Vec<u8>)
    requires
        w % 2 == 0,
        h % 2 == 0,
        bgra@.len() == 4 * ((w as int) * (h as int)),
    ensures
        out@.len() == planar_len(w as int, h as int),
        out@ == planar_seq(bgra@, w as int, h as int),
        forall|row: int, col: int|
            0 <= row < h && 0 <= col < w ==> out@[#[trigger] luma_idx(w as int, row, col)] as int
                == luma_at(bgra@, w as int, row, col),
        forall|row: int, col: int|
            0 <= row < h / 2 && 0 <= col < w / 2 ==> out@[#[trigger] chroma_u_idx(
                w as int,
                h as int,
                row,
                col,
            )] as int == block_u(bgra@, w as int, row, col),
        forall|row: int, col: int|
            0 <= row < h / 2 && 0 <= col < w / 2 ==> out@[#[trigger] chroma_v_idx(
                w as int,
                h as int,
                row,
                col,
            )] as int == block_v(bgra@, w as int, row, col),
{
    let _len: usize = bgra.len();
    proof {
        assert(0 <= (w as int) * (h as int)) by (nonlinear_arith);
        assert((w as int) * (h as int) <= 4 * ((w as int) * (h as int)));
    }
    let pixels: usize = w * h;
    let mut out: Vec<u8> = Vec::new();

    // Luma plane: one byte per pixel, row-major.
    let mut k: usize = 0;
    while k < pixels
        invariant
            pixels == (w as int) * (h as int),
            bgra@.len() == 4 * ((w as int) * (h as int)),
            bgra@.len() <= usize::MAX,
            k <= pixels,
            out@.len() == k,
            forall|j: int|
                0 <= j < k ==> #[trigger] out@[j] as int == luma_at(
                    bgra@,
                    w as int,
                    j / (w as int),
                    j % (w as int),
                ),
        decreases pixels - k,
    {
        proof {
            assert(w >= 1) by {
                if w == 0 {
                    assert((w as int) * (h as int) == 0) by (nonlinear_arith)
                        requires
                            w == 0,
                    ;
                }
            }
            lemma_fundamental_div_mod(k as int, w as int);
            lemma_mod_division_less_than_divisor(k as int, w as int);
            lemma_multiply_divide_lt(k as int, w as int, h as int);
        }
        let b = bgra[4 * k];
        let g = bgra[4 * k + 1];
        let r = bgra[4 * k + 2];
        proof {
            assert(((k as int / (w as int)) * (w as int) + k as int % (w as int)) * 4 == 4 * k)
                by (nonlinear_arith)
                requires
                    k as int == (w as int) * (k as int / (w as int)) + k as int % (w as int),
            ;
        }
        let y = luma_byte(r, g, b);
        out.push(y);
        k = k + 1;
    }

    let hw = w / 2;
    let hh = h / 2;
    proof {
        lemma_fundamental_div_mod(w as int, 2);
        lemma_fundamental_div_mod(h as int, 2);
        assert(w as int == 2 * (hw as int));
        assert(h as int == 2 * (hh as int));
        assert(4 * ((hw as int) * (hh as int)) == (w as int) * (h as int)) by (nonlinear_arith)
            requires
                w as int == 2 * (hw as int),
                h as int == 2 * (hh as int),
        ;
        assert((hw as int) * (hh as int) <= 4 * ((hw as int) * (hh as int)));
    }
    let cpix: usize = hw * hh;

    // Blue-difference plane: one byte per 2×2 block.
    let mut k: usize = 0;
    while k < cpix
        invariant
            pixels == (w as int) * (h as int),
            bgra@.len() == 4 * ((w as int) * (h as int)),
            bgra@.len() <= usize::MAX,
            w % 2 == 0,
            h % 2 == 0,
            hw == w as int / 2,
            hh == h as int / 2,
            cpix == (hw as int) * (hh as int),
            4 * ((hw as int) * (hh as int)) == (w as int) * (h as int),
            k <= cpix,
            out@.len() == pixels + k,
            forall|j: int|
                0 <= j < pixels ==> #[trigger] out@[j] as int == luma_at(
                    bgra@,
                    w as int,
                    j / (w as int),
                    j % (w as int),
                ),
            forall|j: int|
                pixels <= j < pixels + k ==> #[trigger] out@[j] as int == block_u(
                    bgra@,
                    w as int,
                    (j - pixels) / (hw as int),
                    (j - pixels) % (hw as int),
                ),
        decreases cpix - k,
    {
        proof {
            assert(hw >= 1 && hh >= 1) by {
                if hw == 0 || hh == 0 {
                    assert((hw as int) * (hh as int) == 0) by (nonlinear_arith)
                        requires
                            hw == 0 || hh == 0,
                    ;
                }
            }
            lemma_fundamental_div_mod(w as int, 2);
            assert(w as int == 2 * (hw as int));
            lemma_mod_division_less_than_divisor(k as int, hw as int);
            lemma_multiply_divide_lt(k as int, hw as int, hh as int);
            assert((2 * (k as int / (hw as int))) * (w as int) + 2 * (k as int % (hw as int)) + 2
                < 4 * ((hw as int) * (hh as int))) by (nonlinear_arith)
                requires
                    0 <= k as int / (hw as int) < hh as int,
                    0 <= k as int % (hw as int) < hw as int,
                    w as int == 2 * (hw as int),
                    hw >= 1,
                    hh >= 1,
            ;
        }
        let row = 2 * (k / hw);
        let col = 2 * (k % hw);
        let i = (row * w + col) * 4;
        proof {
            assert(row * (w as int) == (2 * (k as int / (hw as int))) * (w as int));
        }
        let b = bgra[i];
        let g = bgra[i + 1];
        let r = bgra[i + 2];
        let u = chroma_u_byte(r, g, b);
        out.push(u);
        k = k + 1;
    }

    // Red-difference plane: one byte per 2×2 block.
    let mut k: usize = 0;
    while k < cpix
        invariant
            pixels == (w as int) * (h as int),
            bgra@.len() == 4 * ((w as int) * (h as int)),
            bgra@.len() <= usize::MAX,
            w % 2 == 0,
            h % 2 == 0,
            hw == w as int / 2,
            hh == h as int / 2,
            cpix == (hw as int) * (hh as int),
            4 * ((hw as int) * (hh as int)) == (w as int) * (h as int),
            k <= cpix,
            out@.len() == pixels + cpix + k,
            forall|j: int|
                0 <= j < pixels ==> #[trigger] out@[j] as int == luma_at(
                    bgra@,
                    w as int,
                    j / (w as int),
                    j % (w as int),
                ),
            forall|j: int|
                pixels <= j < pixels + cpix ==> #[trigger] out@[j] as int == block_u(
                    bgra@,
                    w as int,
                    (j - pixels) / (hw as int),
                    (j - pixels) % (hw as int),
                ),
            forall|j: int|
                pixels + cpix <= j < pixels + cpix + k ==> #[trigger] out@[j] as int == block_v(
                    bgra@,
                    w as int,
                    (j - pixels - cpix) / (hw as int),
                    (j - pixels - cpix) % (hw as int),
                ),
        decreases cpix - k,
    {
        proof {
            assert(hw >= 1 && hh >= 1) by {
                if hw == 0 || hh == 0 {
                    assert((hw as int) * (hh as int) == 0) by (nonlinear_arith)
                        requires
                            hw == 0 || hh == 0,
                    ;
                }
            }
            lemma_fundamental_div_mod(w as int, 2);
            assert(w as int == 2 * (hw as int));
            lemma_mod_division_less_than_divisor(k as int, hw as int);
            lemma_multiply_divide_lt(k as int, hw as int, hh as int);
            assert((2 * (k as int / (hw as int))) * (w as int) + 2 * (k as int % (hw as int)) + 2
                < 4 * ((hw as int) * (hh as int))) by (nonlinear_arith)
                requires
                    0 <= k as int / (hw as int) < hh as int,
                    0 <= k as int % (hw as int) < hw as int,
                    w as int == 2 * (hw as int),
                    hw >= 1,
                    hh >= 1,
            ;
        }
        let row = 2 * (k / hw);
        let col = 2 * (k % hw);
        let i = (row * w + col) * 4;
        proof {
            assert(row * (w as int) == (2 * (k as int / (hw as int))) * (w as int));
        }
        let b = bgra[i];
        let g = bgra[i + 1];
        let r = bgra[i + 2];
        let v = chroma_v_byte(r, g, b);
        out.push(v);
        k = k + 1;
    }

    proof {
        assert(2 * ((hw as int) * (hh as int)) == ((w as int) * (h as int)) / 2)
            by (nonlinear_arith)
            requires
                4 * ((hw as int) * (hh as int)) == (w as int) * (h as int),
        ;
        assert((hw as int) * (hh as int) == ((w as int) * (h as int)) / 4) by (nonlinear_arith)
            requires
                4 * ((hw as int) * (hh as int)) == (w as int) * (h as int),
        ;
        assert forall|row: int, col: int| 0 <= row < h && 0 <= col < w implies out@[
        #[trigger] luma_idx(w as int, row, col)] as int == luma_at(bgra@, w as int, row, col) by {
            assert(0 <= row * (w as int) + col < (w as int) * (h as int)) by (nonlinear_arith)
                requires
                    0 <= row < h as int,
                    0 <= col < w as int,
            ;
            lemma_fundamental_div_mod_converse(row * (w as int) + col, w as int, row, col);
        }
        assert forall|row: int, col: int| 0 <= row < h / 2 && 0 <= col < w / 2 implies out@[
        #[trigger] chroma_u_idx(w as int, h as int, row, col)] as int == block_u(
            bgra@,
            w as int,
            row,
            col,
        ) by {
            assert(0 <= row * (hw as int) + col < (hw as int) * (hh as int)) by (nonlinear_arith)
                requires
                    0 <= row < hh as int,
                    0 <= col < hw as int,
            ;
            lemma_fundamental_div_mod_converse(row * (hw as int) + col, hw as int, row, col);
        }
        assert forall|row: int, col: int| 0 <= row < h / 2 && 0 <= col < w / 2 implies out@[
        #[trigger] chroma_v_idx(w as int, h as int, row, col)] as int == block_v(
            bgra@,
            w as int,
            row,
            col,
        ) by {
            assert(0 <= row * (hw as int) + col < (hw as int) * (hh as int)) by (nonlinear_arith)
                requires
                    0 <= row < hh as int,
                    0 <= col < hw as int,
            ;
            lemma_fundamental_div_mod_converse(row * (hw as int) + col, hw as int, row, col);
        }
        assert(out@ =~= planar_seq(bgra@, w as int, h as int)) by {
            assert forall|i: int| 0 <= i < out@.len() implies out@[i] == planar_seq(
                bgra@,
                w as int,
                h as int,
            )[i] by {
                if i < pixels {
                } else if i < pixels + cpix {
                } else {
                }
            }
        }
    }
    out
}

/// A planar 4:2:0 image derived from one captured frame: a luma plane at full
/// resolution and two chroma planes at half width and half height.
pub struct PlanarImage {
    pub data: Vec<u8>,
    pub width: usize,
    pub height: usize,
}

impl PlanarImage {
    /// Structural soundness: even dimensions and a correctly sized buffer.
    pub open spec fn wf(self) -> bool {
        &&& self.width % 2 == 0
        &&& self.height % 2 == 0
        &&& self.data@.len() == planar_len(self.width as int, self.height as int)
    }

    /// Size of the luma plane in bytes.
    pub open spec fn luma_plane_size(self) -> int {
        self.width * self.height
    }

    /// Size of each chroma plane in bytes.
    pub open spec fn chroma_plane_size(self) -> int {
        (self.width / 2) * (self.height / 2)
    }

    /// Convert one BGRA frame into a planar image.
    pub fn from_bgra(bgra: &[u8], width: usize, height: usize) -> (img: PlanarImage)
        requires
            width % 2 == 0,
            height % 2 == 0,
            bgra@.len() == 4 * ((width as int) * (height as int)),
        ensures
            img.wf(),
            img.width == width,
            img.height == height,
            img.data@.len() == planar_len(width as int, height as int),
            img.data@ == planar_seq(bgra@, width as int, height as int),
            forall|row: int, col: int|
                0 <= row < height && 0 <= col < width ==> img.data@[#[trigger] luma_idx(
                    width as int,
                    row,
                    col,
                )] as int == luma_at(bgra@, width as int, row, col),
            forall|row: int, col: int|
                0 <= row < height / 2 && 0 <= col < width / 2 ==> img.data@[#[trigger] chroma_u_idx(
                    width as int,
                    height as int,
                    row,
                    col,
                )] as int == block_u(bgra@, width as int, row, col),
            forall|row: int, col: int|
                0 <= row < height / 2 && 0 <= col < width / 2 ==> img.data@[#[trigger] chroma_v_idx(
                    width as int,
                    height as int,
                    row,
                    col,
                )] as int == block_v(bgra@, width as int, row, col),
    {
        let data = bgra_to_yuv420(bgra, width, height);
        PlanarImage { data, width, height }
    }
}

/// For every valid BGRA frame of even dimensions, the converted image holds
/// exactly `width * height * 3 / 2` bytes, and every one of them is a byte
/// value in `[0, 255]`.
pub proof fn lemma_planar_output_range(img: PlanarImage)
    requires
        img.wf(),
    ensures
        2 * img.data@.len() == 3 * ((img.width as int) * (img.height as int)),
        forall|i: int| 0 <= i < img.data@.len() ==> 0 <= #[trigger] img.data@[i] <= 255,
{
    lemma_planar_shape(img);
    assert(2 * img.data@.len() == 3 * ((img.width as int) * (img.height as int)));
}

/// Every converted image is exactly half again as long as its frame's pixel
/// count, and each chroma plane is a quarter of the luma plane.
pub proof fn lemma_planar_shape(img: PlanarImage)
    requires
        img.wf(),
    ensures
        2 * img.data@.len() == 3 * img.luma_plane_size(),
        4 * img.chroma_plane_size() == img.luma_plane_size(),
{
    let w = img.width as int;
    let h = img.height as int;
    lemma_fundamental_div_mod(w, 2);
    lemma_fundamental_div_mod(h, 2);
    assert(w == 2 * (w / 2));
    assert(h == 2 * (h / 2));
    assert(((w / 2) * (h / 2)) * 4 == w * h && 2 * ((w * h) / 2) == w * h) by (nonlinear_arith)
        requires
            w == 2 * (w / 2),
            h == 2 * (h / 2),
            w >= 0,
            h >= 0,
    ;
}

} // verus!
