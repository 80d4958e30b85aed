//! The bitmap rasterizer: a module grid becomes an RGB pixel buffer.

use vstd::prelude::*;
use vstd::arithmetic::div_mod::{lemma_fundamental_div_mod, lemma_mod_bound};
use vstd::arithmetic::mul::lemma_mul_inequality;
use crate::grid::{dark_at, ModuleGrid};

verus! {

/// Whether the pixel at `(px, py)` falls inside a dark module once the grid
/// is scaled by `module_size` and shifted by `margin` modules: the pixel's
/// module coordinates must lie inside the grid and name a dark module.
pub open spec fn dark_pixel(
    rows: Seq<Seq<bool>>,
    margin: int,
    module_size: int,
    px: int,
    py: int,
) -> bool {
    &&& module_size > 0
    &&& margin <= px / module_size < margin + rows.len()
    &&& margin <= py / module_size < margin + rows.len()
    &&& dark_at(rows, px / module_size - margin, py / module_size - margin)
}

/// The RGB triple of the pixel at `(px, py)` in a row-major byte buffer of
/// the given width.
pub open spec fn rgb_at(pixels: Seq<u8>, width: int, px: int, py: int) -> (u8, u8, u8) {
    (
        pixels[(py * width + px) * 3],
        pixels[(py * width + px) * 3 + 1],
        pixels[(py * width + px) * 3 + 2],
    )
}

/// An RGB pixel buffer of `width * width` pixels, three bytes per pixel in
/// row-major order.
pub struct Bitmap {
    /// Side length in pixels.
    pub width: u32,
    /// The pixel bytes.
    pub pixels: Vec<u8>,
}

/// What it means for a bitmap to render a grid faithfully: the buffer is
/// fully allocated, every pixel inside a dark module is pure black, and
/// every other pixel is pure white — the bitmap path never uses configured
/// colors.
pub open spec fn bitmap_matches(
    b: Bitmap,
    rows: Seq<Seq<bool>>,
    margin: int,
    module_size: int,
    actual_size: int,
) -> bool {
    &&& b.width == actual_size
    &&& b.pixels@.len() == actual_size * actual_size * 3
    &&& forall|px: int, py: int|
        0 <= px < actual_size && 0 <= py < actual_size ==> #[trigger] rgb_at(
            b.pixels@,
            actual_size,
            px,
            py,
        ) == (if dark_pixel(rows, margin, module_size, px, py) {
            (0u8, 0u8, 0u8)
        } else {
            (255u8, 255u8, 255u8)
        })
}

/// Law: every pixel inside a dark module lies entirely within
/// `[0, actual_size)` in both axes, where `actual_size` is the rendered
/// side length belonging to the module size.
pub proof fn lemma_dark_pixel_in_bounds(
    rows: Seq<Seq<bool>>,
    margin: int,
    module_size: int,
    actual_size: int,
    px: int,
    py: int,
)
    requires
        margin >= 0,
        actual_size == module_size * (rows.len() + 2 * margin),
        dark_pixel(rows, margin, module_size, px, py),
    ensures
        0 <= px < actual_size,
        0 <= py < actual_size,
{
    lemma_pixel_axis_in_bounds(rows.len() as int, margin, module_size, actual_size, px);
    lemma_pixel_axis_in_bounds(rows.len() as int, margin, module_size, actual_size, py);
}

/// One axis of the bound above.
proof fn lemma_pixel_axis_in_bounds(n: int, margin: int, module_size: int, actual_size: int, p: int)
    requires
        n >= 0,
        margin >= 0,
        module_size > 0,
        actual_size == module_size * (n + 2 * margin),
        margin <= p / module_size < margin + n,
    ensures
        0 <= p < actual_size,
{
    lemma_fundamental_div_mod(p, module_size);
    lemma_mod_bound(p, module_size);
    lemma_mul_inequality(0, p / module_size, module_size);
    lemma_mul_inequality(p / module_size + 1, n + 2 * margin, module_size);
    assert(module_size * (p / module_size) == (p / module_size) * module_size)
        by (nonlinear_arith);
    assert((p / module_size + 1) * module_size == (p / module_size) * module_size + module_size)
        by (nonlinear_arith);
    assert((n + 2 * margin) * module_size == module_size * (n + 2 * margin)) by (nonlinear_arith);
}

/// Whether the pixel at `(px, py)` falls inside a dark module.
fn pixel_is_dark(grid: &ModuleGrid, margin: u32, module_size: u32, px: u32, py: u32) -> (r: bool)
    requires
        grid.wf(),
        module_size >= 1,
        grid.width + 2 * margin <= u32::MAX,
    ensures
        r == dark_pixel(grid.rows(), margin as int, module_size as int, px as int, py as int),
{
    let gx = px / module_size;
    let gy = py / module_size;
    if gx >= margin && gy >= margin {
        let cx = gx - margin;
        let cy = gy - margin;
        let n = grid.width as u32;
        if cx < n && cy < n {
            grid.is_dark(cx as usize, cy as usize)
        } else {
            false
        }
    } else {
        false
    }
}

/// Rasterizes the grid into a square black-on-white RGB buffer.
///
/// Every pixel whose module coordinates name a dark module is black;
/// everything else — light modules and the margin — is white. The caller
/// passes the `module_size` and `actual_size` of a computed layout, so the
/// rendered area is exactly `actual_size` pixels a side.
pub fn rasterize(grid: &ModuleGrid, margin: u32, module_size: u32, actual_size: u32) -> (b: Bitmap)
    requires
        grid.wf(),
        grid.width + 2 * margin <= u32::MAX,
        actual_size == module_size * (grid.width + 2 * margin),
        actual_size * actual_size * 3 <= usize::MAX,
    ensures
        bitmap_matches(
            b,
            grid.rows(),
            margin as int,
            module_size as int,
            actual_size as int,
        ),
{
    let ghost rows = grid.rows();
    let actual = actual_size as usize;
    let mut pixels: Vec<u8> = Vec::new();
    let mut py: usize = 0;
    while py < actual
        invariant
            grid.wf(),
            rows == grid.rows(),
            module_size >= 1 || actual == 0,
            grid.width + 2 * margin <= u32::MAX,
            actual == actual_size,
            actual_size == module_size * (grid.width + 2 * margin),
            actual * actual * 3 <= usize::MAX,
            py <= actual,
            pixels@.len() == py * actual * 3,
            forall|qx: int, qy: int|
                0 <= qx < actual && 0 <= qy < py ==> #[trigger] rgb_at(pixels@, actual as int, qx, qy)
                    == (if dark_pixel(rows, margin as int, module_size as int, qx, qy) {
                    (0u8, 0u8, 0u8)
                } else {
                    (255u8, 255u8, 255u8)
                }),
        decreases actual - py,
    {
        let mut px: usize = 0;
        while px < actual
            invariant
                grid.wf(),
                rows == grid.rows(),
                module_size >= 1 || actual == 0,
                grid.width + 2 * margin <= u32::MAX,
                actual == actual_size,
                actual_size == module_size * (grid.width + 2 * margin),
                actual * actual * 3 <= usize::MAX,
                py < actual,
                px <= actual,
                pixels@.len() == (py * actual + px) * 3,
                forall|qx: int, qy: int|
                    0 <= qx < actual && 0 <= qy < py ==> #[trigger] rgb_at(
                        pixels@,
                        actual as int,
                        qx,
                        qy,
                    ) == (if dark_pixel(rows, margin as int, module_size as int, qx, qy) {
                        (0u8, 0u8, 0u8)
                    } else {
                        (255u8, 255u8, 255u8)
                    }),
                forall|qx: int|
                    0 <= qx < px ==> #[trigger] rgb_at(pixels@, actual as int, qx, py as int) == (
                    if dark_pixel(rows, margin as int, module_size as int, qx, py as int) {
                        (0u8, 0u8, 0u8)
                    } else {
                        (255u8, 255u8, 255u8)
                    }),
            decreases actual - px,
        {
            proof {
                lemma_mul_inequality(py as int, actual as int - 1, actual as int);
                assert((actual - 1) * actual == actual * actual - actual) by (nonlinear_arith);
            }
            let dark = pixel_is_dark(grid, margin, module_size, px as u32, py as u32);
            let v: u8 = if dark {
                0
            } else {
                255
            };
            let ghost prefix = pixels@;
            pixels.push(v);
            pixels.push(v);
            pixels.push(v);
            proof {
                assert forall|i: int| 0 <= i < prefix.len() implies pixels@[i] == prefix[i] by {}
                assert(rgb_at(pixels@, actual as int, px as int, py as int) == (v, v, v));
                assert forall|qx: int, qy: int| 0 <= qx < actual && 0 <= qy < py implies #[trigger] rgb_at(
                    pixels@,
                    actual as int,
                    qx,
                    qy,
                ) == rgb_at(prefix, actual as int, qx, qy) by {
                    lemma_mul_inequality(qy, py as int - 1, actual as int);
                    assert((py - 1) * (actual as int) == py * (actual as int) - actual)
                        by (nonlinear_arith);
                }
                assert forall|qx: int| 0 <= qx < px implies #[trigger] rgb_at(
                    pixels@,
                    actual as int,
                    qx,
                    py as int,
                ) == rgb_at(prefix, actual as int, qx, py as int) by {}
            }
            px = px + 1;
        }
        proof {
            assert((py + 1) * actual == py * actual + actual) by (nonlinear_arith);
        }
        py = py + 1;
    }
    Bitmap { width: actual_size, pixels }
}

} // verus!
