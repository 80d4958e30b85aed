//! The vector rasterizer: a module grid becomes a rectangle list.
//!
//! Serialization of the document model to SVG text is an external
//! responsibility; this module only produces the canvas dimensions, the
//! colors, and one axis-aligned rectangle per dark module.

use vstd::prelude::*;
use vstd::arithmetic::div_mod::lemma_fundamental_div_mod_converse;
use vstd::arithmetic::mul::lemma_mul_inequality;
use crate::grid::{dark_at, dark_count, dark_count_upto, ModuleGrid};

verus! {

/// An axis-aligned filled rectangle.
#[derive(Clone, Copy, Debug, PartialEq, Eq, Structural)]
pub struct Rect {
    pub x: u32,
    pub y: u32,
    pub width: u32,
    pub height: u32,
}

/// The rectangle covering the module at column `gx`, row `gy`.
pub open spec fn module_rect(gx: int, gy: int, margin: int, module_size: int) -> Rect {
    Rect {
        x: ((gx + margin) * module_size) as u32,
        y: ((gy + margin) * module_size) as u32,
        width: module_size as u32,
        height: module_size as u32,
    }
}

/// The rectangles of the dark modules among the first `k` cells, in
/// row-major order.
pub open spec fn dark_rects_upto(
    rows: Seq<Seq<bool>>,
    margin: int,
    module_size: int,
    k: int,
) -> Seq<Rect>
    decreases k,
{
    if k <= 0 {
        Seq::empty()
    } else {
        let rest = dark_rects_upto(rows, margin, module_size, k - 1);
        let n = rows.len() as int;
        if dark_at(rows, (k - 1) % n, (k - 1) / n) {
            rest.push(module_rect((k - 1) % n, (k - 1) / n, margin, module_size))
        } else {
            rest
        }
    }
}

/// One rectangle per dark module of the grid, in row-major order.
pub open spec fn dark_rects(rows: Seq<Seq<bool>>, margin: int, module_size: int) -> Seq<Rect> {
    dark_rects_upto(rows, margin, module_size, rows.len() * rows.len() as int)
}

/// Law: the vector path emits exactly one rectangle per dark module — the
/// rectangle list and the dark-module count have the same length.
pub proof fn lemma_dark_rects_len(rows: Seq<Seq<bool>>, margin: int, module_size: int, k: int)
    ensures
        dark_rects_upto(rows, margin, module_size, k).len() == dark_count_upto(rows, k),
    decreases k,
{
    if k > 0 {
        lemma_dark_rects_len(rows, margin, module_size, k - 1);
    }
}

/// The abstract vector document: canvas dimensions, one full-canvas
/// background color, and the dark-module rectangles sharing one foreground
/// color.
pub struct VectorDocument {
    /// Canvas width in SVG units.
    pub width: u32,
    /// Canvas height in SVG units.
    pub height: u32,
    /// Fill color of the module rectangles, a hex string without `#`.
    pub fg_color: String,
    /// Fill color of the background rectangle, a hex string without `#`.
    pub bg_color: String,
    /// One rectangle per dark module, in row-major order.
    pub rects: Vec<Rect>,
}

/// Emits the rectangle list for the grid.
///
/// The document's canvas is exactly `actual_size` units a side, its colors
/// are the configured colors unchanged, and its rectangles are precisely
/// the dark modules of the grid, each of `module_size` units a side and
/// lying entirely within the canvas.
pub fn rasterize_vector(
    grid: &ModuleGrid,
    margin: u32,
    module_size: u32,
    actual_size: u32,
    fg_color: &str,
    bg_color: &str,
) -> (d: VectorDocument)
    requires
        grid.wf(),
        grid.width + 2 * margin <= u32::MAX,
        actual_size == module_size * (grid.width + 2 * margin),
    ensures
        d.width == actual_size,
        d.height == actual_size,
        d.fg_color@ == fg_color@,
        d.bg_color@ == bg_color@,
        d.rects@ == dark_rects(grid.rows(), margin as int, module_size as int),
        d.rects@.len() == dark_count(grid.rows()),
        forall|j: int|
            0 <= j < d.rects@.len() ==> ((#[trigger] d.rects@[j]).x + d.rects@[j].width
                <= actual_size && d.rects@[j].y + d.rects@[j].height <= actual_size),
{
    let ghost rows = grid.rows();
    let n = grid.width;
    let mut rects: Vec<Rect> = Vec::new();
    let mut y: usize = 0;
    while y < n
        invariant
            grid.wf(),
            rows == grid.rows(),
            n == grid.width,
            grid.width + 2 * margin <= u32::MAX,
            actual_size == module_size * (grid.width + 2 * margin),
            y <= n,
            rects@ == dark_rects_upto(rows, margin as int, module_size as int, y * n as int),
            forall|j: int|
                0 <= j < rects@.len() ==> ((#[trigger] rects@[j]).x + rects@[j].width
                    <= actual_size && rects@[j].y + rects@[j].height <= actual_size),
        decreases n - y,
    {
        let mut x: usize = 0;
        proof {
            lemma_mul_inequality(y as int, n as int - 1, n as int);
            assert((n - 1) * n == n * n - n) by (nonlinear_arith);
        }
        while x < n
            invariant
                grid.wf(),
                rows == grid.rows(),
                n == grid.width,
                grid.width + 2 * margin <= u32::MAX,
                actual_size == module_size * (grid.width + 2 * margin),
                y < n,
                x <= n,
                y * n + x <= n * n,
                rects@ == dark_rects_upto(
                    rows,
                    margin as int,
                    module_size as int,
                    y * n + x as int,
                ),
                forall|j: int|
                    0 <= j < rects@.len() ==> ((#[trigger] rects@[j]).x + rects@[j].width
                        <= actual_size && rects@[j].y + rects@[j].height <= actual_size),
            decreases n - x,
        {
            proof {
                let k: int = y * n + x as int;
                lemma_fundamental_div_mod_converse(k, n as int, y as int, x as int);
                lemma_mul_inequality(x as int + margin + 1, n as int + 2 * margin, module_size as int);
                lemma_mul_inequality(y as int, n as int - 1, n as int);
                assert((n - 1) * n == n * n - n) by (nonlinear_arith);
            }
            if grid.is_dark(x, y) {
                proof {
                    lemma_mul_inequality(
                        y as int + margin + 1,
                        n as int + 2 * margin,
                        module_size as int,
                    );
                    assert((x + margin) * (module_size as int) + module_size == (x + margin + 1) * (
                    module_size as int)) by (nonlinear_arith);
                    assert((y + margin) * (module_size as int) + module_size == (y + margin + 1) * (
                    module_size as int)) by (nonlinear_arith);
                    assert((n as int + 2 * margin) * (module_size as int) == (module_size as int) * (
                    n as int + 2 * margin)) by (nonlinear_arith);
                    lemma_mul_inequality(0, x as int + margin, module_size as int);
                    lemma_mul_inequality(0, y as int + margin, module_size as int);
                }
                let rx = (x as u32 + margin) * module_size;
                let ry = (y as u32 + margin) * module_size;
                let r = Rect { x: rx, y: ry, width: module_size, height: module_size };
                proof {
                    assert(r == module_rect(x as int, y as int, margin as int, module_size as int));
                }
                rects.push(r);
            }
            x = x + 1;
        }
        proof {
            assert((y + 1) * n == y * n + n) by (nonlinear_arith);
        }
        y = y + 1;
    }
    proof {
        lemma_dark_rects_len(
            rows,
            margin as int,
            module_size as int,
            rows.len() * rows.len() as int,
        );
    }
    VectorDocument {
        width: actual_size,
        height: actual_size,
        fg_color: fg_color.to_owned(),
        bg_color: bg_color.to_owned(),
        rects,
    }
}

} // verus!
