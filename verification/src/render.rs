//! The render pipeline: validate, encode, lay out, rasterize.

use vstd::prelude::*;
use vstd::arithmetic::mul::lemma_mul_inequality;
use crate::encode::{encode_url, qr_encoding};
use crate::grid::{dark_count, rows_wf, ModuleGrid};
use crate::layout::{compute_layout, spec_actual_size, spec_module_size};
use crate::options::{ErrorCorrectionLevel, OutputFormat, QrForgeError, RenderConfig};
use crate::raster::{bitmap_matches, rasterize, Bitmap};
use crate::validate::{contains_dot, normalized_url};
use crate::vector::{dark_rects, lemma_dark_rects_len, rasterize_vector, VectorDocument};

verus! {

/// Side length of the fixed envelope used for interactive previews.
pub const PREVIEW_SIZE: u32 = 200;

/// The two kinds of render artifact.
pub enum RenderOutput {
    /// A black-on-white pixel buffer, ready for a bitmap container.
    Bitmap(Bitmap),
    /// A rectangle list with colors, ready for SVG serialization.
    Vector(VectorDocument),
}

/// Renders an encoded grid with the configured geometry: the vector path
/// for SVG, the bitmap path for every other format.
pub fn render_grid(grid: &ModuleGrid, format: OutputFormat, config: &RenderConfig) -> (out:
    RenderOutput)
    requires
        grid.wf(),
        grid.width + 2 * config.margin <= u32::MAX,
        config.size * config.size * 3 <= usize::MAX,
    ensures
        out is Vector <==> format is Svg,
        ({
            let rows = grid.rows();
            let margin = config.margin as int;
            let ms = spec_module_size(grid.width as int, margin, config.size as int);
            let actual = spec_actual_size(grid.width as int, margin, config.size as int);
            match out {
                RenderOutput::Vector(d) => {
                    &&& d.width == actual
                    &&& d.height == actual
                    &&& d.fg_color@ == config.fg_color@
                    &&& d.bg_color@ == config.bg_color@
                    &&& d.rects@ == dark_rects(rows, margin, ms)
                    &&& d.rects@.len() == dark_count(rows)
                },
                RenderOutput::Bitmap(b) => bitmap_matches(b, rows, margin, ms, actual),
            }
        }),
{
    let layout = compute_layout(grid.width as u32, config.margin, config.size);
    match format {
        OutputFormat::Svg => RenderOutput::Vector(
            rasterize_vector(
                grid,
                config.margin,
                layout.module_size,
                layout.actual_size,
                config.fg_color.as_str(),
                config.bg_color.as_str(),
            ),
        ),
        _ => {
            proof {
                let actual = layout.actual_size as int;
                let size = config.size as int;
                lemma_mul_inequality(actual, size, actual);
                lemma_mul_inequality(actual, size, size);
                assert(size * actual == actual * size) by (nonlinear_arith);
            }
            RenderOutput::Bitmap(rasterize(grid, config.margin, layout.module_size, layout.actual_size))
        },
    }
}

/// Renders a small black-on-white preview of the grid, aimed at a fixed
/// 200-unit envelope; same algorithm as the full bitmap path, only the
/// target size differs.
pub fn render_preview(grid: &ModuleGrid, margin: u32) -> (b: Bitmap)
    requires
        grid.wf(),
        grid.width + 2 * margin <= u32::MAX,
    ensures
        bitmap_matches(
            b,
            grid.rows(),
            margin as int,
            spec_module_size(grid.width as int, margin as int, PREVIEW_SIZE as int),
            spec_actual_size(grid.width as int, margin as int, PREVIEW_SIZE as int),
        ),
{
    let layout = compute_layout(grid.width as u32, margin, PREVIEW_SIZE);
    proof {
        let actual = layout.actual_size as int;
        lemma_mul_inequality(actual, PREVIEW_SIZE as int, actual);
        lemma_mul_inequality(actual, PREVIEW_SIZE as int, PREVIEW_SIZE as int);
        assert(PREVIEW_SIZE as int * actual == actual * (PREVIEW_SIZE as int))
            by (nonlinear_arith);
    }
    rasterize(grid, margin, layout.module_size, layout.actual_size)
}

/// The whole pipeline behind one generation request: URL validation, QR
/// encoding, layout and rasterization.
///
/// Succeeds exactly when the normalized input passes the domain heuristic
/// and the external encoder accepts it; the artifact is then the faithful
/// rendering of the encoded grid at the configured geometry.
pub fn render_qr(
    input: &str,
    level: ErrorCorrectionLevel,
    format: OutputFormat,
    config: &RenderConfig,
) -> (r: Result<RenderOutput, QrForgeError>)
    requires
        177 + 2 * config.margin <= u32::MAX,
        config.size * config.size * 3 <= usize::MAX,
    ensures
        r is Ok <==> contains_dot(normalized_url(input@)) && qr_encoding(
            normalized_url(input@),
            level.rank(),
        ) is Some,
        r matches Err(e) ==> e == (if !contains_dot(normalized_url(input@)) {
            QrForgeError::InvalidInput
        } else {
            QrForgeError::EncodingFailure
        }),
        r matches Ok(out) ==> ({
            let rows = qr_encoding(normalized_url(input@), level.rank())->Some_0;
            let margin = config.margin as int;
            let ms = spec_module_size(rows.len() as int, margin, config.size as int);
            let actual = spec_actual_size(rows.len() as int, margin, config.size as int);
            &&& (out is Vector <==> format is Svg)
            &&& match out {
                RenderOutput::Vector(d) => {
                    &&& d.width == actual
                    &&& d.height == actual
                    &&& d.fg_color@ == config.fg_color@
                    &&& d.bg_color@ == config.bg_color@
                    &&& d.rects@ == dark_rects(rows, margin, ms)
                    &&& d.rects@.len() == dark_count(rows)
                },
                RenderOutput::Bitmap(b) => bitmap_matches(b, rows, margin, ms, actual),
            }
        }),
{
    match encode_url(input, level) {
        Err(e) => Err(e),
        Ok(grid) => Ok(render_grid(&grid, format, config)),
    }
}

/// Law: rendering one grid to bitmap and to vector form with the same
/// margin and target size yields the same rendered side length, and the
/// vector document holds exactly one filled region per dark module.
pub proof fn lemma_round_trip(
    b: Bitmap,
    d: VectorDocument,
    rows: Seq<Seq<bool>>,
    margin: int,
    size: int,
)
    requires
        rows_wf(rows),
        margin >= 0,
        bitmap_matches(
            b,
            rows,
            margin,
            spec_module_size(rows.len() as int, margin, size),
            spec_actual_size(rows.len() as int, margin, size),
        ),
        d.width == spec_actual_size(rows.len() as int, margin, size),
        d.rects@ == dark_rects(rows, margin, spec_module_size(rows.len() as int, margin, size)),
    ensures
        b.width == d.width,
        d.rects@.len() == dark_count(rows),
{
    lemma_dark_rects_len(
        rows,
        margin,
        spec_module_size(rows.len() as int, margin, size),
        rows.len() * rows.len() as int,
    );
}

} // verus!
