//! Rendering: pixel buffers, rectangle lists, and the full pipeline
//! against the real external encoder.

use qr_forge::encode::encode_url;
use qr_forge::grid::ModuleGrid;
use qr_forge::layout::compute_layout;
use qr_forge::options::{ErrorCorrectionLevel, OutputFormat, QrForgeError, RenderConfig};
use qr_forge::raster::{rasterize, Bitmap};
use qr_forge::render::{render_grid, render_preview, render_qr, RenderOutput};
use qr_forge::vector::{rasterize_vector, Rect};

fn checkerboard() -> ModuleGrid {
    // Row 0: dark, light; row 1: light, dark.
    ModuleGrid::new(2, vec![true, false, false, true]).unwrap()
}

fn rgb(b: &Bitmap, px: u32, py: u32) -> (u8, u8, u8) {
    let i = ((py * b.width + px) * 3) as usize;
    (b.pixels[i], b.pixels[i + 1], b.pixels[i + 2])
}

#[test]
fn grid_construction_is_checked() {
    assert!(ModuleGrid::new(2, vec![true, false, false, true]).is_some());
    assert!(ModuleGrid::new(2, vec![true, false, false]).is_none());
    assert!(ModuleGrid::new(0, vec![]).is_none());
    let g = checkerboard();
    assert_eq!(g.width, 2);
    assert!(g.is_dark(0, 0));
    assert!(!g.is_dark(1, 0));
    assert!(!g.is_dark(0, 1));
    assert!(g.is_dark(1, 1));
    assert_eq!(g.dark_module_count(), 2);
}

#[test]
fn single_dark_module_fills_the_canvas() {
    let g = ModuleGrid::new(1, vec![true]).unwrap();
    let b = rasterize(&g, 0, 3, 3);
    assert_eq!(b.width, 3);
    assert_eq!(b.pixels.len(), 27);
    assert!(b.pixels.iter().all(|&v| v == 0));
}

#[test]
fn single_light_module_stays_white() {
    let g = ModuleGrid::new(1, vec![false]).unwrap();
    let b = rasterize(&g, 0, 3, 3);
    assert_eq!(b.pixels.len(), 27);
    assert!(b.pixels.iter().all(|&v| v == 255));
}

#[test]
fn bitmap_is_pure_black_on_white() {
    let g = checkerboard();
    let l = compute_layout(2, 1, 8);
    assert_eq!(l.module_size, 2);
    assert_eq!(l.actual_size, 8);
    let b = rasterize(&g, 1, l.module_size, l.actual_size);
    assert_eq!(b.width, 8);
    // Margin pixels are white.
    assert_eq!(rgb(&b, 0, 0), (255, 255, 255));
    assert_eq!(rgb(&b, 7, 7), (255, 255, 255));
    // The dark module at (0, 0) covers pixels 2..4 in both axes.
    assert_eq!(rgb(&b, 2, 2), (0, 0, 0));
    assert_eq!(rgb(&b, 3, 3), (0, 0, 0));
    // The light module at (1, 0) stays white.
    assert_eq!(rgb(&b, 4, 2), (255, 255, 255));
    // The dark module at (1, 1) covers pixels 4..6.
    assert_eq!(rgb(&b, 4, 4), (0, 0, 0));
    assert_eq!(rgb(&b, 5, 5), (0, 0, 0));
    // Every byte is one of the two pure values, never a configured color.
    assert!(b.pixels.iter().all(|&v| v == 0 || v == 255));
}

#[test]
fn vector_document_lists_dark_modules() {
    let g = checkerboard();
    let d = rasterize_vector(&g, 1, 2, 8, "123456", "abcdef");
    assert_eq!(d.width, 8);
    assert_eq!(d.height, 8);
    assert_eq!(d.fg_color, "123456");
    assert_eq!(d.bg_color, "abcdef");
    assert_eq!(d.rects.len(), 2);
    assert_eq!(d.rects[0], Rect { x: 2, y: 2, width: 2, height: 2 });
    assert_eq!(d.rects[1], Rect { x: 4, y: 4, width: 2, height: 2 });
}

#[test]
fn vector_rectangles_stay_inside_the_canvas() {
    let g = checkerboard();
    let d = rasterize_vector(&g, 3, 5, 40, "000000", "ffffff");
    assert_eq!(d.rects.len(), 2);
    for r in d.rects.iter() {
        assert!(r.x + r.width <= d.width);
        assert!(r.y + r.height <= d.height);
    }
}

#[test]
fn bitmap_and_vector_paths_agree() {
    let g = checkerboard();
    let cfg = RenderConfig {
        size: 100,
        margin: 4,
        fg_color: "000000".to_string(),
        bg_color: "ffffff".to_string(),
    };
    let bitmap = match render_grid(&g, OutputFormat::Png, &cfg) {
        RenderOutput::Bitmap(b) => b,
        RenderOutput::Vector(_) => panic!("PNG must take the bitmap path"),
    };
    let doc = match render_grid(&g, OutputFormat::Svg, &cfg) {
        RenderOutput::Vector(d) => d,
        RenderOutput::Bitmap(_) => panic!("SVG must take the vector path"),
    };
    assert_eq!(bitmap.width, doc.width);
    assert_eq!(doc.rects.len(), g.dark_module_count());
}

#[test]
fn encoder_produces_a_plausible_grid() {
    let g = encode_url("example.com", ErrorCorrectionLevel::High).unwrap();
    assert!(g.width >= 21 && g.width <= 177);
    assert_eq!(g.modules.len(), g.width * g.width);
    // A real symbol has both dark and light modules.
    let dark = g.dark_module_count();
    assert!(dark > 0);
    assert!(dark < g.width * g.width);
    // The three finder patterns pin the corners: their centers are dark.
    assert!(g.is_dark(3, 3));
    assert!(g.is_dark(g.width - 4, 3));
    assert!(g.is_dark(3, g.width - 4));
}

#[test]
fn encoder_is_deterministic() {
    let a = encode_url("example.com", ErrorCorrectionLevel::Quartile).unwrap();
    let b = encode_url("example.com", ErrorCorrectionLevel::Quartile).unwrap();
    assert_eq!(a.width, b.width);
    assert_eq!(a.modules, b.modules);
}

#[test]
fn encode_rejects_invalid_and_oversized_input() {
    assert!(matches!(
        encode_url("nodothere", ErrorCorrectionLevel::High),
        Err(QrForgeError::InvalidInput)
    ));
    // Far beyond the capacity of the largest symbol at level H.
    let huge = format!("example.com/{}", "a".repeat(4000));
    assert!(matches!(
        encode_url(&huge, ErrorCorrectionLevel::High),
        Err(QrForgeError::EncodingFailure)
    ));
}

#[test]
fn pipeline_renders_a_bitmap() {
    let cfg = RenderConfig::default();
    let out = render_qr("example.com", ErrorCorrectionLevel::High, OutputFormat::Png, &cfg)
        .unwrap();
    let b = match out {
        RenderOutput::Bitmap(b) => b,
        RenderOutput::Vector(_) => panic!("PNG must take the bitmap path"),
    };
    let g = encode_url("example.com", ErrorCorrectionLevel::High).unwrap();
    let l = compute_layout(g.width as u32, cfg.margin, cfg.size);
    assert_eq!(b.width, l.actual_size);
    assert_eq!(b.pixels.len(), (l.actual_size * l.actual_size * 3) as usize);
    assert!(b.pixels.iter().any(|&v| v == 0));
    assert!(b.pixels.iter().any(|&v| v == 255));
}

#[test]
fn pipeline_renders_a_vector_document() {
    let cfg = RenderConfig {
        size: 800,
        margin: 4,
        fg_color: "112233".to_string(),
        bg_color: "eeeeff".to_string(),
    };
    let out = render_qr("example.com", ErrorCorrectionLevel::High, OutputFormat::Svg, &cfg)
        .unwrap();
    let d = match out {
        RenderOutput::Vector(d) => d,
        RenderOutput::Bitmap(_) => panic!("SVG must take the vector path"),
    };
    let g = encode_url("example.com", ErrorCorrectionLevel::High).unwrap();
    assert_eq!(d.rects.len(), g.dark_module_count());
    assert_eq!(d.fg_color, "112233");
    assert_eq!(d.bg_color, "eeeeff");
    for r in d.rects.iter() {
        assert!(r.x + r.width <= d.width);
        assert!(r.y + r.height <= d.height);
    }
}

#[test]
fn pipeline_propagates_errors() {
    let cfg = RenderConfig::default();
    assert!(matches!(
        render_qr("nodothere", ErrorCorrectionLevel::High, OutputFormat::Png, &cfg),
        Err(QrForgeError::InvalidInput)
    ));
}

#[test]
fn preview_fits_its_envelope() {
    let g = encode_url("example.com", ErrorCorrectionLevel::High).unwrap();
    let b = render_preview(&g, 4);
    let l = compute_layout(g.width as u32, 4, 200);
    assert_eq!(b.width, l.actual_size);
    assert!(b.width <= 200);
    assert!(b.pixels.iter().any(|&v| v == 0));
}
