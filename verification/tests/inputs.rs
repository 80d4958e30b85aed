//! Input handling: URL validation, selectors, layout arithmetic, stats.

use qr_forge::grid::ModuleGrid;
use qr_forge::layout::compute_layout;
use qr_forge::options::{ErrorCorrectionLevel, OutputFormat, QrForgeError, RenderConfig};
use qr_forge::stats::{get_max_capacity, qr_stats};
use qr_forge::validate::validate_url;

#[test]
fn layout_example_values() {
    let l = compute_layout(21, 4, 800);
    assert_eq!(l.total_modules, 29);
    assert_eq!(l.module_size, 27);
    assert_eq!(l.actual_size, 783);
    assert!(l.actual_size <= 800);
}

#[test]
fn layout_exact_fit_and_truncation() {
    let exact = compute_layout(21, 4, 812);
    assert_eq!(exact.module_size, 28);
    assert_eq!(exact.actual_size, 812);

    let truncated = compute_layout(21, 0, 100);
    assert_eq!(truncated.total_modules, 21);
    assert_eq!(truncated.module_size, 4);
    assert_eq!(truncated.actual_size, 84);
}

#[test]
fn layout_degenerate_and_warning() {
    let degenerate = compute_layout(21, 4, 10);
    assert_eq!(degenerate.module_size, 0);
    assert_eq!(degenerate.actual_size, 0);
    assert!(degenerate.module_too_small());

    let small = compute_layout(21, 4, 100);
    assert_eq!(small.module_size, 3);
    assert!(small.module_too_small());

    let fine = compute_layout(21, 4, 800);
    assert!(!fine.module_too_small());
}

#[test]
fn url_without_scheme_is_prefixed() {
    assert_eq!(
        validate_url("example.com"),
        Ok("https://example.com".to_string())
    );
}

#[test]
fn url_with_scheme_passes_through() {
    assert_eq!(
        validate_url("http://example.com"),
        Ok("http://example.com".to_string())
    );
    assert_eq!(
        validate_url("https://sub.example.com/path"),
        Ok("https://sub.example.com/path".to_string())
    );
}

#[test]
fn url_without_dot_is_rejected() {
    assert_eq!(validate_url("nodothere"), Err(QrForgeError::InvalidInput));
    assert_eq!(validate_url(""), Err(QrForgeError::InvalidInput));
    assert_eq!(validate_url("http://nodot"), Err(QrForgeError::InvalidInput));
}

#[test]
fn ec_selector_accepts_the_four_letters() {
    assert_eq!(
        ErrorCorrectionLevel::from_selector("L"),
        Ok(ErrorCorrectionLevel::Low)
    );
    assert_eq!(
        ErrorCorrectionLevel::from_selector("m"),
        Ok(ErrorCorrectionLevel::Medium)
    );
    assert_eq!(
        ErrorCorrectionLevel::from_selector("Q"),
        Ok(ErrorCorrectionLevel::Quartile)
    );
    assert_eq!(
        ErrorCorrectionLevel::from_selector("h"),
        Ok(ErrorCorrectionLevel::High)
    );
}

#[test]
fn ec_selector_rejects_everything_else() {
    assert_eq!(
        ErrorCorrectionLevel::from_selector("X"),
        Err(QrForgeError::InvalidInput)
    );
    assert_eq!(
        ErrorCorrectionLevel::from_selector("LL"),
        Err(QrForgeError::InvalidInput)
    );
    assert_eq!(
        ErrorCorrectionLevel::from_selector(""),
        Err(QrForgeError::InvalidInput)
    );
}

#[test]
fn format_selector_accepts_known_formats() {
    assert_eq!(OutputFormat::from_selector("png"), Ok(OutputFormat::Png));
    assert_eq!(OutputFormat::from_selector("PNG"), Ok(OutputFormat::Png));
    assert_eq!(OutputFormat::from_selector("jpg"), Ok(OutputFormat::Jpg));
    assert_eq!(OutputFormat::from_selector("jpeg"), Ok(OutputFormat::Jpg));
    assert_eq!(OutputFormat::from_selector("Jpeg"), Ok(OutputFormat::Jpg));
    assert_eq!(OutputFormat::from_selector("bmp"), Ok(OutputFormat::Bmp));
    assert_eq!(OutputFormat::from_selector("svg"), Ok(OutputFormat::Svg));
    assert_eq!(OutputFormat::from_selector("SVG"), Ok(OutputFormat::Svg));
}

#[test]
fn format_selector_rejects_unknown_formats() {
    assert_eq!(
        OutputFormat::from_selector("xyz"),
        Err(QrForgeError::InvalidInput)
    );
    assert_eq!(
        OutputFormat::from_selector("gif"),
        Err(QrForgeError::InvalidInput)
    );
    assert_eq!(
        OutputFormat::from_selector(""),
        Err(QrForgeError::InvalidInput)
    );
}

#[test]
fn selector_labels_and_extensions() {
    assert_eq!(ErrorCorrectionLevel::High.to_string(), "H (High)");
    assert_eq!(ErrorCorrectionLevel::Low.to_string(), "L (Low)");
    assert_eq!(OutputFormat::Png.to_string(), "PNG");
    assert_eq!(OutputFormat::Svg.extension(), "svg");
    assert_eq!(OutputFormat::Jpg.extension(), "jpg");
}

#[test]
fn error_messages_name_the_kind() {
    assert_eq!(QrForgeError::InvalidInput.message(), "invalid input");
    assert_eq!(QrForgeError::EncodingFailure.message(), "QR encoding failed");
    assert_eq!(QrForgeError::IoFailure.message(), "file I/O failed");
}

#[test]
fn default_config_matches_cli_defaults() {
    let c = RenderConfig::default();
    assert_eq!(c.size, 800);
    assert_eq!(c.margin, 4);
    assert_eq!(c.fg_color, "000000");
    assert_eq!(c.bg_color, "ffffff");
}

#[test]
fn capacity_table_values() {
    assert_eq!(get_max_capacity(21, ErrorCorrectionLevel::High), 10);
    assert_eq!(get_max_capacity(21, ErrorCorrectionLevel::Low), 25);
    assert_eq!(get_max_capacity(29, ErrorCorrectionLevel::Medium), 61);
    assert_eq!(get_max_capacity(33, ErrorCorrectionLevel::Quartile), 67);
    assert_eq!(get_max_capacity(45, ErrorCorrectionLevel::High), 1000);
}

#[test]
fn stats_summarize_the_symbol() {
    let grid = ModuleGrid::new(21, vec![false; 21 * 21]).unwrap();
    let s = qr_stats(&grid, ErrorCorrectionLevel::High, 19);
    assert_eq!(s.width, 21);
    assert_eq!(s.version, 1);
    assert_eq!(s.data_len, 19);
    assert_eq!(s.max_capacity, 10);
    assert!(s.near_limit);

    let roomy = qr_stats(&grid, ErrorCorrectionLevel::Low, 5);
    assert_eq!(roomy.max_capacity, 25);
    assert!(!roomy.near_limit);
}
