use rubrika_models::geometry::{validate_dpi_in_range, OCR_MAX_ACCEPTED_DPI, OCR_MIN_ACCEPTED_DPI};

#[test]
fn dpi_range_validation_accepts_ocr_renders_and_rejects_extremes() {
    assert!(validate_dpi_in_range(144, OCR_MIN_ACCEPTED_DPI, OCR_MAX_ACCEPTED_DPI));
    assert!(validate_dpi_in_range(300, OCR_MIN_ACCEPTED_DPI, OCR_MAX_ACCEPTED_DPI));
    assert!(!validate_dpi_in_range(72, OCR_MIN_ACCEPTED_DPI, OCR_MAX_ACCEPTED_DPI));
    assert!(!validate_dpi_in_range(1200, OCR_MIN_ACCEPTED_DPI, OCR_MAX_ACCEPTED_DPI));
}

#[test]
fn dpi_range_includes_both_ends() {
    assert!(validate_dpi_in_range(96, OCR_MIN_ACCEPTED_DPI, OCR_MAX_ACCEPTED_DPI));
    assert!(validate_dpi_in_range(600, OCR_MIN_ACCEPTED_DPI, OCR_MAX_ACCEPTED_DPI));
    assert!(!validate_dpi_in_range(95, OCR_MIN_ACCEPTED_DPI, OCR_MAX_ACCEPTED_DPI));
    assert!(!validate_dpi_in_range(601, OCR_MIN_ACCEPTED_DPI, OCR_MAX_ACCEPTED_DPI));
}
