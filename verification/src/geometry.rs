//! OCR render resolution rules.
use vstd::prelude::*;

verus! {

/// OCR render target DPI.
pub const OCR_RENDER_TARGET_DPI: u32 = 300;

/// Lowest accepted render DPI for OCR inputs.
pub const OCR_MIN_ACCEPTED_DPI: u32 = 96;

/// Highest accepted render DPI for OCR inputs.
pub const OCR_MAX_ACCEPTED_DPI: u32 = 600;

/// Whether a render DPI lies in the accepted range (both ends included).
pub fn validate_dpi_in_range(dpi: u32, min_dpi: u32, max_dpi: u32) -> (ok: bool)
    ensures
        ok == (min_dpi <= dpi && dpi <= max_dpi),
{
    min_dpi <= dpi && dpi <= max_dpi
}

} // verus!
