//! Informational statistics about an encoded symbol.
//!
//! The capacity figures are a hard-coded heuristic per symbol width, not
//! derived from the actual encoded payload: a best-effort hint for the
//! user, never a correctness guarantee.

use vstd::prelude::*;
use crate::grid::ModuleGrid;
use crate::options::ErrorCorrectionLevel;

verus! {

/// The approximate alphanumeric capacity of a symbol of the given width at
/// the given error-correction level; 1000 for every width beyond the table.
pub open spec fn spec_max_capacity(width: int, level: ErrorCorrectionLevel) -> int {
    if width == 21 {
        match level {
            ErrorCorrectionLevel::Low => 25,
            ErrorCorrectionLevel::Medium => 20,
            ErrorCorrectionLevel::Quartile => 16,
            ErrorCorrectionLevel::High => 10,
        }
    } else if width == 25 {
        match level {
            ErrorCorrectionLevel::Low => 47,
            ErrorCorrectionLevel::Medium => 38,
            ErrorCorrectionLevel::Quartile => 29,
            ErrorCorrectionLevel::High => 20,
        }
    } else if width == 29 {
        match level {
            ErrorCorrectionLevel::Low => 77,
            ErrorCorrectionLevel::Medium => 61,
            ErrorCorrectionLevel::Quartile => 47,
            ErrorCorrectionLevel::High => 35,
        }
    } else if width == 33 {
        match level {
            ErrorCorrectionLevel::Low => 114,
            ErrorCorrectionLevel::Medium => 90,
            ErrorCorrectionLevel::Quartile => 67,
            ErrorCorrectionLevel::High => 50,
        }
    } else {
        1000
    }
}

/// Looks up the approximate capacity for a symbol width.
pub fn get_max_capacity(width: u32, level: ErrorCorrectionLevel) -> (c: usize)
    ensures
        c == spec_max_capacity(width as int, level),
        c <= 1000,
{
    if width == 21 {
        match level {
            ErrorCorrectionLevel::Low => 25,
            ErrorCorrectionLevel::Medium => 20,
            ErrorCorrectionLevel::Quartile => 16,
            ErrorCorrectionLevel::High => 10,
        }
    } else if width == 25 {
        match level {
            ErrorCorrectionLevel::Low => 47,
            ErrorCorrectionLevel::Medium => 38,
            ErrorCorrectionLevel::Quartile => 29,
            ErrorCorrectionLevel::High => 20,
        }
    } else if width == 29 {
        match level {
            ErrorCorrectionLevel::Low => 77,
            ErrorCorrectionLevel::Medium => 61,
            ErrorCorrectionLevel::Quartile => 47,
            ErrorCorrectionLevel::High => 35,
        }
    } else if width == 33 {
        match level {
            ErrorCorrectionLevel::Low => 114,
            ErrorCorrectionLevel::Medium => 90,
            ErrorCorrectionLevel::Quartile => 67,
            ErrorCorrectionLevel::High => 50,
        }
    } else {
        1000
    }
}

/// A read-only summary of one encoded symbol, for display by the caller.
#[derive(Clone, Copy, Debug, PartialEq, Eq, Structural)]
pub struct QrStats {
    /// Modules per side.
    pub width: u32,
    /// The QR version, recovered from the width of a normal symbol.
    pub version: u32,
    /// Length of the encoded data in characters.
    pub data_len: usize,
    /// Approximate capacity of the symbol, from the heuristic table.
    pub max_capacity: usize,
    /// Whether the data fills more than 80 percent of that capacity.
    pub near_limit: bool,
}

/// Summarizes an encoded symbol.
pub fn qr_stats(grid: &ModuleGrid, level: ErrorCorrectionLevel, data_len: usize) -> (s: QrStats)
    requires
        grid.wf(),
        17 <= grid.width <= u32::MAX,
    ensures
        s.width == grid.width,
        s.version == (grid.width - 17) / 4,
        s.data_len == data_len,
        s.max_capacity == spec_max_capacity(grid.width as int, level),
        s.near_limit == (data_len > spec_max_capacity(grid.width as int, level) * 80 / 100),
{
    let width = grid.width as u32;
    let version = (width - 17) / 4;
    let max_capacity = get_max_capacity(width, level);
    let near_limit = data_len > max_capacity * 80 / 100;
    QrStats { width, version, data_len, max_capacity, near_limit }
}

} // verus!
