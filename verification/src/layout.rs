//! Layout arithmetic shared by the bitmap and the vector renderer.

use vstd::prelude::*;
use vstd::arithmetic::div_mod::lemma_fundamental_div_mod;
use vstd::arithmetic::div_mod::lemma_div_non_zero;

verus! {

/// Modules across the rendered symbol: the grid itself plus `margin` empty
/// modules on either side.
pub open spec fn spec_total_modules(n: int, margin: int) -> int {
    n + 2 * margin
}

/// Pixels (or SVG units) per module: the target size divided by the total
/// module count, truncated.
pub open spec fn spec_module_size(n: int, margin: int, size: int) -> int {
    size / spec_total_modules(n, margin)
}

/// Side length of the rendered image. Because the module size is truncated,
/// this is at most the requested size; the remainder is dropped rather than
/// compensated for.
pub open spec fn spec_actual_size(n: int, margin: int, size: int) -> int {
    spec_module_size(n, margin, size) * spec_total_modules(n, margin)
}

/// The geometry derived from a grid width, a margin and a target size.
#[derive(Clone, Copy, Debug, PartialEq, Eq, Structural)]
pub struct Layout {
    pub total_modules: u32,
    pub module_size: u32,
    pub actual_size: u32,
}

impl Layout {
    /// Heuristic threshold below which a module is considered too small to
    /// print reliably. Crossing it is a warning for the caller to surface,
    /// never an error.
    pub fn module_too_small(&self) -> (r: bool)
        ensures
            r == (self.module_size < 4),
    {
        self.module_size < 4
    }
}

/// Derives the module size and the exact rendered size for an `n` by `n`
/// grid surrounded by `margin` empty modules, aimed at `size` pixels.
pub fn compute_layout(n: u32, margin: u32, size: u32) -> (l: Layout)
    requires
        1 <= n,
        n + 2 * margin <= u32::MAX,
    ensures
        l.total_modules == spec_total_modules(n as int, margin as int),
        l.module_size == spec_module_size(n as int, margin as int, size as int),
        l.actual_size == spec_actual_size(n as int, margin as int, size as int),
        l.actual_size <= size,
        size >= l.total_modules ==> l.module_size >= 1,
{
    let total_modules = n + 2 * margin;
    let module_size = size / total_modules;
    proof {
        lemma_fundamental_div_mod(size as int, total_modules as int);
        if size >= total_modules {
            lemma_div_non_zero(size as int, total_modules as int);
        }
    }
    let actual_size = module_size * total_modules;
    Layout { total_modules, module_size, actual_size }
}

} // verus!
