//! The module grid: a square matrix of dark and light modules.

use vstd::prelude::*;
use vstd::arithmetic::div_mod::lemma_fundamental_div_mod;
use vstd::arithmetic::div_mod::lemma_mod_pos_bound;
use vstd::arithmetic::mul::lemma_mul_inequality;

verus! {

/// A square grid of QR modules; `true` is a dark module.
///
/// The grid is produced once by the external encoder and read-only from
/// then on; every renderer takes it by shared reference.
pub struct ModuleGrid {
    /// Modules per side.
    pub width: usize,
    /// The modules in row-major order: the module at column `x` of row `y`
    /// sits at index `y * width + x`.
    pub modules: Vec<bool>,
}

/// A well-formed view of a module grid: square, with at least one module
/// per side.
pub open spec fn rows_wf(rows: Seq<Seq<bool>>) -> bool {
    &&& rows.len() >= 1
    &&& forall|y: int| 0 <= y < rows.len() ==> (#[trigger] rows[y]).len() == rows.len()
}

/// Whether the module at column `x` of row `y` is dark.
pub open spec fn dark_at(rows: Seq<Seq<bool>>, x: int, y: int) -> bool {
    rows[y][x]
}

/// How many of the first `k` cells are dark, counting in row-major order.
pub open spec fn dark_count_upto(rows: Seq<Seq<bool>>, k: int) -> int
    decreases k,
{
    if k <= 0 {
        0
    } else {
        let n = rows.len() as int;
        dark_count_upto(rows, k - 1) + if dark_at(rows, (k - 1) % n, (k - 1) / n) {
            1int
        } else {
            0int
        }
    }
}

/// How many modules of the whole grid are dark.
pub open spec fn dark_count(rows: Seq<Seq<bool>>) -> int {
    dark_count_upto(rows, rows.len() * rows.len() as int)
}

impl ModuleGrid {
    /// Square and non-empty, with the backing vector sized to match.
    pub open spec fn wf(self) -> bool {
        &&& 1 <= self.width
        &&& self.modules@.len() == self.width * self.width
    }

    /// The grid as a sequence of rows.
    pub open spec fn rows(self) -> Seq<Seq<bool>> {
        Seq::new(
            self.width as nat,
            |y: int| Seq::new(self.width as nat, |x: int| self.modules@[y * self.width + x]),
        )
    }

    /// Builds a grid from a row-major module list, rejecting any list whose
    /// length is not the square of the given width.
    pub fn new(width: usize, modules: Vec<bool>) -> (r: Option<ModuleGrid>)
        ensures
            r is Some <==> 1 <= width && modules@.len() == width * width,
            r matches Some(g) ==> g.width == width && g.modules@ == modules@ && g.wf(),
    {
        let len = modules.len();
        if width >= 1 {
            match width.checked_mul(width) {
                Some(square) => {
                    if len == square {
                        Some(ModuleGrid { width, modules })
                    } else {
                        None
                    }
                },
                None => None,
            }
        } else {
            None
        }
    }

    /// Whether the module at column `x` of row `y` is dark.
    pub fn is_dark(&self, x: usize, y: usize) -> (r: bool)
        requires
            self.wf(),
            x < self.width,
            y < self.width,
        ensures
            r == dark_at(self.rows(), x as int, y as int),
    {
        proof {
            assert(self.modules.len() == self.modules@.len());
            lemma_mul_inequality(y as int, self.width as int - 1, self.width as int);
            assert((self.width - 1) * self.width == self.width * self.width - self.width)
                by (nonlinear_arith);
        }
        self.modules[y * self.width + x]
    }

    /// Counts the dark modules of the grid.
    pub fn dark_module_count(&self) -> (c: usize)
        requires
            self.wf(),
        ensures
            c == dark_count(self.rows()),
    {
        let ghost rows = self.rows();
        let mut c: usize = 0;
        let mut k: usize = 0;
        let len = self.modules.len();
        while k < len
            invariant
                self.wf(),
                rows == self.rows(),
                len == self.modules@.len(),
                k <= len,
                c <= k,
                c == dark_count_upto(rows, k as int),
            decreases len - k,
        {
            proof {
                let n = self.width as int;
                lemma_fundamental_div_mod(k as int, n);
                lemma_mod_pos_bound(k as int, n);
                lemma_div_in_range(k as int, n, n);
                assert((k as int) / n * n + (k as int) % n == k as int) by (nonlinear_arith)
                    requires n >= 1 && k as int == n * ((k as int) / n) + (k as int) % n;
                assert(dark_at(rows, (k as int) % n, (k as int) / n) == self.modules@[k as int]);
            }
            if self.modules[k] {
                c = c + 1;
            }
            k = k + 1;
        }
        proof {
            assert(len == rows.len() * rows.len());
        }
        c
    }
}

/// For `0 <= k < n * n`, the row index `k / n` is a valid row.
proof fn lemma_div_in_range(k: int, n: int, bound: int)
    requires
        n >= 1,
        0 <= k < n * bound,
    ensures
        0 <= k / n < bound,
{
    lemma_fundamental_div_mod(k, n);
    if k / n >= bound {
        lemma_mul_inequality(bound, k / n, n);
    }
    if k / n < 0 {
        lemma_mul_inequality(k / n, -1, n);
    }
}

} // verus!
