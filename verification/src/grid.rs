//! Geometry of the rendered window and layout of the output buffer.
//!
//! Only a sub-rectangle of the conceptual `n x n` grid is rendered: the
//! pixel column `x` ranges over `[0, 5n/8)` and the pixel row `y` over
//! `[2n/10, 8n/10)`, with integer division throughout.  Cells are stored with
//! the column as the major axis: the cell for `(x, y)` sits at index
//! `x * height + y` (with `y` counted from the lower edge of the window).

use vstd::prelude::*;

verus! {

/// Width of the rendered window: the pixel column ranges over `[0, 5n/8)`.
pub open spec fn width_spec(n: int) -> int {
    5 * n / 8
}

/// Lower edge (inclusive) of the rendered rows: `2n/10`.
pub open spec fn y_lower_spec(n: int) -> int {
    2 * n / 10
}

/// Upper edge (exclusive) of the rendered rows: `8n/10`.
pub open spec fn y_upper_spec(n: int) -> int {
    8 * n / 10
}

/// Height of the rendered window: `8n/10 - 2n/10`.
pub open spec fn height_spec(n: int) -> int {
    y_upper_spec(n) - y_lower_spec(n)
}

/// Width of the window rendered for a conceptual grid of side `n`.
pub fn grid_width(n: usize) -> (w: usize)
    requires
        8 * n <= usize::MAX,
    ensures
        w == width_spec(n as int),
{
    (5 * n) / 8
}

/// First rendered row of the window for a conceptual grid of side `n`.
pub fn y_lower(n: usize) -> (r: usize)
    requires
        8 * n <= usize::MAX,
    ensures
        r == y_lower_spec(n as int),
{
    (2 * n) / 10
}

/// One past the last rendered row of the window for a grid of side `n`.
pub fn y_upper(n: usize) -> (r: usize)
    requires
        8 * n <= usize::MAX,
    ensures
        r == y_upper_spec(n as int),
{
    (8 * n) / 10
}

/// Height of the window rendered for a conceptual grid of side `n`.
pub fn grid_height(n: usize) -> (h: usize)
    requires
        8 * n <= usize::MAX,
    ensures
        h == height_spec(n as int),
{
    proof {
        vstd::arithmetic::div_mod::lemma_div_is_ordered(2 * n as int, 8 * n as int, 10);
    }
    (8 * n) / 10 - (2 * n) / 10
}

/// Index arithmetic of the column-major cell layout: for `0 <= x < w` and
/// `0 <= y < h`, the flat index `x * h + y` lies in `[0, w * h)` and recovers
/// `x` and `y` by division and remainder.
pub proof fn lemma_cell_index(w: int, h: int, x: int, y: int)
    requires
        0 <= x < w,
        0 <= y < h,
    ensures
        0 <= x * h + y < w * h,
        (x * h + y) / h == x,
        (x * h + y) % h == y,
{
    vstd::arithmetic::mul::lemma_mul_nonnegative(x, h);
    vstd::arithmetic::mul::lemma_mul_inequality(x + 1, w, h);
    assert((x + 1) * h == x * h + h) by (nonlinear_arith);
    vstd::arithmetic::div_mod::lemma_fundamental_div_mod_converse(x * h + y, h, x, y);
}

/// The rendered coordinates, in evaluation order: the pair at position `k`
/// is `(k / height, y_lower + k % height)`, so the column is the major axis
/// and the cell for `(x, y)` sits at `x * height + (y - y_lower)`.  A grid
/// of side 0 has an empty window and yields no coordinates.
pub fn coordinates(n: usize) -> (pairs: Vec<(usize, usize)>)
    requires
        8 * n <= usize::MAX,
        width_spec(n as int) * height_spec(n as int) <= usize::MAX,
    ensures
        pairs@.len() == width_spec(n as int) * height_spec(n as int),
        forall|k: int|
            0 <= k < pairs@.len() ==> (#[trigger] pairs@[k]).0 == k / height_spec(n as int)
                && pairs@[k].1 == y_lower_spec(n as int) + k % height_spec(n as int),
{
    let w = grid_width(n);
    let h = grid_height(n);
    let yl = y_lower(n);
    let mut pairs: Vec<(usize, usize)> = Vec::new();
    if w == 0 || h == 0 {
        proof {
            vstd::arithmetic::mul::lemma_mul_by_zero_is_zero(
                if w == 0 { height_spec(n as int) } else { width_spec(n as int) },
            );
        }
        return pairs;
    }
    let total = w * h;
    let mut k: usize = 0;
    while k < total
        invariant
            h == height_spec(n as int),
            0 < h,
            yl == y_lower_spec(n as int),
            yl + h <= usize::MAX,
            total == width_spec(n as int) * height_spec(n as int),
            k <= total,
            pairs@.len() == k,
            forall|j: int|
                0 <= j < k ==> (#[trigger] pairs@[j]).0 == j / height_spec(n as int)
                    && pairs@[j].1 == y_lower_spec(n as int) + j % height_spec(n as int),
        decreases total - k,
    {
        let x = k / h;
        let y = yl + k % h;
        pairs.push((x, y));
        k = k + 1;
    }
    pairs
}

/// Each cell of the window is evaluated exactly once: in a coordinate list
/// of the shape `coordinates` returns, the cell in column `x` and row `y`
/// (rows counted from the lower window edge) stands at position
/// `x * height + y` and at no other position.
pub proof fn lemma_coordinates_cover(n: int, pairs: Seq<(usize, usize)>, x: int, y: int)
    requires
        pairs.len() == width_spec(n) * height_spec(n),
        forall|k: int|
            0 <= k < pairs.len() ==> (#[trigger] pairs[k]).0 == k / height_spec(n)
                && pairs[k].1 == y_lower_spec(n) + k % height_spec(n),
        0 <= x < width_spec(n),
        0 <= y < height_spec(n),
    ensures
        pairs[x * height_spec(n) + y].0 == x,
        pairs[x * height_spec(n) + y].1 == y_lower_spec(n) + y,
        forall|k: int|
            0 <= k < pairs.len() && (#[trigger] pairs[k]).0 == x
                && pairs[k].1 == y_lower_spec(n) + y ==> k == x * height_spec(n) + y,
{
    let w = width_spec(n);
    let h = height_spec(n);
    lemma_cell_index(w, h, x, y);
    assert(pairs[x * h + y].0 == (x * h + y) / h);
    assert forall|k: int|
        0 <= k < pairs.len() && (#[trigger] pairs[k]).0 == x
            && pairs[k].1 == y_lower_spec(n) + y implies k == x * h + y by {
        vstd::arithmetic::div_mod::lemma_fundamental_div_mod(k, h);
    };
}

/// Intensity stored for an escape value: interior points (large values) come
/// out bright and fast escapes come out dark.
pub fn invert_intensity(v: u8) -> (r: u8)
    ensures
        r == 255 - v,
{
    255 - v
}

/// The rendered window: a two-dimensional byte buffer of shape
/// `(width, height)` whose cell `(x, y)` is stored at `x * height + y`.
pub struct Image {
    pub width: usize,
    pub height: usize,
    pub cells: Vec<u8>,
}

impl Image {
    /// The buffer holds exactly one byte per cell of the window.
    pub open spec fn wf(self) -> bool {
        self.cells.len() == self.width * self.height
    }

    /// The byte stored for the cell in column `x` and row `y` (rows counted
    /// from the lower edge of the window).
    pub open spec fn cell(self, x: int, y: int) -> u8 {
        self.cells[x * self.height + y]
    }

    /// Wrap a flat list of per-cell bytes, listed in evaluation order, as an
    /// image of the given shape.
    pub fn from_cells(width: usize, height: usize, cells: Vec<u8>) -> (img: Image)
        requires
            cells.len() == width * height,
        ensures
            img.wf(),
            img.width == width,
            img.height == height,
            img.cells@ == cells@,
    {
        Image { width, height, cells }
    }

    /// Read the byte of the cell in column `x` and row `y`.
    pub fn get(&self, x: usize, y: usize) -> (v: u8)
        requires
            self.wf(),
            x < self.width,
            y < self.height,
        ensures
            v == self.cell(x as int, y as int),
    {
        proof {
            lemma_cell_index(self.width as int, self.height as int, x as int, y as int);
        }
        self.cells[x * self.height + y]
    }
}

/// Assemble the rendered window for a grid of side `n` from its per-cell
/// bytes, listed in evaluation order.  The image always has the cropped
/// shape `(5n/8, 8n/10 - 2n/10)`; a side of 0 yields the empty image.
pub fn assemble(n: usize, cells: Vec<u8>) -> (img: Image)
    requires
        8 * n <= usize::MAX,
        cells.len() == width_spec(n as int) * height_spec(n as int),
    ensures
        img.wf(),
        img.width == width_spec(n as int),
        img.height == height_spec(n as int),
        img.cells@ == cells@,
{
    let w = grid_width(n);
    let h = grid_height(n);
    Image::from_cells(w, h, cells)
}

} // verus!
