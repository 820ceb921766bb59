//! The pixel classifier: maps an image to a boolean mask under a template,
//! and counts the matching cells.

use vstd::prelude::*;
use crate::image_data::Image;
use crate::matcher::Matcher;
use crate::types::MatchOptions;

verus! {

/// Count of true cells of `col` among indices `[0, n)`.
pub open spec fn col_hits(col: Seq<bool>, n: int) -> int
    decreases n,
{
    if n <= 0 {
        0
    } else {
        col_hits(col, n - 1) + if col[n - 1] {
            1int
        } else {
            0int
        }
    }
}

/// Count of true cells of columns `[0, n)` of `cells`, each counted over
/// row indices `[0, h)`.
pub open spec fn grid_hits(cells: Seq<Seq<bool>>, n: int, h: int) -> int
    decreases n,
{
    if n <= 0 {
        0
    } else {
        grid_hits(cells, n - 1, h) + col_hits(cells[n - 1], h)
    }
}

pub proof fn lemma_col_hits_bounds(col: Seq<bool>, n: int)
    requires
        n >= 0,
    ensures
        0 <= col_hits(col, n) <= n,
    decreases n,
{
    if n > 0 {
        lemma_col_hits_bounds(col, n - 1);
    }
}

pub proof fn lemma_grid_hits_bounds(cells: Seq<Seq<bool>>, n: int, h: int)
    requires
        n >= 0,
        h >= 0,
    ensures
        0 <= grid_hits(cells, n, h) <= n * h,
    decreases n,
{
    if n > 0 {
        lemma_grid_hits_bounds(cells, n - 1, h);
        lemma_col_hits_bounds(cells[n - 1], h);
        assert((n - 1) * h + h == n * h) by (nonlinear_arith);
    }
}

/// Two columns that agree on `[0, n)` have the same count there.
pub proof fn lemma_col_hits_ext(a: Seq<bool>, b: Seq<bool>, n: int)
    requires
        forall|j: int| 0 <= j < n ==> a[j] == b[j],
    ensures
        col_hits(a, n) == col_hits(b, n),
    decreases n,
{
    if n > 0 {
        lemma_col_hits_ext(a, b, n - 1);
    }
}

/// Two grids whose first `n` columns agree have the same count.
pub proof fn lemma_grid_hits_prefix(a: Seq<Seq<bool>>, b: Seq<Seq<bool>>, n: int, h: int)
    requires
        forall|x: int| 0 <= x < n ==> a[x] == b[x],
    ensures
        grid_hits(a, n, h) == grid_hits(b, n, h),
    decreases n,
{
    if n > 0 {
        lemma_grid_hits_prefix(a, b, n - 1, h);
    }
}

/// A boolean mask with the dimensions of the image it was classified from,
/// indexed column-first: `cells[x][y]`. `hits` counts the true cells.
pub struct Mask {
    pub width: usize,
    pub height: usize,
    pub cells: Vec<Vec<bool>>,
    pub hits: usize,
}

impl Mask {
    pub open spec fn wf(self) -> bool {
        &&& self.cells@.len() == self.width
        &&& forall|x: int| 0 <= x < self.width ==> (#[trigger] self.cells@[x])@.len()
            == self.height
        &&& self.hits == grid_hits(self.grid(), self.width as int, self.height as int)
    }

    /// The mask as a sequence of columns.
    pub open spec fn grid(self) -> Seq<Seq<bool>> {
        Seq::new(self.cells@.len(), |x: int| self.cells@[x]@)
    }

    /// The cell at `(x, y)`.
    pub open spec fn cell(self, x: int, y: int) -> bool {
        self.cells@[x]@[y]
    }

    /// Reads the cell at `(x, y)`.
    pub fn get(&self, x: usize, y: usize) -> (r: bool)
        requires
            self.wf(),
            x < self.width,
            y < self.height,
        ensures
            r == self.cell(x as int, y as int),
    {
        self.cells[x][y]
    }
}

/// Whether the classifier accepts pixel `(x, y)` of `area` under `template`.
pub open spec fn match_cell(area: Image, template: Matcher, force_distance: bool, x: int, y: int) -> bool {
    template.spec_matches(area.pixel_at(x, y), force_distance)
}

/// The ideal mask of `area` under `template`, as a sequence of columns.
pub open spec fn match_grid(area: Image, template: Matcher, force_distance: bool) -> Seq<Seq<bool>> {
    Seq::new(
        area.width as nat,
        |x: int| Seq::new(area.height as nat, |y: int| match_cell(area, template, force_distance, x, y)),
    )
}

/// The exact number of pixels of `area` that `template` accepts.
pub open spec fn match_count(area: Image, template: Matcher, force_distance: bool) -> int {
    grid_hits(match_grid(area, template, force_distance), area.width as int, area.height as int)
}

/// Classifies every pixel of `area` against `template`: cell `(x, y)` of the
/// mask is true exactly when the palette matcher accepts pixel `(x, y)`, and
/// `hits` is the exact number of accepted pixels.
pub fn process_area(area: &Image, template: &Matcher, options: MatchOptions) -> (m: Mask)
    requires
        area.wf(),
    ensures
        m.wf(),
        m.width == area.width,
        m.height == area.height,
        forall|x: int, y: int|
            0 <= x < area.width && 0 <= y < area.height ==> #[trigger] m.cell(x, y) == match_cell(
                *area,
                *template,
                options.force_distance,
                x,
                y,
            ),
        m.hits == match_count(*area, *template, options.force_distance),
        m.grid() == match_grid(*area, *template, options.force_distance),
{
    let width = area.width;
    let height = area.height;
    let pixel_total = area.pixels.len();
    proof {
        assert(pixel_total == width * height);
    }
    let mut cells: Vec<Vec<bool>> = Vec::new();
    let mut hits: usize = 0;
    let mut x: usize = 0;
    while x < width
        invariant
            area.wf(),
            width == area.width,
            height == area.height,
            pixel_total == width * height,
            pixel_total <= usize::MAX,
            0 <= x <= width,
            cells@.len() == x,
            forall|k: int| 0 <= k < x ==> (#[trigger] cells@[k])@.len() == height,
            forall|k: int, j: int|
                0 <= k < x && 0 <= j < height ==> #[trigger] cells@[k]@[j] == match_cell(
                    *area,
                    *template,
                    options.force_distance,
                    k,
                    j,
                ),
            hits == grid_hits(grid_of(cells@), x as int, height as int),
        decreases width - x,
    {
        proof {
            lemma_grid_hits_bounds(grid_of(cells@), x as int, height as int);
        }
        let mut col: Vec<bool> = Vec::new();
        let mut y: usize = 0;
        while y < height
            invariant
                area.wf(),
                width == area.width,
                height == area.height,
                pixel_total == width * height,
                pixel_total <= usize::MAX,
                0 <= x < width,
                0 <= y <= height,
                cells@.len() == x,
                col@.len() == y,
                forall|j: int| 0 <= j < y ==> #[trigger] col@[j] == match_cell(
                    *area,
                    *template,
                    options.force_distance,
                    x as int,
                    j,
                ),
                hits == grid_hits(grid_of(cells@), x as int, height as int) + col_hits(col@, y as int),
                grid_hits(grid_of(cells@), x as int, height as int) <= x * height,
                grid_hits(grid_of(cells@), x as int, height as int) >= 0,
            decreases height - y,
        {
            let p = area.pixel(x, y);
            let matched = template.check(&p, options.force_distance);
            proof {
                lemma_col_hits_bounds(col@, y as int);
                assert(x * height + y < width * height) by (nonlinear_arith)
                    requires
                        0 <= x < width,
                        0 <= y < height,
                ;
            }
            let ghost col0 = col@;
            col.push(matched);
            if matched {
                hits = hits + 1;
            }
            proof {
                lemma_col_hits_ext(col0, col@, y as int);
            }
            y = y + 1;
        }
        proof {
            let old_grid = grid_of(cells@);
            let new_grid = grid_of(cells@.push(col));
            lemma_grid_hits_prefix(old_grid, new_grid, x as int, height as int);
        }
        cells.push(col);
        x = x + 1;
    }
    let m = Mask { width, height, cells, hits };
    proof {
        assert(m.grid() =~= grid_of(m.cells@));
        assert(m.grid() =~~= match_grid(*area, *template, options.force_distance));
    }
    m
}

/// A vector of columns as a sequence of sequences.
pub open spec fn grid_of(cells: Seq<Vec<bool>>) -> Seq<Seq<bool>> {
    Seq::new(cells.len(), |x: int| cells[x]@)
}

} // verus!
