//! The block finder: locates the first all-true W x H window of a mask in
//! scan order (columns outer, rows inner), and the match pipeline that runs
//! the classifier, the early-exit gate and the finder in sequence.

use vstd::prelude::*;
use crate::image_data::Image;
use crate::mask::{Mask, col_hits, grid_hits, match_grid, process_area};
use crate::matcher::Matcher;
use crate::types::{ErrorKind, MatchOptions, Point, SearchResult};

verus! {

/// The W x H window of grid `g` whose top-left cell is `(ox, oy)` is all
/// true.
pub open spec fn window_true(g: Seq<Seq<bool>>, w: int, h: int, ox: int, oy: int) -> bool {
    forall|i: int, j: int| 0 <= i < w && 0 <= j < h ==> #[trigger] g[ox + i][oy + j]
}

/// The window origin `(ox, oy)` keeps a W x H window inside a
/// `width` x `height` grid.
pub open spec fn admissible(width: int, height: int, w: int, h: int, ox: int, oy: int) -> bool {
    0 <= ox && ox + w <= width && 0 <= oy && oy + h <= height
}

/// Origin `(ox1, oy1)` comes strictly before `(ox2, oy2)` in scan order:
/// smaller column first, then smaller row.
pub open spec fn scan_earlier(ox1: int, oy1: int, ox2: int, oy2: int) -> bool {
    ox1 < ox2 || (ox1 == ox2 && oy1 < oy2)
}

/// Some admissible window of the grid is all true.
pub open spec fn has_block(g: Seq<Seq<bool>>, width: int, height: int, w: int, h: int) -> bool {
    exists|ox: int, oy: int|
        admissible(width, height, w, h, ox, oy) && #[trigger] window_true(g, w, h, ox, oy)
}

/// `(ox, oy)` is the first admissible all-true window origin in scan order.
pub open spec fn first_block(
    g: Seq<Seq<bool>>,
    width: int,
    height: int,
    w: int,
    h: int,
    ox: int,
    oy: int,
) -> bool {
    &&& admissible(width, height, w, h, ox, oy)
    &&& window_true(g, w, h, ox, oy)
    &&& forall|ox2: int, oy2: int|
        admissible(width, height, w, h, ox2, oy2) && scan_earlier(ox2, oy2, ox, oy)
            ==> !#[trigger] window_true(g, w, h, ox2, oy2)
}

/// `(px, py)` is what the finder reports for the first all-true window: the
/// window's centre cell, offset into absolute screen space by the origin of
/// the captured rectangle.
pub open spec fn found_coords(
    g: Seq<Seq<bool>>,
    width: int,
    height: int,
    o: MatchOptions,
    origin: Point,
    px: int,
    py: int,
) -> bool {
    first_block(
        g,
        width,
        height,
        o.limit_x as int,
        o.limit_y as int,
        px - origin.pos1x - o.limit_x as int / 2,
        py - origin.pos1y - o.limit_y as int / 2,
    )
}

/// A column whose cells `[lo, hi)` are all true has at least `hi - lo` hits
/// among its first `n` cells, for `hi <= n`.
proof fn lemma_col_window_hits(col: Seq<bool>, lo: int, hi: int, n: int)
    requires
        0 <= lo <= hi <= n,
        forall|j: int| lo <= j < hi ==> col[j],
    ensures
        col_hits(col, n) >= hi - lo,
    decreases n,
{
    if n > lo {
        if n <= hi {
            lemma_col_window_hits(col, lo, n - 1, n - 1);
        } else {
            lemma_col_window_hits(col, lo, hi, n - 1);
            assert(col_hits(col, n) >= col_hits(col, n - 1));
        }
    } else {
        crate::mask::lemma_col_hits_bounds(col, n);
    }
}

/// Columns `[lo, hi)` each holding at least `h` hits contribute at least
/// `(hi - lo) * h` to the grid count over `[0, n)`, for `hi <= n`.
proof fn lemma_grid_window_hits(g: Seq<Seq<bool>>, lo: int, hi: int, n: int, height: int, h: int)
    requires
        0 <= lo <= hi <= n,
        h >= 0,
        height >= 0,
        forall|x: int| lo <= x < hi ==> col_hits(#[trigger] g[x], height) >= h,
    ensures
        grid_hits(g, n, height) >= grid_hits(g, lo, height) + (hi - lo) * h,
    decreases n,
{
    if n > lo {
        if n <= hi {
            lemma_grid_window_hits(g, lo, n - 1, n - 1, height, h);
            assert((n - 1 - lo) * h + h == (n - lo) * h) by (nonlinear_arith);
        } else {
            lemma_grid_window_hits(g, lo, hi, n - 1, height, h);
            crate::mask::lemma_col_hits_bounds(g[n - 1], height);
        }
    } else {
        assert((hi - lo) * h == 0 * h);
    }
}

/// If some admissible W x H window of the grid is all true, the grid holds
/// at least W * H true cells. Contrapositively: with fewer than W * H hits,
/// no block can exist, which justifies the early-exit gate of the pipeline.
pub proof fn lemma_block_implies_hits(
    g: Seq<Seq<bool>>,
    width: int,
    height: int,
    w: int,
    h: int,
    ox: int,
    oy: int,
)
    requires
        w >= 0,
        h >= 0,
        admissible(width, height, w, h, ox, oy),
        window_true(g, w, h, ox, oy),
    ensures
        grid_hits(g, width, height) >= w * h,
{
    assert forall|x: int| ox <= x < ox + w implies col_hits(#[trigger] g[x], height) >= h by {
        assert forall|j: int| oy <= j < oy + h implies g[x][j] by {
            assert(g[(ox + (x - ox))][(oy + (j - oy))]);
        }
        lemma_col_window_hits(g[x], oy, oy + h, height);
        crate::mask::lemma_col_hits_bounds(g[x], oy);
        assert(col_hits(g[x], height) >= oy + h - oy);
    }
    lemma_grid_window_hits(g, ox, ox + w, width, height, h);
    crate::mask::lemma_grid_hits_bounds(g, ox, height);
    assert((ox + w - ox) * h == w * h);
}

/// A mask with fewer hits than a window holds admits no block at all, so
/// the finder reports `NotFound` whenever `hits < W * H`.
pub proof fn lemma_low_hits_no_block(m: Mask, w: int, h: int)
    requires
        m.wf(),
        w >= 0,
        h >= 0,
        m.hits < w * h,
    ensures
        !has_block(m.grid(), m.width as int, m.height as int, w, h),
{
    if has_block(m.grid(), m.width as int, m.height as int, w, h) {
        let (ox, oy) = choose|ox: int, oy: int|
            admissible(m.width as int, m.height as int, w, h, ox, oy) && #[trigger] window_true(
                m.grid(),
                w,
                h,
                ox,
                oy,
            );
        lemma_block_implies_hits(m.grid(), m.width as int, m.height as int, w, h, ox, oy);
    }
}

/// What a reported hit means. Offset back from the capture origin, the
/// W x H box centred on the reported coordinate is true everywhere in the
/// grid, and no window whose origin comes earlier in scan order is all
/// true.
pub proof fn lemma_found_coords_box(
    g: Seq<Seq<bool>>,
    width: int,
    height: int,
    o: MatchOptions,
    origin: Point,
    px: int,
    py: int,
)
    requires
        found_coords(g, width, height, o, origin, px, py),
    ensures
        forall|x: int, y: int|
            px - origin.pos1x - o.limit_x as int / 2 <= x < px - origin.pos1x - o.limit_x as int
                / 2 + o.limit_x && py - origin.pos1y - o.limit_y as int / 2 <= y < py
                - origin.pos1y - o.limit_y as int / 2 + o.limit_y ==> #[trigger] g[x][y],
        forall|ox2: int, oy2: int|
            admissible(width, height, o.limit_x as int, o.limit_y as int, ox2, oy2) && scan_earlier(
                ox2,
                oy2,
                px - origin.pos1x - o.limit_x as int / 2,
                py - origin.pos1y - o.limit_y as int / 2,
            ) ==> !#[trigger] window_true(g, o.limit_x as int, o.limit_y as int, ox2, oy2),
{
    let ox = px - origin.pos1x - o.limit_x as int / 2;
    let oy = py - origin.pos1y - o.limit_y as int / 2;
    assert forall|x: int, y: int|
        ox <= x < ox + o.limit_x && oy <= y < oy + o.limit_y implies #[trigger] g[x][y] by {
        assert(window_true(g, o.limit_x as int, o.limit_y as int, ox, oy));
        assert(g[(ox + (x - ox))][(oy + (y - oy))]);
    }
}

/// Whether the W x H window at origin `(ox, oy)` of the mask is all true.
fn window_check(mask: &Mask, ox: usize, oy: usize, lx: usize, ly: usize) -> (r: bool)
    requires
        mask.wf(),
        ox + lx <= mask.width,
        oy + ly <= mask.height,
    ensures
        r == window_true(mask.grid(), lx as int, ly as int, ox as int, oy as int),
{
    let mut i: usize = 0;
    while i < lx
        invariant
            mask.wf(),
            ox + lx <= mask.width,
            oy + ly <= mask.height,
            0 <= i <= lx,
            forall|i2: int, j2: int|
                0 <= i2 < i && 0 <= j2 < ly ==> #[trigger] mask.grid()[ox + i2][oy + j2],
        decreases lx - i,
    {
        let mut j: usize = 0;
        while j < ly
            invariant
                mask.wf(),
                ox + lx <= mask.width,
                oy + ly <= mask.height,
                0 <= i < lx,
                0 <= j <= ly,
                forall|i2: int, j2: int|
                    0 <= i2 < i && 0 <= j2 < ly ==> #[trigger] mask.grid()[ox + i2][oy + j2],
                forall|j2: int| 0 <= j2 < j ==> #[trigger] mask.grid()[ox + i][oy + j2],
            decreases ly - j,
        {
            if !mask.get(ox + i, oy + j) {
                assert(!mask.grid()[ox + i as int][oy + j as int]);
                return false;
            }
            j = j + 1;
        }
        i = i + 1;
    }
    true
}

/// Finds the first admissible all-true `limit_x` x `limit_y` window of the
/// mask in scan order (columns outer, rows inner) and reports its centre
/// cell offset by the capture origin `point`; reports `NotFound` when no
/// admissible window is all true.
pub fn match_algorithm(point: Point, mask: &Mask, options: MatchOptions) -> (r: SearchResult)
    requires
        mask.wf(),
        options.wf(),
        options.limit_x <= mask.width,
        options.limit_y <= mask.height,
        point.pos1x >= 0,
        point.pos1y >= 0,
        mask.width + point.pos1x <= usize::MAX,
        mask.height + point.pos1y <= usize::MAX,
    ensures
        (r is Found) == has_block(
            mask.grid(),
            mask.width as int,
            mask.height as int,
            options.limit_x as int,
            options.limit_y as int,
        ),
        r matches SearchResult::Found(px, py) ==> found_coords(
            mask.grid(),
            mask.width as int,
            mask.height as int,
            options,
            point,
            px as int,
            py as int,
        ),
{
    let w = mask.width;
    let h = mask.height;
    let lx = options.limit_x();
    let ly = options.limit_y();
    let mut ox: usize = 0;
    while ox <= w - lx
        invariant
            mask.wf(),
            mask.width == w,
            mask.height == h,
            options.wf(),
            options.limit_x == lx,
            options.limit_y == ly,
            lx <= w,
            ly <= h,
            point.pos1x >= 0,
            point.pos1y >= 0,
            w + point.pos1x <= usize::MAX,
            h + point.pos1y <= usize::MAX,
            0 <= ox <= w - lx + 1,
            forall|ox2: int, oy2: int|
                admissible(w as int, h as int, lx as int, ly as int, ox2, oy2) && ox2 < ox
                    ==> !#[trigger] window_true(mask.grid(), lx as int, ly as int, ox2, oy2),
        decreases w - ox,
    {
        let mut oy: usize = 0;
        while oy <= h - ly
            invariant
                mask.wf(),
                mask.width == w,
                mask.height == h,
                options.wf(),
                options.limit_x == lx,
                options.limit_y == ly,
                lx <= w,
                ly <= h,
                point.pos1x >= 0,
                point.pos1y >= 0,
                w + point.pos1x <= usize::MAX,
                h + point.pos1y <= usize::MAX,
                0 <= ox <= w - lx,
                0 <= oy <= h - ly + 1,
                forall|ox2: int, oy2: int|
                    admissible(w as int, h as int, lx as int, ly as int, ox2, oy2) && ox2 < ox
                        ==> !#[trigger] window_true(mask.grid(), lx as int, ly as int, ox2, oy2),
                forall|oy2: int|
                    0 <= oy2 < oy ==> !#[trigger] window_true(
                        mask.grid(),
                        lx as int,
                        ly as int,
                        ox as int,
                        oy2,
                    ),
            decreases h - oy,
        {
            if window_check(mask, ox, oy, lx, ly) {
                let px = ox + lx / 2 + (point.pos1x as usize);
                let py = oy + ly / 2 + (point.pos1y as usize);
                return SearchResult::Found(px, py);
            }
            oy = oy + 1;
        }
        ox = ox + 1;
    }
    proof {
        assert forall|ox2: int, oy2: int|
            admissible(w as int, h as int, lx as int, ly as int, ox2, oy2)
            implies !window_true(mask.grid(), lx as int, ly as int, ox2, oy2) by {
            assert(ox2 < ox);
        }
    }
    SearchResult::NotFound
}

/// Runs the match pipeline on a captured image: classify every pixel, skip
/// the block search when fewer pixels matched than a window holds, else
/// search for the first all-true window. A window larger than the image is
/// a programmer error.
pub fn check_image_match(
    area: &Image,
    template: &Matcher,
    options: MatchOptions,
    point: Point,
) -> (r: Result<SearchResult, ErrorKind>)
    requires
        area.wf(),
        options.wf(),
        point.pos1x >= 0,
        point.pos1y >= 0,
        area.width + point.pos1x <= usize::MAX,
        area.height + point.pos1y <= usize::MAX,
    ensures
        r is Err <==> options.limit_x > area.width || options.limit_y > area.height,
        r is Err ==> r == Result::<SearchResult, ErrorKind>::Err(ErrorKind::Internal),
        r matches Ok(sr) ==> {
            &&& (sr is Found) == has_block(
                match_grid(*area, *template, options.force_distance),
                area.width as int,
                area.height as int,
                options.limit_x as int,
                options.limit_y as int,
            )
            &&& (sr matches SearchResult::Found(px, py) ==> found_coords(
                match_grid(*area, *template, options.force_distance),
                area.width as int,
                area.height as int,
                options,
                point,
                px as int,
                py as int,
            ))
        },
{
    if options.limit_x() > area.width || options.limit_y() > area.height {
        return Err(ErrorKind::Internal);
    }
    let m = process_area(area, template, options);
    let pixel_total = area.pixels.len();
    proof {
        assert(pixel_total == area.width * area.height);
        assert(options.limit_x * options.limit_y <= area.width * area.height)
            by (nonlinear_arith)
            requires
                0 <= options.limit_x <= area.width,
                0 <= options.limit_y <= area.height,
        ;
    }
    let needed = options.limit_x() * options.limit_y();
    if m.hits < needed {
        proof {
            let g = match_grid(*area, *template, options.force_distance);
            if has_block(g, area.width as int, area.height as int, options.limit_x as int,
                options.limit_y as int) {
                let (ox, oy) = choose|ox: int, oy: int|
                    admissible(
                        area.width as int,
                        area.height as int,
                        options.limit_x as int,
                        options.limit_y as int,
                        ox,
                        oy,
                    ) && #[trigger] window_true(g, options.limit_x as int, options.limit_y as int, ox, oy);
                lemma_block_implies_hits(
                    g,
                    area.width as int,
                    area.height as int,
                    options.limit_x as int,
                    options.limit_y as int,
                    ox,
                    oy,
                );
            }
        }
        return Ok(SearchResult::NotFound);
    }
    Ok(match_algorithm(point, &m, options))
}

} // verus!
