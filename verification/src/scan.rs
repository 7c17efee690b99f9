use vstd::prelude::*;
use crate::luma::{contrast_le, contrast_ratio_le, luminance_of, luminance_rgb, LUMA_SCALE};
use crate::pixel::{lemma_rm_index_bound, PixelBuffer};

verus! {

/// Side of the square scan window for a given radius.
pub open spec fn window_side(radius: int) -> int {
    2 * radius + 1
}

/// Whether the neighbor at `(nx, ny)` is counted for the center `(x, y)`:
/// it lies in bounds, is not the center itself, its luminance is not exactly
/// equal to the center's, and its contrast ratio against the center is at or
/// below the threshold.
pub open spec fn neighbor_counted(
    luma: Seq<u64>,
    w: int,
    h: int,
    x: int,
    y: int,
    t_milli: u32,
    nx: int,
    ny: int,
) -> bool {
    &&& 0 <= nx < w
    &&& 0 <= ny < h
    &&& !(nx == x && ny == y)
    &&& luma[ny * w + nx] != luma[y * w + x]
    &&& contrast_le(luma[y * w + x], luma[ny * w + nx], t_milli)
}

/// Counted neighbors among `(x + dx, y + dy)` for `dx` in `[dx0, dx0 + n)`,
/// at a fixed row offset `dy`.
pub open spec fn count_row(
    luma: Seq<u64>,
    w: int,
    h: int,
    x: int,
    y: int,
    t_milli: u32,
    dy: int,
    dx0: int,
    n: nat,
) -> nat
    decreases n,
{
    if n == 0 {
        0
    } else {
        count_row(luma, w, h, x, y, t_milli, dy, dx0, (n - 1) as nat) + (if neighbor_counted(
            luma,
            w,
            h,
            x,
            y,
            t_milli,
            x + dx0 + n - 1,
            y + dy,
        ) {
            1nat
        } else {
            0nat
        })
    }
}

/// Counted neighbors over the rows `dy` in `[dy0, dy0 + m)`, each row
/// spanning `dx` in `[-radius, radius]`.
pub open spec fn count_rows(
    luma: Seq<u64>,
    w: int,
    h: int,
    x: int,
    y: int,
    t_milli: u32,
    radius: int,
    dy0: int,
    m: nat,
) -> nat
    decreases m,
{
    if m == 0 {
        0
    } else {
        count_rows(luma, w, h, x, y, t_milli, radius, dy0, (m - 1) as nat) + count_row(
            luma,
            w,
            h,
            x,
            y,
            t_milli,
            dy0 + m - 1,
            -radius,
            (2 * radius + 1) as nat,
        )
    }
}

/// The low-contrast neighbor count of the pixel `(x, y)`: counted neighbors
/// over every offset of the `(2*radius+1)` square window centered there.
pub open spec fn count_at(
    luma: Seq<u64>,
    w: int,
    h: int,
    x: int,
    y: int,
    t_milli: u32,
    radius: int,
) -> nat {
    count_rows(luma, w, h, x, y, t_milli, radius, -radius, (2 * radius + 1) as nat)
}

/// A row contributes at most one count per offset.
pub proof fn lemma_count_row_le(
    luma: Seq<u64>,
    w: int,
    h: int,
    x: int,
    y: int,
    t_milli: u32,
    dy: int,
    dx0: int,
    n: nat,
)
    ensures
        count_row(luma, w, h, x, y, t_milli, dy, dx0, n) <= n,
    decreases n,
{
    if n > 0 {
        lemma_count_row_le(luma, w, h, x, y, t_milli, dy, dx0, (n - 1) as nat);
    }
}

/// The center row never counts the center pixel itself.
pub proof fn lemma_count_row_center(
    luma: Seq<u64>,
    w: int,
    h: int,
    x: int,
    y: int,
    t_milli: u32,
    dx0: int,
    n: nat,
)
    requires
        dx0 <= 0 < dx0 + n,
    ensures
        count_row(luma, w, h, x, y, t_milli, 0, dx0, n) <= n - 1,
    decreases n,
{
    if dx0 + n - 1 == 0 {
        lemma_count_row_le(luma, w, h, x, y, t_milli, 0, dx0, (n - 1) as nat);
        assert(!neighbor_counted(luma, w, h, x, y, t_milli, x, y));
    } else {
        lemma_count_row_center(luma, w, h, x, y, t_milli, dx0, (n - 1) as nat);
    }
}

/// Rows contribute at most the window side each.
pub proof fn lemma_count_rows_le(
    luma: Seq<u64>,
    w: int,
    h: int,
    x: int,
    y: int,
    t_milli: u32,
    radius: int,
    dy0: int,
    m: nat,
)
    requires
        radius >= 0,
    ensures
        count_rows(luma, w, h, x, y, t_milli, radius, dy0, m) <= m * window_side(radius),
    decreases m,
{
    let s = window_side(radius);
    if m > 0 {
        lemma_count_rows_le(luma, w, h, x, y, t_milli, radius, dy0, (m - 1) as nat);
        lemma_count_row_le(luma, w, h, x, y, t_milli, dy0 + m - 1, -radius, (2 * radius + 1) as nat);
        assert((m - 1) * s + s == m * s) by (nonlinear_arith);
    } else {
        assert(m * s == 0) by (nonlinear_arith)
            requires
                m == 0,
        ;
    }
}

/// Rows that include the center row count strictly less than the full
/// window.
pub proof fn lemma_count_rows_center(
    luma: Seq<u64>,
    w: int,
    h: int,
    x: int,
    y: int,
    t_milli: u32,
    radius: int,
    dy0: int,
    m: nat,
)
    requires
        radius >= 0,
        dy0 <= 0 < dy0 + m,
    ensures
        count_rows(luma, w, h, x, y, t_milli, radius, dy0, m) <= m * window_side(radius) - 1,
    decreases m,
{
    let s = window_side(radius);
    if dy0 + m - 1 == 0 {
        lemma_count_rows_le(luma, w, h, x, y, t_milli, radius, dy0, (m - 1) as nat);
        lemma_count_row_center(luma, w, h, x, y, t_milli, -radius, (2 * radius + 1) as nat);
        assert((m - 1) * s + s == m * s) by (nonlinear_arith);
    } else {
        lemma_count_rows_center(luma, w, h, x, y, t_milli, radius, dy0, (m - 1) as nat);
        lemma_count_row_le(luma, w, h, x, y, t_milli, dy0 + m - 1, -radius, (2 * radius + 1) as nat);
        assert((m - 1) * s + s == m * s) by (nonlinear_arith);
    }
}

/// The count is bounded by the window size minus the center.
pub proof fn lemma_count_at_bound(
    luma: Seq<u64>,
    w: int,
    h: int,
    x: int,
    y: int,
    t_milli: u32,
    radius: int,
)
    requires
        radius >= 0,
    ensures
        count_at(luma, w, h, x, y, t_milli, radius) <= window_side(radius) * window_side(radius)
            - 1,
{
    lemma_count_rows_center(luma, w, h, x, y, t_milli, radius, -radius, (2 * radius + 1) as nat);
}

/// A row with no counted neighbor contributes nothing.
pub proof fn lemma_count_row_zero(
    luma: Seq<u64>,
    w: int,
    h: int,
    x: int,
    y: int,
    t_milli: u32,
    dy: int,
    dx0: int,
    n: nat,
)
    requires
        forall|dx: int|
            dx0 <= dx < dx0 + n ==> !(#[trigger] neighbor_counted(
                luma,
                w,
                h,
                x,
                y,
                t_milli,
                x + dx,
                y + dy,
            )),
    ensures
        count_row(luma, w, h, x, y, t_milli, dy, dx0, n) == 0,
    decreases n,
{
    if n > 0 {
        lemma_count_row_zero(luma, w, h, x, y, t_milli, dy, dx0, (n - 1) as nat);
        assert(!neighbor_counted(luma, w, h, x, y, t_milli, x + (dx0 + n - 1), y + dy));
    }
}

/// A pixel with no counted neighbor anywhere in the window has count 0.
pub proof fn lemma_count_at_zero(
    luma: Seq<u64>,
    w: int,
    h: int,
    x: int,
    y: int,
    t_milli: u32,
    radius: int,
)
    requires
        radius >= 0,
        forall|dx: int, dy: int|
            -radius <= dx <= radius && -radius <= dy <= radius ==> !(#[trigger] neighbor_counted(
                luma,
                w,
                h,
                x,
                y,
                t_milli,
                x + dx,
                y + dy,
            )),
    ensures
        count_at(luma, w, h, x, y, t_milli, radius) == 0,
{
    lemma_count_rows_zero(luma, w, h, x, y, t_milli, radius, -radius, (2 * radius + 1) as nat);
}

/// Rows of uncounted neighbors contribute nothing.
pub proof fn lemma_count_rows_zero(
    luma: Seq<u64>,
    w: int,
    h: int,
    x: int,
    y: int,
    t_milli: u32,
    radius: int,
    dy0: int,
    m: nat,
)
    requires
        radius >= 0,
        forall|dx: int, dy: int|
            -radius <= dx <= radius && dy0 <= dy < dy0 + m ==> !(#[trigger] neighbor_counted(
                luma,
                w,
                h,
                x,
                y,
                t_milli,
                x + dx,
                y + dy,
            )),
    ensures
        count_rows(luma, w, h, x, y, t_milli, radius, dy0, m) == 0,
    decreases m,
{
    if m > 0 {
        lemma_count_rows_zero(luma, w, h, x, y, t_milli, radius, dy0, (m - 1) as nat);
        assert forall|dx: int|
            -radius <= dx < -radius + ((2 * radius + 1) as nat) implies !(#[trigger] neighbor_counted(
            luma,
            w,
            h,
            x,
            y,
            t_milli,
            x + dx,
            y + (dy0 + m - 1),
        )) by {
            assert(!neighbor_counted(luma, w, h, x, y, t_milli, x + dx, y + (dy0 + m - 1)));
        }
        lemma_count_row_zero(
            luma,
            w,
            h,
            x,
            y,
            t_milli,
            dy0 + m - 1,
            -radius,
            (2 * radius + 1) as nat,
        );
    }
}

/// Whether `(nx, ny)` is an in-bounds neighbor of the center `(x, y)`:
/// inside the image and not the center itself.
pub open spec fn neighbor_in_bounds(w: int, h: int, x: int, y: int, nx: int, ny: int) -> bool {
    0 <= nx < w && 0 <= ny < h && !(nx == x && ny == y)
}

/// Whether `(nx, ny)` is an in-bounds neighbor whose luminance is exactly
/// equal to the center's, the case the scanner skips.
pub open spec fn neighbor_equal(
    luma: Seq<u64>,
    w: int,
    h: int,
    x: int,
    y: int,
    nx: int,
    ny: int,
) -> bool {
    neighbor_in_bounds(w, h, x, y, nx, ny) && luma[ny * w + nx] == luma[y * w + x]
}

/// In-bounds neighbors among `(x + dx, y + dy)` for `dx` in `[dx0, dx0 + n)`.
pub open spec fn in_bounds_row(
    w: int,
    h: int,
    x: int,
    y: int,
    dy: int,
    dx0: int,
    n: nat,
) -> nat
    decreases n,
{
    if n == 0 {
        0
    } else {
        in_bounds_row(w, h, x, y, dy, dx0, (n - 1) as nat) + (if neighbor_in_bounds(
            w,
            h,
            x,
            y,
            x + dx0 + n - 1,
            y + dy,
        ) {
            1nat
        } else {
            0nat
        })
    }
}

/// Equal-luminance neighbors among `(x + dx, y + dy)` for `dx` in
/// `[dx0, dx0 + n)`.
pub open spec fn equal_row(
    luma: Seq<u64>,
    w: int,
    h: int,
    x: int,
    y: int,
    dy: int,
    dx0: int,
    n: nat,
) -> nat
    decreases n,
{
    if n == 0 {
        0
    } else {
        equal_row(luma, w, h, x, y, dy, dx0, (n - 1) as nat) + (if neighbor_equal(
            luma,
            w,
            h,
            x,
            y,
            x + dx0 + n - 1,
            y + dy,
        ) {
            1nat
        } else {
            0nat
        })
    }
}

/// In-bounds neighbors over the rows `dy` in `[dy0, dy0 + m)` of the window.
pub open spec fn in_bounds_rows(
    w: int,
    h: int,
    x: int,
    y: int,
    radius: int,
    dy0: int,
    m: nat,
) -> nat
    decreases m,
{
    if m == 0 {
        0
    } else {
        in_bounds_rows(w, h, x, y, radius, dy0, (m - 1) as nat) + in_bounds_row(
            w,
            h,
            x,
            y,
            dy0 + m - 1,
            -radius,
            (2 * radius + 1) as nat,
        )
    }
}

/// Equal-luminance neighbors over the rows `dy` in `[dy0, dy0 + m)`.
pub open spec fn equal_rows(
    luma: Seq<u64>,
    w: int,
    h: int,
    x: int,
    y: int,
    radius: int,
    dy0: int,
    m: nat,
) -> nat
    decreases m,
{
    if m == 0 {
        0
    } else {
        equal_rows(luma, w, h, x, y, radius, dy0, (m - 1) as nat) + equal_row(
            luma,
            w,
            h,
            x,
            y,
            dy0 + m - 1,
            -radius,
            (2 * radius + 1) as nat,
        )
    }
}

/// The number of in-bounds neighbors in the window around `(x, y)`.
pub open spec fn window_neighbors_at(w: int, h: int, x: int, y: int, radius: int) -> nat {
    in_bounds_rows(w, h, x, y, radius, -radius, (2 * radius + 1) as nat)
}

/// The number of in-bounds window neighbors of exactly equal luminance.
pub open spec fn equal_neighbors_at(
    luma: Seq<u64>,
    w: int,
    h: int,
    x: int,
    y: int,
    radius: int,
) -> nat {
    equal_rows(luma, w, h, x, y, radius, -radius, (2 * radius + 1) as nat)
}

/// In a row where every differing in-bounds neighbor passes the threshold,
/// the count is exactly the in-bounds neighbors minus the equal ones.
proof fn lemma_count_row_saturated(
    luma: Seq<u64>,
    w: int,
    h: int,
    x: int,
    y: int,
    t_milli: u32,
    dy: int,
    dx0: int,
    n: nat,
)
    requires
        forall|dx: int|
            dx0 <= dx < dx0 + n && #[trigger] neighbor_in_bounds(w, h, x, y, x + dx, y + dy)
                && luma[(y + dy) * w + (x + dx)] != luma[y * w + x] ==> contrast_le(
                luma[y * w + x],
                luma[(y + dy) * w + (x + dx)],
                t_milli,
            ),
    ensures
        count_row(luma, w, h, x, y, t_milli, dy, dx0, n) + equal_row(
            luma,
            w,
            h,
            x,
            y,
            dy,
            dx0,
            n,
        ) == in_bounds_row(w, h, x, y, dy, dx0, n),
    decreases n,
{
    if n > 0 {
        lemma_count_row_saturated(luma, w, h, x, y, t_milli, dy, dx0, (n - 1) as nat);
        let dxl = dx0 + n - 1;
        if neighbor_in_bounds(w, h, x, y, x + dxl, y + dy) && luma[(y + dy) * w + (x + dxl)]
            != luma[y * w + x] {
            assert(contrast_le(luma[y * w + x], luma[(y + dy) * w + (x + dxl)], t_milli));
        }
    }
}

/// Rows of saturated neighbors, summed.
proof fn lemma_count_rows_saturated(
    luma: Seq<u64>,
    w: int,
    h: int,
    x: int,
    y: int,
    t_milli: u32,
    radius: int,
    dy0: int,
    m: nat,
)
    requires
        radius >= 0,
        forall|dx: int, dy: int|
            -radius <= dx <= radius && dy0 <= dy < dy0 + m && #[trigger] neighbor_in_bounds(
                w,
                h,
                x,
                y,
                x + dx,
                y + dy,
            ) && luma[(y + dy) * w + (x + dx)] != luma[y * w + x] ==> contrast_le(
                luma[y * w + x],
                luma[(y + dy) * w + (x + dx)],
                t_milli,
            ),
    ensures
        count_rows(luma, w, h, x, y, t_milli, radius, dy0, m) + equal_rows(
            luma,
            w,
            h,
            x,
            y,
            radius,
            dy0,
            m,
        ) == in_bounds_rows(w, h, x, y, radius, dy0, m),
    decreases m,
{
    if m > 0 {
        lemma_count_rows_saturated(luma, w, h, x, y, t_milli, radius, dy0, (m - 1) as nat);
        let dyl = dy0 + m - 1;
        assert forall|dx: int|
            -radius <= dx < -radius + ((2 * radius + 1) as nat) && #[trigger] neighbor_in_bounds(
                w,
                h,
                x,
                y,
                x + dx,
                y + dyl,
            ) && luma[(y + dyl) * w + (x + dx)] != luma[y * w + x] implies contrast_le(
            luma[y * w + x],
            luma[(y + dyl) * w + (x + dx)],
            t_milli,
        ) by {
            assert(neighbor_in_bounds(w, h, x, y, x + dx, y + dyl));
        }
        lemma_count_row_saturated(luma, w, h, x, y, t_milli, dyl, -radius, (2 * radius + 1) as nat);
    }
}

/// Over the whole window: where every differing in-bounds neighbor is at or
/// below the threshold, the count plus the skipped equal neighbors is the
/// number of in-bounds neighbors.
pub proof fn lemma_count_at_saturated(
    luma: Seq<u64>,
    w: int,
    h: int,
    x: int,
    y: int,
    t_milli: u32,
    radius: int,
)
    requires
        radius >= 0,
        forall|dx: int, dy: int|
            -radius <= dx <= radius && -radius <= dy <= radius && #[trigger] neighbor_in_bounds(
                w,
                h,
                x,
                y,
                x + dx,
                y + dy,
            ) && luma[(y + dy) * w + (x + dx)] != luma[y * w + x] ==> contrast_le(
                luma[y * w + x],
                luma[(y + dy) * w + (x + dx)],
                t_milli,
            ),
    ensures
        count_at(luma, w, h, x, y, t_milli, radius) + equal_neighbors_at(
            luma,
            w,
            h,
            x,
            y,
            radius,
        ) == window_neighbors_at(w, h, x, y, radius),
{
    lemma_count_rows_saturated(luma, w, h, x, y, t_milli, radius, -radius, (2 * radius + 1) as nat);
}

/// The per-pixel relative luminance of an image, one value per pixel in
/// row-major order, computed once for the whole image.
pub fn luminance_field(img: &PixelBuffer) -> (f: Vec<u64>)
    requires
        img.wf(),
    ensures
        f@.len() == (img.width as int) * (img.height as int),
        forall|i: int| 0 <= i < f@.len() ==> f@[i] <= LUMA_SCALE,
        forall|x: int, y: int|
            #![trigger img.pixel_of(x, y)]
            img.in_bounds(x, y) ==> f@[y * (img.width as int) + x] == luminance_of(
                img.pixel_of(x, y).r,
                img.pixel_of(x, y).g,
                img.pixel_of(x, y).b,
            ),
{
    let w = img.width;
    let h = img.height;
    let mut f: Vec<u64> = Vec::new();
    let mut y: u32 = 0;
    while y < h
        invariant
            img.wf(),
            w == img.width,
            h == img.height,
            y <= h,
            f@.len() == (y as int) * (w as int),
            forall|i: int| 0 <= i < f@.len() ==> f@[i] <= LUMA_SCALE,
            forall|xx: int, yy: int|
                #![trigger img.pixel_of(xx, yy)]
                0 <= xx < w && 0 <= yy < y ==> f@[yy * (w as int) + xx] == luminance_of(
                    img.pixel_of(xx, yy).r,
                    img.pixel_of(xx, yy).g,
                    img.pixel_of(xx, yy).b,
                ),
        decreases h - y,
    {
        let mut x: u32 = 0;
        while x < w
            invariant
                img.wf(),
                w == img.width,
                h == img.height,
                y < h,
                x <= w,
                f@.len() == (y as int) * (w as int) + (x as int),
                forall|i: int| 0 <= i < f@.len() ==> f@[i] <= LUMA_SCALE,
                forall|xx: int, yy: int|
                    #![trigger img.pixel_of(xx, yy)]
                    0 <= xx < w && (yy < y && 0 <= yy || yy == y && xx < x) ==> f@[yy * (w as int)
                        + xx] == luminance_of(
                        img.pixel_of(xx, yy).r,
                        img.pixel_of(xx, yy).g,
                        img.pixel_of(xx, yy).b,
                    ),
            decreases w - x,
        {
            proof {
                lemma_rm_index_bound(w as int, h as int, x as int, y as int);
            }
            let p = img.get_pixel(x, y);
            let l = luminance_rgb(p.r, p.g, p.b);
            f.push(l);
            proof {
                assert forall|xx: int, yy: int|
                    #![trigger img.pixel_of(xx, yy)]
                    0 <= xx < w && (0 <= yy && yy < y || yy == y && 0 <= xx <= x) implies f@[yy * (
                w as int) + xx] == luminance_of(
                    img.pixel_of(xx, yy).r,
                    img.pixel_of(xx, yy).g,
                    img.pixel_of(xx, yy).b,
                ) by {
                    if !(xx == x as int && yy == y as int) {
                        crate::pixel::lemma_rm_index_lt(w as int, xx, yy, x as int, y as int);
                    }
                }
            }
            x = x + 1;
        }
        proof {
            assert(((y as int) + 1) * (w as int) == (y as int) * (w as int) + (w as int))
                by (nonlinear_arith);
        }
        y = y + 1;
    }
    proof {
        assert((h as int) * (w as int) == (img.width as int) * (img.height as int))
            by (nonlinear_arith)
            requires
                w == img.width,
                h == img.height,
        ;
    }
    f
}

/// Scan the square window around `(x, y)` in the luminance field and count
/// the neighbors whose contrast ratio against the center is at or below the
/// threshold, skipping out-of-bounds offsets and neighbors of exactly equal
/// luminance. The result is the window size minus the center at most.
pub fn count_low_contrast_neighbors(
    luma: &Vec<u64>,
    w: u32,
    h: u32,
    x: u32,
    y: u32,
    radius: u32,
    t_milli: u32,
) -> (c: u64)
    requires
        radius <= 0x7fffffff,
        luma@.len() == (w as int) * (h as int),
        forall|i: int| 0 <= i < luma@.len() ==> luma@[i] <= LUMA_SCALE,
        x < w,
        y < h,
    ensures
        c == count_at(luma@, w as int, h as int, x as int, y as int, t_milli, radius as int),
        c <= window_side(radius as int) * window_side(radius as int) - 1,
{
    let side: u64 = 2 * (radius as u64) + 1;
    let r_i = radius as i64;
    let _n: usize = luma.len();
    proof {
        lemma_rm_index_bound(w as int, h as int, x as int, y as int);
    }
    let center_idx: usize = (y as usize) * (w as usize) + (x as usize);
    let lc = luma[center_idx];
    let mut c: u64 = 0;
    let mut dyi: u64 = 0;
    while dyi < side
        invariant
            radius <= 0x7fffffff,
            side == 2 * (radius as int) + 1,
            r_i == radius as int,
            luma@.len() == (w as int) * (h as int),
            luma@.len() <= usize::MAX,
            forall|i: int| 0 <= i < luma@.len() ==> luma@[i] <= LUMA_SCALE,
            x < w,
            y < h,
            lc == luma@[(y as int) * (w as int) + (x as int)],
            dyi <= side,
            c == count_rows(
                luma@,
                w as int,
                h as int,
                x as int,
                y as int,
                t_milli,
                radius as int,
                -(radius as int),
                dyi as nat,
            ),
            c <= (dyi as int) * (side as int),
        decreases side - dyi,
    {
        let mut dxi: u64 = 0;
        let ghost c_rows = c;
        while dxi < side
            invariant
                radius <= 0x7fffffff,
                side == 2 * (radius as int) + 1,
                r_i == radius as int,
                luma@.len() == (w as int) * (h as int),
                luma@.len() <= usize::MAX,
                forall|i: int| 0 <= i < luma@.len() ==> luma@[i] <= LUMA_SCALE,
                x < w,
                y < h,
                lc == luma@[(y as int) * (w as int) + (x as int)],
                dyi < side,
                dxi <= side,
                c == c_rows + count_row(
                    luma@,
                    w as int,
                    h as int,
                    x as int,
                    y as int,
                    t_milli,
                    dyi - radius,
                    -(radius as int),
                    dxi as nat,
                ),
                c_rows <= (dyi as int) * (side as int),
                c <= (dyi as int) * (side as int) + dxi,
            decreases side - dxi,
        {
            let dy: i64 = dyi as i64 - r_i;
            let dx: i64 = dxi as i64 - r_i;
            let ghost nxg: int = x + dx;
            let ghost nyg: int = y + dy;
            let counted: bool = if dx == 0 && dy == 0 {
                false
            } else {
                let nxi: i64 = x as i64 + dx;
                let nyi: i64 = y as i64 + dy;
                if nxi < 0 || nyi < 0 || nxi >= w as i64 || nyi >= h as i64 {
                    false
                } else {
                    let nx = nxi as u32;
                    let ny = nyi as u32;
                    proof {
                        lemma_rm_index_bound(w as int, h as int, nx as int, ny as int);
                        lemma_rm_index_bound(w as int, h as int, x as int, y as int);
                    }
                    let nidx: usize = (ny as usize) * (w as usize) + (nx as usize);
                    let ln = luma[nidx];
                    if ln == lc {
                        false
                    } else {
                        contrast_ratio_le(lc, ln, t_milli)
                    }
                }
            };
            proof {
                assert(counted == neighbor_counted(
                    luma@,
                    w as int,
                    h as int,
                    x as int,
                    y as int,
                    t_milli,
                    nxg,
                    nyg,
                ));
                assert((dyi as int) * (side as int) + dxi + 1 <= (side as int) * (side as int))
                    by (nonlinear_arith)
                    requires
                        0 <= dyi < side,
                        0 <= dxi < side,
                ;
                assert((side as int) * (side as int) <= 0xffffffff * 0xffffffff)
                    by (nonlinear_arith)
                    requires
                        0 < side <= 0xffffffff,
                ;
            }
            if counted {
                c = c + 1;
            }
            dxi = dxi + 1;
        }
        proof {
            assert((dyi + 1) as int * (side as int) == (dyi as int) * (side as int) + (
            side as int)) by (nonlinear_arith);
        }
        dyi = dyi + 1;
    }
    proof {
        lemma_count_at_bound(
            luma@,
            w as int,
            h as int,
            x as int,
            y as int,
            t_milli,
            radius as int,
        );
    }
    c
}

} // verus!
