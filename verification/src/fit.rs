//! Fits an image, measured in pixels, into a rectangle of terminal cells.
//!
//! A cell is treated as one pixel wide and two pixels tall, so a bound of
//! `h` cells offers `2 * h` pixel rows.

use vstd::prelude::*;

verus! {

/// Some dimension is zero (or below): there is nothing to draw.
pub open spec fn degenerate(
    img_width: int,
    img_height: int,
    bound_width: int,
    bound_height: int,
) -> bool {
    img_width <= 0 || img_height <= 0 || bound_width <= 0 || bound_height <= 0
}

/// The image fits the bound pixel for pixel.
pub open spec fn fits_natively(
    img_width: int,
    img_height: int,
    bound_width: int,
    bound_height: int,
) -> bool {
    img_width <= bound_width && img_height <= 2 * bound_height
}

/// Scaling to the full width of the bound needs no more rows than scaling
/// to its full height needs columns: the two aspect ratios are compared by
/// their cross products.
pub open spec fn width_limits(
    img_width: int,
    img_height: int,
    bound_width: int,
    bound_height: int,
) -> bool {
    bound_width * img_height <= img_width * (2 * bound_height)
}

/// A computed dimension never collapses to zero cells.
pub open spec fn at_least_one(cells: int) -> int {
    if cells < 1 {
        1
    } else {
        cells
    }
}

/// The size in cells, `(width, height)`, at which an image of
/// `img_width` x `img_height` pixels is shown inside a bound of
/// `bound_width` x `bound_height` cells.
pub open spec fn fit_cells(
    img_width: int,
    img_height: int,
    bound_width: int,
    bound_height: int,
) -> (int, int) {
    if degenerate(img_width, img_height, bound_width, bound_height) {
        (0, 0)
    } else if fits_natively(img_width, img_height, bound_width, bound_height) {
        (img_width, (img_height + 1) / 2)
    } else if width_limits(img_width, img_height, bound_width, bound_height) {
        (bound_width, at_least_one((img_height * bound_width) / img_width / 2))
    } else {
        (at_least_one((img_width * (2 * bound_height)) / img_height), bound_height)
    }
}

proof fn lemma_quotient_le(a: int, b: int, c: int)
    by (nonlinear_arith)
    requires
        0 <= a,
        0 < b,
        a <= b * c,
    ensures
        a / b <= c,
{
}

proof fn lemma_quotient_lt(a: int, b: int, c: int)
    by (nonlinear_arith)
    requires
        0 <= a,
        0 < b,
        a < b * c,
    ensures
        0 <= a / b < c,
{
}

proof fn lemma_product_bound(a: int, b: int, a_max: int, b_max: int)
    by (nonlinear_arith)
    requires
        0 <= a <= a_max,
        0 <= b <= b_max,
    ensures
        0 <= a * b <= a_max * b_max,
{
}

/// The fitted size never exceeds the bound, and it is empty exactly when an
/// input dimension is zero: with positive inputs both sides are at least
/// one cell.
pub proof fn lemma_fit_within_bound(
    img_width: int,
    img_height: int,
    bound_width: int,
    bound_height: int,
)
    requires
        0 <= img_width,
        0 <= img_height,
        0 <= bound_width,
        0 <= bound_height,
    ensures
        0 <= fit_cells(img_width, img_height, bound_width, bound_height).0 <= bound_width,
        0 <= fit_cells(img_width, img_height, bound_width, bound_height).1 <= bound_height,
        fit_cells(img_width, img_height, bound_width, bound_height).0 == 0 <==> degenerate(
            img_width,
            img_height,
            bound_width,
            bound_height,
        ),
        fit_cells(img_width, img_height, bound_width, bound_height).1 == 0 <==> degenerate(
            img_width,
            img_height,
            bound_width,
            bound_height,
        ),
{
    if !degenerate(img_width, img_height, bound_width, bound_height) && !fits_natively(
        img_width,
        img_height,
        bound_width,
        bound_height,
    ) {
        assert(img_height * bound_width == bound_width * img_height) by (nonlinear_arith);
        if width_limits(img_width, img_height, bound_width, bound_height) {
            lemma_product_bound(img_height, bound_width, img_height, bound_width);
            lemma_quotient_le(img_height * bound_width, img_width, 2 * bound_height);
        } else {
            lemma_product_bound(img_width, 2 * bound_height, img_width, 2 * bound_height);
            lemma_quotient_lt(img_width * (2 * bound_height), img_height, bound_width);
        }
    }
}

proof fn lemma_division_bounds(a: int, b: int)
    by (nonlinear_arith)
    requires
        0 <= a,
        0 < b,
    ensures
        (a / b) * b <= a < (a / b + 1) * b,
{
}

/// An image that has to be scaled fills the bound in one direction. Its
/// other side is the largest number of whole cells that the aspect ratio
/// allows, or one cell where that would be none: a cell more would
/// stretch the image.
pub proof fn lemma_fit_keeps_ratio(
    img_width: int,
    img_height: int,
    bound_width: int,
    bound_height: int,
)
    requires
        !degenerate(img_width, img_height, bound_width, bound_height),
        !fits_natively(img_width, img_height, bound_width, bound_height),
    ensures
        ({
            let cells = fit_cells(img_width, img_height, bound_width, bound_height);
            if width_limits(img_width, img_height, bound_width, bound_height) {
                &&& cells.0 == bound_width
                &&& cells.1 == 1 || 2 * cells.1 * img_width <= img_height * bound_width
                &&& img_height * bound_width < (2 * cells.1 + 2) * img_width
            } else {
                &&& cells.1 == bound_height
                &&& cells.0 == 1 || cells.0 * img_height <= img_width * (2 * bound_height)
                &&& img_width * (2 * bound_height) < (cells.0 + 1) * img_height
            }
        }),
{
    let cells = fit_cells(img_width, img_height, bound_width, bound_height);
    if width_limits(img_width, img_height, bound_width, bound_height) {
        let area = img_height * bound_width;
        lemma_product_bound(img_height, bound_width, img_height, bound_width);
        lemma_division_bounds(area, img_width);
        let rows = area / img_width;
        assert(2 * cells.1 * img_width <= rows * img_width || cells.1 == 1) by (nonlinear_arith)
            requires
                cells.1 == 1 || 2 * cells.1 <= rows,
                0 < img_width,
        ;
        assert((rows + 1) * img_width <= (2 * cells.1 + 2) * img_width) by (nonlinear_arith)
            requires
                rows + 1 <= 2 * cells.1 + 2,
                0 < img_width,
        ;
    } else {
        let area = img_width * (2 * bound_height);
        lemma_product_bound(img_width, 2 * bound_height, img_width, 2 * bound_height);
        lemma_division_bounds(area, img_height);
        let columns = area / img_height;
        assert((columns + 1) * img_height <= (cells.0 + 1) * img_height) by (nonlinear_arith)
            requires
                columns + 1 <= cells.0 + 1,
                0 < img_height,
        ;
    }
}

/// Maps an image of `img_width` x `img_height` pixels into a bound of
/// `bound_width` x `bound_height` cells, keeping its aspect ratio as far as
/// whole cells allow. Returns `(0, 0)` when any dimension is zero.
pub fn fit_dimensions_cells(
    img_width: u32,
    img_height: u32,
    bound_width: u16,
    bound_height: u16,
) -> (cells: (u16, u16))
    ensures
        (cells.0 as int, cells.1 as int) == fit_cells(
            img_width as int,
            img_height as int,
            bound_width as int,
            bound_height as int,
        ),
        cells.0 <= bound_width,
        cells.1 <= bound_height,
        cells.0 == 0 <==> (img_width == 0 || img_height == 0 || bound_width == 0 || bound_height
            == 0),
        cells.1 == 0 <==> cells.0 == 0,
{
    proof {
        lemma_fit_within_bound(
            img_width as int,
            img_height as int,
            bound_width as int,
            bound_height as int,
        );
    }
    if img_width == 0 || img_height == 0 || bound_width == 0 || bound_height == 0 {
        return (0, 0);
    }
    let iw: u64 = img_width as u64;
    let ih: u64 = img_height as u64;
    let bw: u64 = bound_width as u64;
    let rows: u64 = 2 * (bound_height as u64);
    if iw <= bw && ih <= rows {
        return (img_width as u16, ((ih + 1) / 2) as u16);
    }
    proof {
        lemma_product_bound(bw as int, ih as int, 0xffff, 0xffff_ffff);
        lemma_product_bound(ih as int, bw as int, 0xffff_ffff, 0xffff);
        lemma_product_bound(iw as int, rows as int, 0xffff_ffff, 0x1_fffe);
    }
    if bw * ih <= iw * rows {
        let pixel_rows: u64 = (ih * bw) / iw;
        let half: u64 = pixel_rows / 2;
        if half < 1 {
            (bound_width, 1)
        } else {
            (bound_width, half as u16)
        }
    } else {
        let columns: u64 = (iw * rows) / ih;
        if columns < 1 {
            (1, bound_height)
        } else {
            (columns as u16, bound_height)
        }
    }
}

} // verus!
