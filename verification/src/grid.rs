//! The mathematical model of iteration: the integer points of a half-open range, as a sequence
//! in scan order, and what is left of that sequence at a given cursor.
//!
//! In the plane the scan goes along x first, then y. In space it goes along x first, then y,
//! then z. A range whose start is not below its end on some axis holds no point.

use vstd::prelude::*;
use vstd::arithmetic::div_mod::lemma_fundamental_div_mod;
use vstd::arithmetic::div_mod::lemma_fundamental_div_mod_converse;
use vstd::arithmetic::div_mod::lemma_mod_pos_bound;
use vstd::arithmetic::div_mod::lemma_div_pos_is_pos;

verus! {

/// The number of unit steps from `lo` up to `hi`: none where `lo` is not below `hi`.
pub open spec fn extent(lo: int, hi: int) -> int {
    if lo < hi {
        hi - lo
    } else {
        0
    }
}

/// The points `(x, y)` with `x0 <= x < x1`, with x ascending.
pub open spec fn row(x0: int, x1: int, y: int) -> Seq<(int, int)> {
    Seq::new(extent(x0, x1) as nat, |i: int| (x0 + i, y))
}

/// The points of `[x0, x1) x [y0, y1)` in scan order: the point at index `i` is `i % w` steps
/// along x and `i / w` steps along y, where `w` is the extent along x.
pub open spec fn grid_2d(x0: int, x1: int, y0: int, y1: int) -> Seq<(int, int)> {
    Seq::new(
        (extent(x0, x1) * extent(y0, y1)) as nat,
        |i: int| (x0 + i % extent(x0, x1), y0 + i / extent(x0, x1)),
    )
}

/// The points of a plane sequence, each placed at height `z`.
pub open spec fn lift(plane: Seq<(int, int)>, z: int) -> Seq<(int, int, int)> {
    Seq::new(plane.len(), |i: int| (plane[i].0, plane[i].1, z))
}

/// The points of `[x0, x1) x [y0, y1) x [z0, z1)` in scan order: the point at index `i` is
/// `i % w` steps along x, `(i / w) % h` steps along y and `i / (w * h)` steps along z, where
/// `w` and `h` are the extents along x and y.
pub open spec fn grid_3d(x0: int, x1: int, y0: int, y1: int, z0: int, z1: int) -> Seq<
    (int, int, int),
> {
    Seq::new(
        (extent(x0, x1) * extent(y0, y1) * extent(z0, z1)) as nat,
        |i: int|
            (
                x0 + i % extent(x0, x1),
                y0 + (i / extent(x0, x1)) % extent(y0, y1),
                z0 + i / (extent(x0, x1) * extent(y0, y1)),
            ),
    )
}

/// What a plane scan still has to give when its cursor stands at `(cx, cy)`: the rest of the
/// cursor's row, then every later row in full. The rows start at `x0`, and `(x1, y1)` is the end
/// of the range.
pub open spec fn remaining_2d(x0: int, x1: int, y1: int, cx: int, cy: int) -> Seq<(int, int)> {
    if cy < y1 {
        row(cx, x1, cy) + grid_2d(x0, x1, cy + 1, y1)
    } else {
        Seq::empty()
    }
}

/// What a space scan still has to give when its cursor stands at `(cx, cy, cz)`: the rest of the
/// cursor's plane, then every later plane in full. The planes start at `(x0, y0)`, and
/// `(x1, y1, z1)` is the end of the range.
pub open spec fn remaining_3d(
    x0: int,
    x1: int,
    y0: int,
    y1: int,
    z1: int,
    cx: int,
    cy: int,
    cz: int,
) -> Seq<(int, int, int)> {
    if cz < z1 {
        lift(remaining_2d(x0, x1, y1, cx, cy), cz) + grid_3d(x0, x1, y0, y1, cz + 1, z1)
    } else {
        Seq::empty()
    }
}

/// A product of two non-negative factors is non-negative, and grows by one factor when the
/// other grows by one.
proof fn lemma_product_step(w: int, h: int)
    requires
        0 <= w,
        0 <= h,
    ensures
        0 <= w * h,
        w * (h + 1) == w * h + w,
        (h + 1) * w == h * w + w,
        w * h == h * w,
{
    assert(0 <= w * h) by (nonlinear_arith)
        requires
            0 <= w,
            0 <= h,
    ;
    assert(w * (h + 1) == w * h + w) by (nonlinear_arith);
    assert((h + 1) * w == h * w + w) by (nonlinear_arith);
    assert(w * h == h * w) by (nonlinear_arith);
}

/// An index below `w * h` splits into a remainder below `w` and a quotient below `h`.
proof fn lemma_index_split(i: int, w: int, h: int)
    requires
        0 <= i < w * h,
        0 < w,
        0 <= h,
    ensures
        0 <= i % w < w,
        0 <= i / w < h,
        i == (i / w) * w + i % w,
{
    lemma_fundamental_div_mod(i, w);
    lemma_mod_pos_bound(i, w);
    lemma_div_pos_is_pos(i, w);
    let q = i / w;
    let r = i % w;
    assert(w * q == q * w) by (nonlinear_arith);
    if q >= h {
        assert(q * w >= h * w) by (nonlinear_arith)
            requires
                q >= h,
                0 < w,
        ;
        assert(h * w == w * h) by (nonlinear_arith);
    }
}

/// The number `q * w + r` with `0 <= r < w` has quotient `q` and remainder `r` by `w`.
proof fn lemma_index_join(q: int, r: int, w: int)
    requires
        0 <= r < w,
    ensures
        (q * w + r) / w == q,
        (q * w + r) % w == r,
{
    lemma_fundamental_div_mod_converse(q * w + r, w, q, r);
}

/// A row that is not empty is its first point followed by the row that starts one step later.
pub proof fn lemma_row_unfold(x0: int, x1: int, y: int)
    requires
        x0 < x1,
    ensures
        row(x0, x1, y) == seq![(x0, y)] + row(x0 + 1, x1, y),
{
    assert(row(x0, x1, y) =~= seq![(x0, y)] + row(x0 + 1, x1, y));
}

/// A row whose start is not below its end holds no point.
pub proof fn lemma_row_empty(x0: int, x1: int, y: int)
    requires
        x0 >= x1,
    ensures
        row(x0, x1, y) == Seq::<(int, int)>::empty(),
{
    assert(row(x0, x1, y) =~= Seq::<(int, int)>::empty());
}

/// A plane grid with at least one row is its first row followed by the grid of the later rows.
pub proof fn lemma_grid_2d_unfold(x0: int, x1: int, y0: int, y1: int)
    requires
        y0 < y1,
    ensures
        grid_2d(x0, x1, y0, y1) == row(x0, x1, y0) + grid_2d(x0, x1, y0 + 1, y1),
{
    let w = extent(x0, x1);
    let h = extent(y0, y1);
    let whole = grid_2d(x0, x1, y0, y1);
    let parts = row(x0, x1, y0) + grid_2d(x0, x1, y0 + 1, y1);
    lemma_product_step(w, h - 1);
    assert(whole.len() == parts.len());
    assert forall|i: int| 0 <= i < whole.len() implies whole[i] == parts[i] by {
        if i < w {
            lemma_index_join(0, i, w);
        } else {
            let j = i - w;
            lemma_index_split(j, w, h - 1);
            lemma_index_join(j / w + 1, j % w, w);
            assert((j / w + 1) * w == (j / w) * w + w) by (nonlinear_arith);
        }
    }
    assert(whole =~= parts);
}

/// A plane grid holds no point where either axis has no extent.
pub proof fn lemma_grid_2d_empty(x0: int, x1: int, y0: int, y1: int)
    requires
        x0 >= x1 || y0 >= y1,
    ensures
        grid_2d(x0, x1, y0, y1) == Seq::<(int, int)>::empty(),
{
    assert(extent(x0, x1) * extent(y0, y1) == 0) by (nonlinear_arith)
        requires
            extent(x0, x1) == 0 || extent(y0, y1) == 0,
    ;
    assert(grid_2d(x0, x1, y0, y1) =~= Seq::<(int, int)>::empty());
}

/// An index below `w * h * d` splits into a step count below `w` along x, one below `h` along
/// y and one below `d` along z.
proof fn lemma_index_split_3d(i: int, w: int, h: int, d: int)
    requires
        0 <= i < w * h * d,
        0 < w,
        0 < h,
        0 <= d,
    ensures
        0 < w * h,
        0 <= i % w < w,
        0 <= (i / w) % h < h,
        0 <= i / (w * h) < d,
        i / (w * h) == (i / w) / h,
        i == ((i / (w * h)) * h + (i / w) % h) * w + i % w,
{
    assert(0 < w * h) by (nonlinear_arith)
        requires
            0 < w,
            0 < h,
    ;
    assert(w * h * d == w * (h * d)) by (nonlinear_arith);
    assert(0 <= h * d) by (nonlinear_arith)
        requires
            0 < h,
            0 <= d,
    ;
    lemma_index_split(i, w, h * d);
    let m = i / w;
    let r = i % w;
    lemma_index_split(m, h, d);
    let c = m / h;
    let b = m % h;
    assert(i == c * (w * h) + (b * w + r)) by (nonlinear_arith)
        requires
            i == m * w + r,
            m == c * h + b,
    ;
    assert(0 <= b * w + r < w * h) by (nonlinear_arith)
        requires
            0 <= b < h,
            0 <= r < w,
    ;
    lemma_index_join(c, b * w + r, w * h);
}

/// The index `(c * h + b) * w + a` with `0 <= a < w` and `0 <= b < h` stands `a` steps along
/// x, `b` steps along y and `c` steps along z.
proof fn lemma_index_join_3d(a: int, b: int, c: int, w: int, h: int)
    requires
        0 <= a < w,
        0 <= b < h,
    ensures
        ((c * h + b) * w + a) % w == a,
        (((c * h + b) * w + a) / w) % h == b,
        ((c * h + b) * w + a) / (w * h) == c,
{
    let i = (c * h + b) * w + a;
    lemma_index_join(c * h + b, a, w);
    lemma_index_join(c, b, h);
    assert(i == c * (w * h) + (b * w + a)) by (nonlinear_arith)
        requires
            i == (c * h + b) * w + a,
    ;
    assert(0 <= b * w + a < w * h) by (nonlinear_arith)
        requires
            0 <= b < h,
            0 <= a < w,
    ;
    lemma_index_join(c, b * w + a, w * h);
}

/// A space grid with at least one plane is its first plane followed by the grid of the later
/// planes.
pub proof fn lemma_grid_3d_unfold(x0: int, x1: int, y0: int, y1: int, z0: int, z1: int)
    requires
        z0 < z1,
    ensures
        grid_3d(x0, x1, y0, y1, z0, z1) == lift(grid_2d(x0, x1, y0, y1), z0) + grid_3d(
            x0,
            x1,
            y0,
            y1,
            z0 + 1,
            z1,
        ),
{
    let w = extent(x0, x1);
    let h = extent(y0, y1);
    let d = extent(z0, z1);
    let whole = grid_3d(x0, x1, y0, y1, z0, z1);
    let parts = lift(grid_2d(x0, x1, y0, y1), z0) + grid_3d(x0, x1, y0, y1, z0 + 1, z1);
    lemma_product_step(w, h);
    lemma_product_step(w * h, d - 1);
    assert(whole.len() == parts.len());
    assert forall|i: int| 0 <= i < whole.len() implies whole[i] == parts[i] by {
        if w == 0 || h == 0 {
            assert(w * h == 0) by (nonlinear_arith)
                requires
                    w == 0 || h == 0,
            ;
        } else if i < w * h {
            lemma_index_split(i, w, h);
            lemma_index_join(0, i / w, h);
            lemma_index_join(0, i, w * h);
        } else {
            let j = i - w * h;
            lemma_index_split_3d(j, w, h, d - 1);
            let a = j % w;
            let b = (j / w) % h;
            let c = j / (w * h);
            assert(i == ((c + 1) * h + b) * w + a) by (nonlinear_arith)
                requires
                    i == j + w * h,
                    j == (c * h + b) * w + a,
            ;
            lemma_index_join_3d(a, b, c + 1, w, h);
        }
    }
    assert(whole =~= parts);
}

/// A space grid holds no point where any axis has no extent.
pub proof fn lemma_grid_3d_empty(x0: int, x1: int, y0: int, y1: int, z0: int, z1: int)
    requires
        x0 >= x1 || y0 >= y1 || z0 >= z1,
    ensures
        grid_3d(x0, x1, y0, y1, z0, z1) == Seq::<(int, int, int)>::empty(),
{
    assert(extent(x0, x1) * extent(y0, y1) * extent(z0, z1) == 0) by (nonlinear_arith)
        requires
            extent(x0, x1) == 0 || extent(y0, y1) == 0 || extent(z0, z1) == 0,
    ;
    assert(grid_3d(x0, x1, y0, y1, z0, z1) =~= Seq::<(int, int, int)>::empty());
}

/// At the start of a range, what a plane scan has to give is the whole grid.
pub proof fn lemma_remaining_2d_at_start(x0: int, x1: int, y0: int, y1: int)
    ensures
        remaining_2d(x0, x1, y1, x0, y0) == grid_2d(x0, x1, y0, y1),
{
    if y0 < y1 {
        lemma_grid_2d_unfold(x0, x1, y0, y1);
    } else {
        lemma_grid_2d_empty(x0, x1, y0, y1);
    }
}

/// A cursor inside its row gives its own point next and then stands one step further along x.
pub proof fn lemma_remaining_2d_emit(x0: int, x1: int, y1: int, cx: int, cy: int)
    requires
        cy < y1,
        cx < x1,
    ensures
        remaining_2d(x0, x1, y1, cx, cy) == seq![(cx, cy)] + remaining_2d(x0, x1, y1, cx + 1, cy),
{
    lemma_row_unfold(cx, x1, cy);
    assert(remaining_2d(x0, x1, y1, cx, cy) =~= seq![(cx, cy)] + remaining_2d(
        x0,
        x1,
        y1,
        cx + 1,
        cy,
    ));
}

/// A cursor past the end of its row has the same points to give as the start of the next row.
pub proof fn lemma_remaining_2d_wrap(x0: int, x1: int, y1: int, cx: int, cy: int)
    requires
        cy < y1,
        cx >= x1,
    ensures
        remaining_2d(x0, x1, y1, cx, cy) == remaining_2d(x0, x1, y1, x0, cy + 1),
{
    lemma_row_empty(cx, x1, cy);
    lemma_remaining_2d_at_start(x0, x1, cy + 1, y1);
    assert(remaining_2d(x0, x1, y1, cx, cy) =~= remaining_2d(x0, x1, y1, x0, cy + 1));
}

/// At the start of a range, what a space scan has to give is the whole grid.
pub proof fn lemma_remaining_3d_at_start(x0: int, x1: int, y0: int, y1: int, z0: int, z1: int)
    ensures
        remaining_3d(x0, x1, y0, y1, z1, x0, y0, z0) == grid_3d(x0, x1, y0, y1, z0, z1),
{
    lemma_remaining_2d_at_start(x0, x1, y0, y1);
    if z0 < z1 {
        lemma_grid_3d_unfold(x0, x1, y0, y1, z0, z1);
    } else {
        lemma_grid_3d_empty(x0, x1, y0, y1, z0, z1);
    }
}

/// A cursor inside its row gives its own point next and then stands one step further along x.
pub proof fn lemma_remaining_3d_emit(
    x0: int,
    x1: int,
    y0: int,
    y1: int,
    z1: int,
    cx: int,
    cy: int,
    cz: int,
)
    requires
        cz < z1,
        cy < y1,
        cx < x1,
    ensures
        remaining_3d(x0, x1, y0, y1, z1, cx, cy, cz) == seq![(cx, cy, cz)] + remaining_3d(
            x0,
            x1,
            y0,
            y1,
            z1,
            cx + 1,
            cy,
            cz,
        ),
{
    lemma_remaining_2d_emit(x0, x1, y1, cx, cy);
    assert(lift(remaining_2d(x0, x1, y1, cx, cy), cz) =~= seq![(cx, cy, cz)] + lift(
        remaining_2d(x0, x1, y1, cx + 1, cy),
        cz,
    ));
    assert(remaining_3d(x0, x1, y0, y1, z1, cx, cy, cz) =~= seq![(cx, cy, cz)] + remaining_3d(
        x0,
        x1,
        y0,
        y1,
        z1,
        cx + 1,
        cy,
        cz,
    ));
}

/// A cursor past the end of its row has the same points to give as the start of the next row
/// of its plane.
pub proof fn lemma_remaining_3d_wrap_row(
    x0: int,
    x1: int,
    y0: int,
    y1: int,
    z1: int,
    cx: int,
    cy: int,
    cz: int,
)
    requires
        cz < z1,
        cy < y1,
        cx >= x1,
    ensures
        remaining_3d(x0, x1, y0, y1, z1, cx, cy, cz) == remaining_3d(
            x0,
            x1,
            y0,
            y1,
            z1,
            x0,
            cy + 1,
            cz,
        ),
{
    lemma_remaining_2d_wrap(x0, x1, y1, cx, cy);
}

/// A cursor past the last row of its plane has the same points to give as the start of the
/// next plane.
pub proof fn lemma_remaining_3d_wrap_plane(
    x0: int,
    x1: int,
    y0: int,
    y1: int,
    z1: int,
    cx: int,
    cy: int,
    cz: int,
)
    requires
        cz < z1,
        cy >= y1,
    ensures
        remaining_3d(x0, x1, y0, y1, z1, cx, cy, cz) == remaining_3d(
            x0,
            x1,
            y0,
            y1,
            z1,
            x0,
            y0,
            cz + 1,
        ),
{
    lemma_remaining_3d_at_start(x0, x1, y0, y1, cz + 1, z1);
    assert(lift(remaining_2d(x0, x1, y1, cx, cy), cz) =~= Seq::<(int, int, int)>::empty());
    assert(remaining_3d(x0, x1, y0, y1, z1, cx, cy, cz) =~= remaining_3d(
        x0,
        x1,
        y0,
        y1,
        z1,
        x0,
        y0,
        cz + 1,
    ));
}

/// Where something is left, the first point left is the cursor's own where the cursor stands
/// inside its row, and the start of the next row where it stands past the end of its row. What
/// is left after it is what a cursor one step along x past it has to give.
pub proof fn lemma_remaining_2d_step(x0: int, x1: int, y1: int, cx: int, cy: int)
    requires
        remaining_2d(x0, x1, y1, cx, cy).len() > 0,
    ensures
        remaining_2d(x0, x1, y1, cx, cy).first() == (if cx < x1 {
            (cx, cy)
        } else {
            (x0, cy + 1)
        }),
        remaining_2d(x0, x1, y1, cx, cy).first().0 < x1,
        remaining_2d(x0, x1, y1, cx, cy).first().1 < y1,
        remaining_2d(x0, x1, y1, cx, cy).drop_first() == remaining_2d(
            x0,
            x1,
            y1,
            remaining_2d(x0, x1, y1, cx, cy).first().0 + 1,
            remaining_2d(x0, x1, y1, cx, cy).first().1,
        ),
{
    let left = remaining_2d(x0, x1, y1, cx, cy);
    if cx < x1 {
        lemma_remaining_2d_emit(x0, x1, y1, cx, cy);
        assert(left.drop_first() =~= remaining_2d(x0, x1, y1, cx + 1, cy));
    } else {
        lemma_remaining_2d_wrap(x0, x1, y1, cx, cy);
        if x0 < x1 {
            lemma_remaining_2d_emit(x0, x1, y1, x0, cy + 1);
            assert(left.drop_first() =~= remaining_2d(x0, x1, y1, x0 + 1, cy + 1));
        } else {
            lemma_row_empty(x0, x1, cy + 1);
            lemma_grid_2d_empty(x0, x1, cy + 2, y1);
        }
    }
}

/// Where something is left, the first point left is the cursor's own where the cursor stands
/// inside its row, the start of the next row where it stands past the end of a row that is not
/// the last of its plane, and the start of the next plane otherwise. What is left after it is
/// what a cursor one step along x past it has to give.
pub proof fn lemma_remaining_3d_step(
    x0: int,
    x1: int,
    y0: int,
    y1: int,
    z1: int,
    cx: int,
    cy: int,
    cz: int,
)
    requires
        remaining_3d(x0, x1, y0, y1, z1, cx, cy, cz).len() > 0,
    ensures
        remaining_3d(x0, x1, y0, y1, z1, cx, cy, cz).first() == (if cy < y1 && cx < x1 {
            (cx, cy, cz)
        } else if cy + 1 < y1 && x0 < x1 {
            (x0, cy + 1, cz)
        } else {
            (x0, y0, cz + 1)
        }),
        remaining_3d(x0, x1, y0, y1, z1, cx, cy, cz).first().0 < x1,
        remaining_3d(x0, x1, y0, y1, z1, cx, cy, cz).first().1 < y1,
        remaining_3d(x0, x1, y0, y1, z1, cx, cy, cz).first().2 < z1,
        remaining_3d(x0, x1, y0, y1, z1, cx, cy, cz).drop_first() == remaining_3d(
            x0,
            x1,
            y0,
            y1,
            z1,
            remaining_3d(x0, x1, y0, y1, z1, cx, cy, cz).first().0 + 1,
            remaining_3d(x0, x1, y0, y1, z1, cx, cy, cz).first().1,
            remaining_3d(x0, x1, y0, y1, z1, cx, cy, cz).first().2,
        ),
{
    let left = remaining_3d(x0, x1, y0, y1, z1, cx, cy, cz);
    if cy < y1 && cx < x1 {
        lemma_remaining_3d_emit(x0, x1, y0, y1, z1, cx, cy, cz);
        assert(left.drop_first() =~= remaining_3d(x0, x1, y0, y1, z1, cx + 1, cy, cz));
    } else if cy + 1 < y1 && x0 < x1 {
        lemma_remaining_3d_wrap_row(x0, x1, y0, y1, z1, cx, cy, cz);
        lemma_remaining_3d_emit(x0, x1, y0, y1, z1, x0, cy + 1, cz);
        assert(left.drop_first() =~= remaining_3d(x0, x1, y0, y1, z1, x0 + 1, cy + 1, cz));
    } else {
        if cy < y1 {
            lemma_remaining_3d_wrap_row(x0, x1, y0, y1, z1, cx, cy, cz);
            if cy + 1 < y1 {
                lemma_row_empty(x0, x1, cy + 1);
                lemma_grid_2d_empty(x0, x1, cy + 2, y1);
                assert(lift(remaining_2d(x0, x1, y1, x0, cy + 1), cz) =~= Seq::<
                    (int, int, int),
                >::empty());
                lemma_grid_3d_empty(x0, x1, y0, y1, cz + 1, z1);
            } else {
                lemma_remaining_3d_wrap_plane(x0, x1, y0, y1, z1, x0, cy + 1, cz);
            }
        } else {
            lemma_remaining_3d_wrap_plane(x0, x1, y0, y1, z1, cx, cy, cz);
        }
        if x0 < x1 && y0 < y1 && cz + 1 < z1 {
            lemma_remaining_3d_emit(x0, x1, y0, y1, z1, x0, y0, cz + 1);
            assert(left.drop_first() =~= remaining_3d(x0, x1, y0, y1, z1, x0 + 1, y0, cz + 1));
        } else if cz + 1 < z1 {
            lemma_remaining_3d_at_start(x0, x1, y0, y1, cz + 1, z1);
            lemma_grid_3d_empty(x0, x1, y0, y1, cz + 1, z1);
        }
    }
}

/// Whether `p` comes before `q` in the scan of a plane: on an earlier row, or earlier on the
/// same row.
pub open spec fn precedes_2d(p: (int, int), q: (int, int)) -> bool {
    p.1 < q.1 || (p.1 == q.1 && p.0 < q.0)
}

/// Whether `p` comes before `q` in the scan of space: on an earlier plane, or earlier on the
/// same plane.
pub open spec fn precedes_3d(p: (int, int, int), q: (int, int, int)) -> bool {
    p.2 < q.2 || (p.2 == q.2 && precedes_2d((p.0, p.1), (q.0, q.1)))
}

/// The index at which the scan of `[x0, x1) x [y0, ..)` gives the point `(x, y)`.
pub open spec fn index_2d(x0: int, x1: int, y0: int, x: int, y: int) -> int {
    (y - y0) * extent(x0, x1) + (x - x0)
}

/// The index at which the scan of `[x0, x1) x [y0, y1) x [z0, ..)` gives the point `(x, y, z)`.
pub open spec fn index_3d(
    x0: int,
    x1: int,
    y0: int,
    y1: int,
    z0: int,
    x: int,
    y: int,
    z: int,
) -> int {
    ((z - z0) * extent(y0, y1) + (y - y0)) * extent(x0, x1) + (x - x0)
}

/// The scan of a plane range gives as many points as the product of the two extents, each of
/// them inside the range.
pub proof fn lemma_grid_2d_inside(x0: int, x1: int, y0: int, y1: int)
    ensures
        grid_2d(x0, x1, y0, y1).len() == extent(x0, x1) * extent(y0, y1),
        x0 < x1 && y0 < y1 ==> grid_2d(x0, x1, y0, y1).len() == (x1 - x0) * (y1 - y0),
        forall|i: int|
            0 <= i < grid_2d(x0, x1, y0, y1).len() ==> {
                let p = #[trigger] grid_2d(x0, x1, y0, y1)[i];
                x0 <= p.0 < x1 && y0 <= p.1 < y1
            },
{
    let w = extent(x0, x1);
    let h = extent(y0, y1);
    lemma_product_step(w, h);
    let grid = grid_2d(x0, x1, y0, y1);
    assert forall|i: int| 0 <= i < grid.len() implies {
        let p = #[trigger] grid[i];
        x0 <= p.0 < x1 && y0 <= p.1 < y1
    } by {
        if w == 0 {
            assert(w * h == 0) by (nonlinear_arith)
                requires
                    w == 0,
            ;
        } else {
            lemma_index_split(i, w, h);
        }
    }
}

/// The scan of a plane range leaves no point of the range out: the point `(x, y)` of the range
/// stands at its index.
pub proof fn lemma_grid_2d_complete(x0: int, x1: int, y0: int, y1: int, x: int, y: int)
    requires
        x0 <= x < x1,
        y0 <= y < y1,
    ensures
        0 <= index_2d(x0, x1, y0, x, y) < grid_2d(x0, x1, y0, y1).len(),
        grid_2d(x0, x1, y0, y1)[index_2d(x0, x1, y0, x, y)] == (x, y),
{
    let w = extent(x0, x1);
    let h = extent(y0, y1);
    let q = y - y0;
    let r = x - x0;
    lemma_index_join(q, r, w);
    assert(0 <= q * w + r < w * h) by (nonlinear_arith)
        requires
            0 <= q < h,
            0 <= r < w,
    ;
}

/// The scan of a plane range goes along x first: of two points, the one at the lower index is
/// on an earlier row, or earlier on the same row.
pub proof fn lemma_grid_2d_ordered(x0: int, x1: int, y0: int, y1: int, i: int, j: int)
    requires
        0 <= i < j < grid_2d(x0, x1, y0, y1).len(),
    ensures
        precedes_2d(grid_2d(x0, x1, y0, y1)[i], grid_2d(x0, x1, y0, y1)[j]),
{
    let w = extent(x0, x1);
    let h = extent(y0, y1);
    lemma_product_step(w, h);
    if w == 0 {
        assert(w * h == 0) by (nonlinear_arith)
            requires
                w == 0,
        ;
    } else {
        lemma_index_split(i, w, h);
        lemma_index_split(j, w, h);
        lemma_quotients_ordered(i, j, w);
    }
}

/// Of two numbers, the smaller has the smaller quotient by `w`, or the same quotient and the
/// smaller remainder.
proof fn lemma_quotients_ordered(i: int, j: int, w: int)
    requires
        0 <= i < j,
        0 < w,
    ensures
        i / w < j / w || (i / w == j / w && i % w < j % w),
{
    lemma_fundamental_div_mod(i, w);
    lemma_fundamental_div_mod(j, w);
    lemma_mod_pos_bound(i, w);
    lemma_mod_pos_bound(j, w);
    let qi = i / w;
    let qj = j / w;
    if qi > qj {
        assert(w * qi >= w * qj + w) by (nonlinear_arith)
            requires
                qi >= qj + 1,
                0 < w,
        ;
    }
}

/// The scan of a plane range gives no point twice.
pub proof fn lemma_grid_2d_no_duplicates(x0: int, x1: int, y0: int, y1: int)
    ensures
        grid_2d(x0, x1, y0, y1).no_duplicates(),
{
    let grid = grid_2d(x0, x1, y0, y1);
    assert forall|i: int, j: int|
        0 <= i < grid.len() && 0 <= j < grid.len() && i != j implies grid[i] != grid[j] by {
        if i < j {
            lemma_grid_2d_ordered(x0, x1, y0, y1, i, j);
        } else {
            lemma_grid_2d_ordered(x0, x1, y0, y1, j, i);
        }
    }
}

/// The scan of a space range gives as many points as the product of the three extents, each of
/// them inside the range.
pub proof fn lemma_grid_3d_inside(x0: int, x1: int, y0: int, y1: int, z0: int, z1: int)
    ensures
        grid_3d(x0, x1, y0, y1, z0, z1).len() == extent(x0, x1) * extent(y0, y1) * extent(z0, z1),
        x0 < x1 && y0 < y1 && z0 < z1 ==> grid_3d(x0, x1, y0, y1, z0, z1).len() == (x1 - x0) * (y1
            - y0) * (z1 - z0),
        forall|i: int|
            0 <= i < grid_3d(x0, x1, y0, y1, z0, z1).len() ==> {
                let p = #[trigger] grid_3d(x0, x1, y0, y1, z0, z1)[i];
                x0 <= p.0 < x1 && y0 <= p.1 < y1 && z0 <= p.2 < z1
            },
{
    let w = extent(x0, x1);
    let h = extent(y0, y1);
    let d = extent(z0, z1);
    lemma_product_step(w, h);
    lemma_product_step(w * h, d);
    let grid = grid_3d(x0, x1, y0, y1, z0, z1);
    assert forall|i: int| 0 <= i < grid.len() implies {
        let p = #[trigger] grid[i];
        x0 <= p.0 < x1 && y0 <= p.1 < y1 && z0 <= p.2 < z1
    } by {
        if w == 0 || h == 0 {
            assert(w * h * d == 0) by (nonlinear_arith)
                requires
                    w == 0 || h == 0,
            ;
        } else {
            lemma_index_split_3d(i, w, h, d);
        }
    }
}

/// The scan of a space range leaves no point of the range out: the point `(x, y, z)` of the
/// range stands at its index.
pub proof fn lemma_grid_3d_complete(
    x0: int,
    x1: int,
    y0: int,
    y1: int,
    z0: int,
    z1: int,
    x: int,
    y: int,
    z: int,
)
    requires
        x0 <= x < x1,
        y0 <= y < y1,
        z0 <= z < z1,
    ensures
        0 <= index_3d(x0, x1, y0, y1, z0, x, y, z) < grid_3d(x0, x1, y0, y1, z0, z1).len(),
        grid_3d(x0, x1, y0, y1, z0, z1)[index_3d(x0, x1, y0, y1, z0, x, y, z)] == (x, y, z),
{
    let w = extent(x0, x1);
    let h = extent(y0, y1);
    let d = extent(z0, z1);
    let a = x - x0;
    let b = y - y0;
    let c = z - z0;
    lemma_index_join_3d(a, b, c, w, h);
    assert(0 <= (c * h + b) * w + a < w * h * d) by (nonlinear_arith)
        requires
            0 <= a < w,
            0 <= b < h,
            0 <= c < d,
    ;
}

/// The scan of a space range goes along x first, then y, then z: of two points, the one at the
/// lower index is on an earlier plane, or on the same plane and there on an earlier row, or
/// earlier on the same row.
pub proof fn lemma_grid_3d_ordered(
    x0: int,
    x1: int,
    y0: int,
    y1: int,
    z0: int,
    z1: int,
    i: int,
    j: int,
)
    requires
        0 <= i < j < grid_3d(x0, x1, y0, y1, z0, z1).len(),
    ensures
        precedes_3d(grid_3d(x0, x1, y0, y1, z0, z1)[i], grid_3d(x0, x1, y0, y1, z0, z1)[j]),
{
    let w = extent(x0, x1);
    let h = extent(y0, y1);
    let d = extent(z0, z1);
    lemma_product_step(w, h);
    lemma_product_step(w * h, d);
    if w == 0 || h == 0 {
        assert(w * h * d == 0) by (nonlinear_arith)
            requires
                w == 0 || h == 0,
        ;
    } else {
        lemma_index_split_3d(i, w, h, d);
        lemma_index_split_3d(j, w, h, d);
        lemma_quotients_ordered(i, j, w);
        if i / w < j / w {
            lemma_div_pos_is_pos(i, w);
            lemma_quotients_ordered(i / w, j / w, h);
        }
    }
}

/// The scan of a space range gives no point twice.
pub proof fn lemma_grid_3d_no_duplicates(x0: int, x1: int, y0: int, y1: int, z0: int, z1: int)
    ensures
        grid_3d(x0, x1, y0, y1, z0, z1).no_duplicates(),
{
    let grid = grid_3d(x0, x1, y0, y1, z0, z1);
    assert forall|i: int, j: int|
        0 <= i < grid.len() && 0 <= j < grid.len() && i != j implies grid[i] != grid[j] by {
        if i < j {
            lemma_grid_3d_ordered(x0, x1, y0, y1, z0, z1, i, j);
        } else {
            lemma_grid_3d_ordered(x0, x1, y0, y1, z0, z1, j, i);
        }
    }
}

} // verus!
