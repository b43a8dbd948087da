//! Sprite-atlas arithmetic: where a frame's cell sits in a grid atlas, which
//! atlas frame draws a ship, and copying an RGBA image into a larger one.
use vstd::prelude::*;
use vstd::arithmetic::mul::{lemma_mul_inequality, lemma_mul_is_distributive_add_other_way};

verus! {

/// Rotation frames per ship in the ship strip.
pub const SHIP_FRAMES: usize = 128;
/// Columns of the repacked ship atlas.
pub const SHIP_ATLAS_COLS: usize = 16;

/// Top-left corner of cell `index` in an atlas `cols` cells wide, cells
/// filled row by row.
pub open spec fn cell_origin(index: int, cols: int, cell_w: int, cell_h: int) -> (int, int) {
    ((index % cols) * cell_w, (index / cols) * cell_h)
}

/// Top-left pixel of cell `index` in a grid atlas `cols` cells wide.
pub fn atlas_cell(index: usize, cols: usize, cell_w: usize, cell_h: usize) -> (xy: (usize, usize))
    requires
        cols > 0,
        (cols as int) * (cell_w as int) <= usize::MAX,
        (index as int / cols as int) * (cell_h as int) <= usize::MAX,
    ensures
        (xy.0 as int, xy.1 as int) == cell_origin(index as int, cols as int, cell_w as int, cell_h as int),
{
    let col = index % cols;
    let row = index / cols;
    proof {
        assert(col < cols);
        lemma_mul_inequality(col as int, cols as int, cell_w as int);
    }
    (col * cell_w, row * cell_h)
}

/// Different cells of one atlas never overlap: two indices whose cells start
/// at the same pixel are the same index (given non-empty cells).
pub proof fn lemma_cells_are_distinct(a: int, b: int, cols: int, cell_w: int, cell_h: int)
    requires
        a >= 0,
        b >= 0,
        cols > 0,
        cell_w > 0,
        cell_h > 0,
        cell_origin(a, cols, cell_w, cell_h) == cell_origin(b, cols, cell_w, cell_h),
    ensures
        a == b,
{
    assert((a % cols) * cell_w == (b % cols) * cell_w);
    assert((a / cols) * cell_h == (b / cols) * cell_h);
    assert(a % cols == b % cols) by (nonlinear_arith)
        requires
            (a % cols) * cell_w == (b % cols) * cell_w,
            cell_w > 0,
    ;
    assert(a / cols == b / cols) by (nonlinear_arith)
        requires
            (a / cols) * cell_h == (b / cols) * cell_h,
            cell_h > 0,
    ;
    vstd::arithmetic::div_mod::lemma_fundamental_div_mod(a, cols);
    vstd::arithmetic::div_mod::lemma_fundamental_div_mod(b, cols);
}

/// Atlas frame of a ship: player 0 uses the second row of tints, player 1
/// the first; `frame` is the rotation frame within the row.
pub fn ship_atlas_index(owner: usize, frame: usize) -> (i: usize)
    requires
        frame < SHIP_FRAMES,
    ensures
        i == (if owner == 0 { SHIP_FRAMES as int } else { 0 }) + frame,
{
    let row: usize = if owner == 0 { 1 } else { 0 };
    row * SHIP_FRAMES + frame
}

/// Byte offset of the first pixel of source row `y` at its destination.
pub open spec fn dst_row_start(dw: int, dx: int, dy: int, y: int) -> int {
    ((dy + y) * dw + dx) * 4
}

/// `d` with source row `y` (its `sw` RGBA pixels) copied to its destination.
pub open spec fn copy_row(d: Seq<u8>, src: Seq<u8>, sw: int, dw: int, dx: int, dy: int, y: int) -> Seq<u8> {
    let d0 = dst_row_start(dw, dx, dy, y);
    let s0 = y * sw * 4;
    Seq::new(d.len(), |p: int| if d0 <= p < d0 + sw * 4 { src[s0 + (p - d0)] } else { d[p] })
}

/// `d` after copying the first `rows` rows of the `sw`-pixel-wide RGBA image
/// `src` to pixel `(dx, dy)` of a `dw`-pixel-wide RGBA image, top row first.
pub open spec fn blit_rows(d: Seq<u8>, src: Seq<u8>, sw: int, dw: int, dx: int, dy: int, rows: nat) -> Seq<u8>
    decreases rows,
{
    if rows == 0 {
        d
    } else {
        copy_row(blit_rows(d, src, sw, dw, dx, dy, (rows - 1) as nat), src, sw, dw, dx, dy, rows - 1)
    }
}

pub proof fn lemma_blit_len(d: Seq<u8>, src: Seq<u8>, sw: int, dw: int, dx: int, dy: int, rows: nat)
    ensures
        blit_rows(d, src, sw, dw, dx, dy, rows).len() == d.len(),
    decreases rows,
{
    if rows > 0 {
        lemma_blit_len(d, src, sw, dw, dx, dy, (rows - 1) as nat);
    }
}

/// Copies the `src_w` × `src_h` RGBA image `src` into the `dst_w`-wide RGBA
/// image `dst` with its top-left pixel at `(dx, dy)`, one row at a time.
pub fn blit_rgba(src: &[u8], src_w: usize, src_h: usize, dst: &mut Vec<u8>, dst_w: usize, dx: usize, dy: usize)
    requires
        src_w * 4 <= usize::MAX,
        dy + src_h <= usize::MAX,
        src_w * src_h * 4 <= src@.len(),
        src_h > 0 ==> ((dy + src_h - 1) * dst_w + dx + src_w) * 4 <= old(dst)@.len(),
    ensures
        final(dst)@ == blit_rows(old(dst)@, src@, src_w as int, dst_w as int, dx as int, dy as int, src_h as nat),
{
    let row_bytes = src_w * 4;
    let ghost d_init = dst@;
    let dst_len = dst.len();
    let src_len = src.len();
    let mut y: usize = 0;
    while y < src_h
        invariant
            y <= src_h,
            row_bytes == src_w * 4,
            dy + src_h <= usize::MAX,
            dst_len == d_init.len(),
            src_len == src@.len(),
            src_w * src_h * 4 <= src@.len(),
            src_h > 0 ==> ((dy + src_h - 1) * dst_w + dx + src_w) * 4 <= d_init.len(),
            dst@ == blit_rows(d_init, src@, src_w as int, dst_w as int, dx as int, dy as int, y as nat),
        decreases src_h - y,
    {
        proof {
            lemma_blit_len(d_init, src@, src_w as int, dst_w as int, dx as int, dy as int, y as nat);
            lemma_mul_inequality(dy + y, (dy + src_h - 1) as int, dst_w as int);
            lemma_mul_inequality(y + 1, src_h as int, src_w as int);
            lemma_mul_is_distributive_add_other_way(src_w as int, y as int, 1);
            assert(src_w * src_h == src_h * src_w) by (nonlinear_arith);
            assert(((dy + y) * dst_w + dx) * 4 + row_bytes <= d_init.len());
            assert((y + 1) * src_w * 4 <= src@.len()) by (nonlinear_arith)
                requires
                    (y + 1) * src_w <= src_h * src_w,
                    src_h * src_w * 4 <= src@.len(),
            ;
            assert(y * src_w + src_w == (y + 1) * src_w) by (nonlinear_arith);
            assert(y * row_bytes + row_bytes <= src@.len()) by (nonlinear_arith)
                requires
                    row_bytes == src_w * 4,
                    (y + 1) * src_w * 4 <= src@.len(),
                    y >= 0,
                    src_w >= 0,
            ;
        }
        let d0 = ((dy + y) * dst_w + dx) * 4;
        let s0 = y * row_bytes;
        proof {
            assert(s0 == y * src_w * 4) by (nonlinear_arith)
                requires
                    s0 == y * row_bytes,
                    row_bytes == src_w * 4,
            ;
        }
        let ghost row_start = dst@;
        let mut j: usize = 0;
        while j < row_bytes
            invariant
                j <= row_bytes,
                row_bytes == src_w * 4,
                d0 == dst_row_start(dst_w as int, dx as int, dy as int, y as int),
                s0 == y * src_w * 4,
                d0 + row_bytes <= row_start.len(),
                row_start.len() == dst_len,
                src@.len() == src_len,
                s0 + row_bytes <= src@.len(),
                dst@.len() == row_start.len(),
                forall|p: int|
                    0 <= p < row_start.len() ==> #[trigger] dst@[p] == (if d0 <= p < d0 + j {
                        src@[s0 + (p - d0)]
                    } else {
                        row_start[p]
                    }),
            decreases row_bytes - j,
        {
            dst.set(d0 + j, src[s0 + j]);
            j += 1;
        }
        proof {
            assert(dst@ =~= copy_row(row_start, src@, src_w as int, dst_w as int, dx as int, dy as int, y as int));
        }
        y += 1;
    }
}

/// Bytes outside every destination row keep their old value.
pub proof fn lemma_blit_keeps_outside(d: Seq<u8>, src: Seq<u8>, sw: int, dw: int, dx: int, dy: int, rows: nat, p: int)
    requires
        0 <= p < d.len(),
        forall|y: int| 0 <= y < rows ==> !(#[trigger] dst_row_start(dw, dx, dy, y) <= p < dst_row_start(dw, dx, dy, y) + sw * 4),
    ensures
        blit_rows(d, src, sw, dw, dx, dy, rows)[p] == d[p],
    decreases rows,
{
    if rows > 0 {
        lemma_blit_len(d, src, sw, dw, dx, dy, (rows - 1) as nat);
        lemma_blit_keeps_outside(d, src, sw, dw, dx, dy, (rows - 1) as nat, p);
    }
}

/// With the source fitting inside the destination's width, every source
/// pixel lands at its offset from `(dx, dy)` and every other byte is kept:
/// copying places the image without disturbing the rest.
pub proof fn lemma_blit_places_pixel(
    d: Seq<u8>,
    src: Seq<u8>,
    sw: int,
    dw: int,
    dx: int,
    dy: int,
    rows: nat,
    y: int,
    x: int,
    c: int,
)
    requires
        sw >= 0,
        dx >= 0,
        dy >= 0,
        dx + sw <= dw,
        rows * sw * 4 <= src.len(),
        0 <= y < rows,
        0 <= x < sw,
        0 <= c < 4,
        rows > 0 ==> ((dy + rows - 1) * dw + dx + sw) * 4 <= d.len(),
    ensures
        blit_rows(d, src, sw, dw, dx, dy, rows)[((dy + y) * dw + dx + x) * 4 + c] == src[(y * sw + x) * 4 + c],
    decreases rows,
{
    let pos = ((dy + y) * dw + dx + x) * 4 + c;
    lemma_blit_len(d, src, sw, dw, dx, dy, (rows - 1) as nat);
    assert(y * sw * 4 + (pos - dst_row_start(dw, dx, dy, y)) == (y * sw + x) * 4 + c) by (nonlinear_arith)
        requires
            pos == ((dy + y) * dw + dx + x) * 4 + c,
    ;
    lemma_mul_inequality(dy + y, dy + rows - 1, dw);
    if y < rows - 1 {
        let top = rows - 1;
        assert((dy + top) * dw >= (dy + y) * dw + dw) by (nonlinear_arith)
            requires
                y < top,
                dw >= 0,
        ;
        assert(!(dst_row_start(dw, dx, dy, top) <= pos < dst_row_start(dw, dx, dy, top) + sw * 4));
        lemma_mul_inequality(dy + rows - 2, dy + rows - 1, dw);
        assert((rows - 1) * sw * 4 <= rows * sw * 4) by (nonlinear_arith)
            requires
                sw >= 0,
                rows >= 1,
        ;
        lemma_blit_places_pixel(d, src, sw, dw, dx, dy, (rows - 1) as nat, y, x, c);
    }
}

} // verus!
