//! Packing rasterized glyphs into one RGBA texture atlas: glyphs go left to right in rows no
//! wider than the atlas, a glyph that does not fit starts a new row, each row is as high as
//! its highest glyph, and every covered pixel is white with the glyph's coverage as alpha.
use vstd::prelude::*;

verus! {

/// Where a glyph stands in the atlas, and the size of its bitmap there.
#[derive(Clone, Copy, Debug)]
pub struct GlyphPlace {
    pub x: u32,
    pub y: u32,
    pub width: u32,
    pub height: u32,
}

/// A packed atlas: its size in pixels, each glyph's place (in the order the glyphs came) and
/// its RGBA bytes, row after row.
pub struct PackedAtlas {
    pub width: u32,
    pub height: u32,
    pub glyphs: Vec<GlyphPlace>,
    pub data: Vec<u8>,
}

/// The rows of pixels a glyph's bitmap has: its height, none when it has no width.
pub open spec fn glyph_rows(width: u32, height: u32) -> int {
    if width > 0 {
        height as int
    } else {
        0
    }
}

/// The larger of two numbers.
pub open spec fn larger(a: int, b: int) -> int {
    if a >= b {
        a
    } else {
        b
    }
}

/// Where packing stands after the first `n` glyphs: the width the current row has used, the
/// top of the current row, the height of the rows before it, the height of its highest glyph,
/// and the most bitmap rows of a glyph in it.
pub open spec fn cursor(widths: Seq<u32>, heights: Seq<u32>, max_row_width: int, n: int) -> (int, int, int, int, int)
    decreases n,
{
    if n <= 0 {
        (0, 0, 0, 0, 0)
    } else {
        let c = cursor(widths, heights, max_row_width, n - 1);
        let w = widths[n - 1] as int;
        let h = heights[n - 1] as int;
        let rows = glyph_rows(widths[n - 1], heights[n - 1]);
        if c.0 + w > max_row_width {
            (w, c.1 + c.4, c.2 + c.3, h, rows)
        } else {
            (c.0 + w, c.1, c.2, larger(c.3, h), larger(c.4, rows))
        }
    }
}

/// The top-left corner of glyph `i`: next in the current row when it still fits, else at the
/// start of a new row below it.
pub open spec fn glyph_place(widths: Seq<u32>, heights: Seq<u32>, max_row_width: int, i: int) -> (int, int) {
    let c = cursor(widths, heights, max_row_width, i);
    if c.0 + widths[i] > max_row_width {
        (0, c.1 + c.4)
    } else {
        (c.0, c.1)
    }
}

/// The atlas's height: the heights of its rows, each that of its highest glyph, added up.
pub open spec fn atlas_height(widths: Seq<u32>, heights: Seq<u32>, max_row_width: int) -> int {
    let c = cursor(widths, heights, max_row_width, widths.len() as int);
    c.2 + c.3
}

/// Whether glyph `i`'s bitmap covers the pixel at column `col` and row `row`.
pub open spec fn in_glyph(widths: Seq<u32>, heights: Seq<u32>, max_row_width: int, i: int, col: int, row: int) -> bool {
    let p = glyph_place(widths, heights, max_row_width, i);
    p.0 <= col < p.0 + widths[i] && p.1 <= row < p.1 + glyph_rows(widths[i], heights[i])
}

/// The last of the first `n` glyphs that covers a pixel, if any.
pub open spec fn owner(widths: Seq<u32>, heights: Seq<u32>, max_row_width: int, col: int, row: int, n: int) -> Option<int>
    decreases n,
{
    if n <= 0 {
        None
    } else if in_glyph(widths, heights, max_row_width, n - 1, col, row) {
        Some(n - 1)
    } else {
        owner(widths, heights, max_row_width, col, row, n - 1)
    }
}

/// Byte `k` (red, green, blue, alpha) of a pixel that glyph `g` covers: white, with the
/// glyph's coverage there as alpha.
pub open spec fn glyph_byte(
    widths: Seq<u32>,
    heights: Seq<u32>,
    bitmaps: Seq<Seq<u8>>,
    max_row_width: int,
    g: int,
    col: int,
    row: int,
    k: int,
) -> u8 {
    if k < 3 {
        255
    } else {
        let p = glyph_place(widths, heights, max_row_width, g);
        bitmaps[g][(row - p.1) * widths[g] + (col - p.0)]
    }
}

/// Byte `j` of the atlas once the first `n` glyphs are drawn: byte `j % 4` of the pixel
/// `j / 4`, which is that of the last glyph covering it, or 0.
pub open spec fn atlas_byte(
    widths: Seq<u32>,
    heights: Seq<u32>,
    bitmaps: Seq<Seq<u8>>,
    max_row_width: int,
    n: int,
    j: int,
) -> u8 {
    let col = (j / 4) % max_row_width;
    let row = (j / 4) / max_row_width;
    match owner(widths, heights, max_row_width, col, row, n) {
        Some(g) => glyph_byte(widths, heights, bitmaps, max_row_width, g, col, row, j % 4),
        None => 0,
    }
}

/// Whether the glyphs can be packed: every glyph fits in a row, each bitmap holds a byte per
/// pixel, and the atlas's size and byte count fit in 32 bits.
pub open spec fn packable(widths: Seq<u32>, heights: Seq<u32>, bitmaps: Seq<Seq<u8>>, max_row_width: int) -> bool {
    &&& heights.len() == widths.len()
    &&& bitmaps.len() == widths.len()
    &&& forall|i: int| 0 <= i < widths.len() ==> #[trigger] widths[i] <= max_row_width
    &&& forall|i: int| 0 <= i < widths.len() ==> (#[trigger] bitmaps[i]).len() == widths[i] * heights[i]
    &&& atlas_height(widths, heights, max_row_width) <= u32::MAX
    &&& max_row_width * atlas_height(widths, heights, max_row_width) * 4 <= u32::MAX
}

proof fn lemma_cursor_bounds(widths: Seq<u32>, heights: Seq<u32>, max_row_width: int, n: int)
    requires
        0 <= n <= widths.len(),
        heights.len() == widths.len(),
        0 <= max_row_width,
        forall|i: int| 0 <= i < widths.len() ==> #[trigger] widths[i] <= max_row_width,
    ensures
        ({
            let c = cursor(widths, heights, max_row_width, n);
            &&& 0 <= c.0 <= max_row_width
            &&& 0 <= c.1 <= c.2
            &&& 0 <= c.4 <= c.3
            &&& c.2 + c.3 <= atlas_height(widths, heights, max_row_width)
        }),
    decreases widths.len() - n,
{
    if n < widths.len() {
        lemma_cursor_bounds(widths, heights, max_row_width, n + 1);
        if n > 0 {
            lemma_cursor_step(widths, heights, max_row_width, n);
        }
    } else {
        lemma_cursor_step(widths, heights, max_row_width, n);
    }
}

proof fn lemma_cursor_step(widths: Seq<u32>, heights: Seq<u32>, max_row_width: int, n: int)
    requires
        0 <= n <= widths.len(),
        heights.len() == widths.len(),
        0 <= max_row_width,
        forall|i: int| 0 <= i < widths.len() ==> #[trigger] widths[i] <= max_row_width,
    ensures
        ({
            let c = cursor(widths, heights, max_row_width, n);
            &&& 0 <= c.0 <= max_row_width
            &&& 0 <= c.1 <= c.2
            &&& 0 <= c.4 <= c.3
        }),
        n < widths.len() ==> cursor(widths, heights, max_row_width, n).2 + cursor(
            widths,
            heights,
            max_row_width,
            n,
        ).3 <= cursor(widths, heights, max_row_width, n + 1).2 + cursor(widths, heights, max_row_width, n + 1).3,
    decreases n,
{
    if n > 0 {
        lemma_cursor_step(widths, heights, max_row_width, n - 1);
    }
}

proof fn lemma_glyph_bounds(widths: Seq<u32>, heights: Seq<u32>, max_row_width: int, g: int)
    requires
        0 <= g < widths.len(),
        heights.len() == widths.len(),
        0 <= max_row_width,
        forall|i: int| 0 <= i < widths.len() ==> #[trigger] widths[i] <= max_row_width,
    ensures
        ({
            let p = glyph_place(widths, heights, max_row_width, g);
            &&& 0 <= p.0 && p.0 + widths[g] <= max_row_width
            &&& 0 <= p.1 && p.1 + glyph_rows(widths[g], heights[g]) <= atlas_height(widths, heights, max_row_width)
        }),
{
    lemma_cursor_bounds(widths, heights, max_row_width, g);
    lemma_cursor_bounds(widths, heights, max_row_width, g + 1);
}

/// Whether glyph `g` lies entirely above glyph `i` or, in the same row, entirely to its left.
pub open spec fn glyph_before(widths: Seq<u32>, heights: Seq<u32>, max_row_width: int, g: int, i: int) -> bool {
    let pg = glyph_place(widths, heights, max_row_width, g);
    let pi = glyph_place(widths, heights, max_row_width, i);
    ||| pg.1 + glyph_rows(widths[g], heights[g]) <= pi.1
    ||| pg.1 == pi.1 && pg.0 + widths[g] <= pi.0
}

proof fn lemma_cursor_apart(widths: Seq<u32>, heights: Seq<u32>, max_row_width: int, n: int)
    requires
        0 <= n <= widths.len(),
        heights.len() == widths.len(),
    ensures
        forall|g: int|
            0 <= g < n ==> {
                let c = cursor(widths, heights, max_row_width, n);
                let p = #[trigger] glyph_place(widths, heights, max_row_width, g);
                ||| p.1 == c.1 && p.0 + widths[g] <= c.0 && glyph_rows(widths[g], heights[g]) <= c.4
                ||| p.1 + glyph_rows(widths[g], heights[g]) <= c.1
            },
    decreases n,
{
    if n > 0 {
        lemma_cursor_apart(widths, heights, max_row_width, n - 1);
    }
}

/// Packed glyphs stay inside the atlas and never overlap: each lies within the atlas's width
/// and height, and of two glyphs the earlier one lies above the later one or, in the same
/// row, to its left.
pub proof fn lemma_glyphs_apart(widths: Seq<u32>, heights: Seq<u32>, max_row_width: int, g: int, i: int)
    requires
        heights.len() == widths.len(),
        0 <= max_row_width,
        forall|k: int| 0 <= k < widths.len() ==> #[trigger] widths[k] <= max_row_width,
        0 <= g < i < widths.len(),
    ensures
        0 <= glyph_place(widths, heights, max_row_width, g).0,
        glyph_place(widths, heights, max_row_width, g).0 + widths[g] <= max_row_width,
        0 <= glyph_place(widths, heights, max_row_width, g).1,
        glyph_place(widths, heights, max_row_width, g).1 + glyph_rows(widths[g], heights[g]) <= atlas_height(
            widths,
            heights,
            max_row_width,
        ),
        glyph_before(widths, heights, max_row_width, g, i),
{
    lemma_glyph_bounds(widths, heights, max_row_width, g);
    lemma_cursor_apart(widths, heights, max_row_width, i);
    lemma_cursor_bounds(widths, heights, max_row_width, i);
}

proof fn lemma_decode(j: int, width: int, col: int, row: int, k: int)
    requires
        width > 0,
        0 <= col < width,
        0 <= row,
        0 <= k < 4,
        j == (row * width + col) * 4 + k,
    ensures
        (j / 4) % width == col,
        (j / 4) / width == row,
        j % 4 == k,
{
    assert(row * width + col >= 0) by (nonlinear_arith)
        requires
            width > 0,
            0 <= col,
            0 <= row,
    ;
    vstd::arithmetic::div_mod::lemma_fundamental_div_mod_converse(j, 4, row * width + col, k);
    vstd::arithmetic::div_mod::lemma_fundamental_div_mod_converse(row * width + col, width, row, col);
}

proof fn lemma_decode_back(j: int, width: int)
    requires
        width > 0,
        0 <= j,
    ensures
        ((j / 4) / width * width + (j / 4) % width) * 4 <= j < ((j / 4) / width * width + (j / 4) % width) * 4 + 4,
{
    vstd::arithmetic::div_mod::lemma_fundamental_div_mod(j, 4);
    vstd::arithmetic::div_mod::lemma_fundamental_div_mod(j / 4, width);
    assert(width * ((j / 4) / width) == (j / 4) / width * width) by (nonlinear_arith);
}

proof fn lemma_pixel_index(width: int, height: int, col: int, row: int)
    requires
        0 <= col < width,
        0 <= row < height,
    ensures
        0 <= (row * width + col) * 4,
        (row * width + col) * 4 + 3 < width * height * 4,
{
    assert(0 <= row * width + col && row * width + col < width * height) by (nonlinear_arith)
        requires
            0 <= col < width,
            0 <= row < height,
    ;
}

/// Whether glyph `g` has written the pixel at `col` and `row` once its first `rows` rows and
/// then `cols` pixels of the next are drawn.
pub open spec fn written(
    widths: Seq<u32>,
    heights: Seq<u32>,
    max_row_width: int,
    g: int,
    col: int,
    row: int,
    rows: int,
    cols: int,
) -> bool {
    let p = glyph_place(widths, heights, max_row_width, g);
    in_glyph(widths, heights, max_row_width, g, col, row) && (row < p.1 + rows || (row == p.1 + rows && col
        < p.0 + cols))
}

/// Byte `j` of the atlas while glyph `g` is being drawn.
pub open spec fn drawing_byte(
    widths: Seq<u32>,
    heights: Seq<u32>,
    bitmaps: Seq<Seq<u8>>,
    max_row_width: int,
    g: int,
    rows: int,
    cols: int,
    j: int,
) -> u8 {
    let col = (j / 4) % max_row_width;
    let row = (j / 4) / max_row_width;
    if written(widths, heights, max_row_width, g, col, row, rows, cols) {
        glyph_byte(widths, heights, bitmaps, max_row_width, g, col, row, j % 4)
    } else {
        atlas_byte(widths, heights, bitmaps, max_row_width, g, j)
    }
}

proof fn lemma_draw_pixel(
    widths: Seq<u32>,
    heights: Seq<u32>,
    bitmaps: Seq<Seq<u8>>,
    max_row_width: int,
    g: int,
    rows: int,
    cols: int,
    before: Seq<u8>,
    after: Seq<u8>,
    base: int,
)
    requires
        0 <= g < widths.len(),
        heights.len() == widths.len(),
        max_row_width > 0,
        0 <= rows < glyph_rows(widths[g], heights[g]),
        0 <= cols < widths[g],
        glyph_place(widths, heights, max_row_width, g).0 + widths[g] <= max_row_width,
        0 <= glyph_place(widths, heights, max_row_width, g).0,
        0 <= glyph_place(widths, heights, max_row_width, g).1,
        base == ((glyph_place(widths, heights, max_row_width, g).1 + rows) * max_row_width
            + glyph_place(widths, heights, max_row_width, g).0 + cols) * 4,
        0 <= base,
        base + 3 < before.len(),
        after.len() == before.len(),
        forall|j: int|
            0 <= j < before.len() ==> #[trigger] before[j] == drawing_byte(
                widths,
                heights,
                bitmaps,
                max_row_width,
                g,
                rows,
                cols,
                j,
            ),
        forall|j: int| 0 <= j < before.len() && (j < base || j >= base + 4) ==> #[trigger] after[j] == before[j],
        forall|k: int|
            0 <= k < 4 ==> #[trigger] after[base + k] == glyph_byte(
                widths,
                heights,
                bitmaps,
                max_row_width,
                g,
                glyph_place(widths, heights, max_row_width, g).0 + cols,
                glyph_place(widths, heights, max_row_width, g).1 + rows,
                k,
            ),
    ensures
        forall|j: int|
            0 <= j < after.len() ==> #[trigger] after[j] == drawing_byte(
                widths,
                heights,
                bitmaps,
                max_row_width,
                g,
                rows,
                cols + 1,
                j,
            ),
{
    let p = glyph_place(widths, heights, max_row_width, g);
    let tcol = p.0 + cols;
    let trow = p.1 + rows;
    assert forall|j: int| 0 <= j < after.len() implies #[trigger] after[j] == drawing_byte(
        widths,
        heights,
        bitmaps,
        max_row_width,
        g,
        rows,
        cols + 1,
        j,
    ) by {
        let col = (j / 4) % max_row_width;
        let row = (j / 4) / max_row_width;
        if base <= j < base + 4 {
            lemma_decode(j, max_row_width, tcol, trow, j - base);
            assert(after[base + (j - base)] == after[j]);
        } else {
            assert(before[j] == after[j]);
            if col == tcol && row == trow {
                lemma_decode_back(j, max_row_width);
            }
        }
    }
}

/// Packs glyph bitmaps into an RGBA atlas `max_row_width` pixels wide: each glyph, in order,
/// goes right after the previous one in the current row, or at the start of a new row when it
/// would pass the atlas's width; a row is as high as its highest glyph (`heights`), and the
/// atlas as high as its rows together. Every pixel a glyph's bitmap covers is white with the
/// bitmap's value as alpha; every other byte is 0. `widths`, `heights` and `bitmaps` give each
/// glyph's size and its bitmap, row after row.
pub fn pack_font_atlas(
    widths: &Vec<u32>,
    heights: &Vec<u32>,
    bitmaps: &Vec<Vec<u8>>,
    max_row_width: u32,
) -> (atlas: PackedAtlas)
    requires
        packable(widths@, heights@, bitmaps@.map_values(|b: Vec<u8>| b@), max_row_width as int),
    ensures
        atlas.width == max_row_width,
        atlas.height == atlas_height(widths@, heights@, max_row_width as int),
        atlas.glyphs@.len() == widths@.len(),
        forall|i: int|
            0 <= i < widths@.len() ==> {
                let p = glyph_place(widths@, heights@, max_row_width as int, i);
                &&& (#[trigger] atlas.glyphs@[i]).x == p.0
                &&& atlas.glyphs@[i].y == p.1
                &&& atlas.glyphs@[i].width == widths@[i]
                &&& atlas.glyphs@[i].height == glyph_rows(widths@[i], heights@[i])
            },
        atlas.data@.len() == max_row_width * atlas.height * 4,
        forall|j: int|
            0 <= j < atlas.data@.len() ==> #[trigger] atlas.data@[j] == atlas_byte(
                widths@,
                heights@,
                bitmaps@.map_values(|b: Vec<u8>| b@),
                max_row_width as int,
                widths@.len() as int,
                j,
            ),
{
    let ghost ws = widths@;
    let ghost hs = heights@;
    let ghost bms = bitmaps@.map_values(|b: Vec<u8>| b@);
    let ghost mw = max_row_width as int;
    let n = widths.len();
    let mut places: Vec<GlyphPlace> = Vec::new();
    let mut x: u64 = 0;
    let mut y: u64 = 0;
    let mut done: u64 = 0;
    let mut row_h: u64 = 0;
    let mut row_rows: u64 = 0;
    let mut i: usize = 0;
    while i < n
        invariant
            i <= n,
            n == ws.len(),
            ws == widths@,
            hs == heights@,
            bms == bitmaps@.map_values(|b: Vec<u8>| b@),
            mw == max_row_width as int,
            packable(ws, hs, bms, mw),
            (x as int, y as int, done as int, row_h as int, row_rows as int) == cursor(ws, hs, mw, i as int),
            places@.len() == i,
            forall|g: int|
                0 <= g < i ==> {
                    let p = glyph_place(ws, hs, mw, g);
                    &&& (#[trigger] places@[g]).x == p.0
                    &&& places@[g].y == p.1
                    &&& places@[g].width == ws[g]
                    &&& places@[g].height == glyph_rows(ws[g], hs[g])
                },
        decreases n - i,
    {
        proof {
            lemma_cursor_bounds(ws, hs, mw, i as int);
            lemma_cursor_bounds(ws, hs, mw, i as int + 1);
        }
        let w: u64 = widths[i] as u64;
        let h: u64 = heights[i] as u64;
        let rows: u64 = if w > 0 {
            h
        } else {
            0
        };
        if x + w > max_row_width as u64 {
            y = y + row_rows;
            done = done + row_h;
            x = w;
            row_h = h;
            row_rows = rows;
            places.push(GlyphPlace { x: 0, y: y as u32, width: widths[i], height: rows as u32 });
        } else {
            places.push(GlyphPlace { x: x as u32, y: y as u32, width: widths[i], height: rows as u32 });
            x = x + w;
            if h > row_h {
                row_h = h;
            }
            if rows > row_rows {
                row_rows = rows;
            }
        }
        i = i + 1;
    }
    proof {
        lemma_cursor_bounds(ws, hs, mw, n as int);
    }
    let height: u32 = (done + row_h) as u32;
    let total: u64 = (max_row_width as u64) * (height as u64) * 4;
    let total: usize = total as usize;
    let mut data: Vec<u8> = Vec::new();
    while data.len() < total
        invariant
            data@.len() <= total,
            forall|j: int| 0 <= j < data@.len() ==> #[trigger] data@[j] == 0u8,
        decreases total - data@.len(),
    {
        data.push(0);
    }
    proof {
        assert forall|j: int| 0 <= j < data@.len() implies #[trigger] data@[j] == atlas_byte(ws, hs, bms, mw, 0, j) by {
        }
    }
    let mut g: usize = 0;
    while g < n
        invariant
            g <= n,
            n == ws.len(),
            ws == widths@,
            hs == heights@,
            bms == bitmaps@.map_values(|b: Vec<u8>| b@),
            mw == max_row_width as int,
            packable(ws, hs, bms, mw),
            height == atlas_height(ws, hs, mw),
            total == mw * height * 4,
            data@.len() == total,
            places@.len() == n,
            forall|k: int|
                0 <= k < n ==> {
                    let p = glyph_place(ws, hs, mw, k);
                    &&& (#[trigger] places@[k]).x == p.0
                    &&& places@[k].y == p.1
                    &&& places@[k].width == ws[k]
                    &&& places@[k].height == glyph_rows(ws[k], hs[k])
                },
            forall|j: int| 0 <= j < data@.len() ==> #[trigger] data@[j] == atlas_byte(ws, hs, bms, mw, g as int, j),
        decreases n - g,
    {
        let place = places[g];
        proof {
            lemma_glyph_bounds(ws, hs, mw, g as int);
            assert forall|j: int| 0 <= j < data@.len() implies #[trigger] data@[j] == drawing_byte(
                ws,
                hs,
                bms,
                mw,
                g as int,
                0,
                0,
                j,
            ) by {
                let p = glyph_place(ws, hs, mw, g as int);
                let row = (j / 4) / mw;
                if mw > 0 {
                    if in_glyph(ws, hs, mw, g as int, (j / 4) % mw, row) {
                        assert(row >= p.1);
                    }
                }
            }
        }
        let bitmap = &bitmaps[g];
        proof {
            assert(bitmap@ == bms[g as int]);
        }
        let mut yy: u32 = 0;
        while yy < place.height
            invariant
                g < n,
                n == ws.len(),
                ws == widths@,
                hs == heights@,
                bms == bitmaps@.map_values(|b: Vec<u8>| b@),
                bitmap@ == bms[g as int],
                mw == max_row_width as int,
                packable(ws, hs, bms, mw),
                height == atlas_height(ws, hs, mw),
                total == mw * height * 4,
                data@.len() == total,
                place == places@[g as int],
                place.x == glyph_place(ws, hs, mw, g as int).0,
                place.y == glyph_place(ws, hs, mw, g as int).1,
                place.width == ws[g as int],
                place.height == glyph_rows(ws[g as int], hs[g as int]),
                place.x + place.width <= mw,
                place.y + place.height <= height,
                yy <= place.height,
                forall|j: int|
                    0 <= j < data@.len() ==> #[trigger] data@[j] == drawing_byte(
                        ws,
                        hs,
                        bms,
                        mw,
                        g as int,
                        yy as int,
                        0,
                        j,
                    ),
            decreases place.height - yy,
        {
            let mut xx: u32 = 0;
            while xx < place.width
                invariant
                    g < n,
                    n == ws.len(),
                    ws == widths@,
                    hs == heights@,
                    bitmap@ == bms[g as int],
                    mw == max_row_width as int,
                    packable(ws, hs, bms, mw),
                    height == atlas_height(ws, hs, mw),
                    total == mw * height * 4,
                    data@.len() == total,
                    place.x == glyph_place(ws, hs, mw, g as int).0,
                    place.y == glyph_place(ws, hs, mw, g as int).1,
                    place.width == ws[g as int],
                    place.height == glyph_rows(ws[g as int], hs[g as int]),
                    place.x + place.width <= mw,
                    place.y + place.height <= height,
                    yy < place.height,
                    xx <= place.width,
                    forall|j: int|
                        0 <= j < data@.len() ==> #[trigger] data@[j] == drawing_byte(
                            ws,
                            hs,
                            bms,
                            mw,
                            g as int,
                            yy as int,
                            xx as int,
                            j,
                        ),
                decreases place.width - xx,
            {
                let row: usize = (place.y + yy) as usize;
                let col: usize = (place.x + xx) as usize;
                proof {
                    lemma_pixel_index(mw, height as int, col as int, row as int);
                    assert(bms[g as int].len() == ws[g as int] * hs[g as int]);
                    assert(yy * place.width + xx < place.width * place.height) by (nonlinear_arith)
                        requires
                            yy < place.height,
                            xx < place.width,
                    ;
                    assert(place.height == hs[g as int]);
                    assert(place.width * place.height == ws[g as int] * hs[g as int]);
                    assert(bitmap@.len() == place.width * place.height);
                    assert(yy * place.width <= yy * place.width + xx) by (nonlinear_arith)
                        requires
                            xx >= 0,
                    ;
                }
                let bitmap_len = bitmap.len();
                let base: usize = (row * (max_row_width as usize) + col) * 4;
                let src: usize = (yy as usize) * (place.width as usize) + (xx as usize);
                let coverage = bitmap[src];
                let ghost before = data@;
                data.set(base, 255);
                data.set(base + 1, 255);
                data.set(base + 2, 255);
                data.set(base + 3, coverage);
                proof {
                    assert forall|k: int| 0 <= k < 4 implies #[trigger] data@[base + k] == glyph_byte(
                        ws,
                        hs,
                        bms,
                        mw,
                        g as int,
                        place.x + xx,
                        place.y + yy,
                        k,
                    ) by {
                        assert((place.y + yy - place.y) * ws[g as int] + (place.x + xx - place.x) == src);
                    }
                    lemma_draw_pixel(ws, hs, bms, mw, g as int, yy as int, xx as int, before, data@, base as int);
                }
                xx = xx + 1;
            }
            proof {
                assert forall|j: int| 0 <= j < data@.len() implies #[trigger] data@[j] == drawing_byte(
                    ws,
                    hs,
                    bms,
                    mw,
                    g as int,
                    yy as int + 1,
                    0,
                    j,
                ) by {
                    assert(drawing_byte(ws, hs, bms, mw, g as int, yy as int, place.width as int, j) == drawing_byte(
                        ws,
                        hs,
                        bms,
                        mw,
                        g as int,
                        yy as int + 1,
                        0,
                        j,
                    ));
                }
            }
            yy = yy + 1;
        }
        proof {
            assert forall|j: int| 0 <= j < data@.len() implies #[trigger] data@[j] == atlas_byte(
                ws,
                hs,
                bms,
                mw,
                g as int + 1,
                j,
            ) by {
                assert(drawing_byte(ws, hs, bms, mw, g as int, place.height as int, 0, j) == atlas_byte(
                    ws,
                    hs,
                    bms,
                    mw,
                    g as int + 1,
                    j,
                ));
            }
        }
        g = g + 1;
    }
    PackedAtlas { width: max_row_width, height, glyphs: places, data }
}

} // verus!
