//! The brightness lookup of the tile effect: the glyph sheet is cut into
//! tiles, and each tile gets the average luma of its pixels.
//!
//! Brightness is kept as an integer on a scale on which
//! [`BRIGHTNESS_SCALE`] stands for full brightness.

use crate::geometry::lemma_index_in_surface;
use vstd::prelude::*;

verus! {

/// Weight of the red channel in the luma of a pixel, in thousandths.
pub const LUMA_RED: u32 = 299;

/// Weight of the green channel in the luma of a pixel, in thousandths.
pub const LUMA_GREEN: u32 = 587;

/// Weight of the blue channel in the luma of a pixel, in thousandths.
pub const LUMA_BLUE: u32 = 114;

/// The value that stands for full brightness: channel value 255 at a
/// weight of one thousand thousandths.
pub const BRIGHTNESS_SCALE: u32 = 255_000;

/// Weighted luma of pixel number `pixel` of a buffer of four-byte pixels in
/// blue, green, red, alpha order. A pixel that does not lie in the buffer
/// with its three colour bytes counts as black.
pub open spec fn pixel_luma(pixels: Seq<u8>, pixel: int) -> int {
    if 0 <= pixel && 4 * pixel + 2 < pixels.len() {
        LUMA_RED * pixels[4 * pixel + 2] + LUMA_GREEN * pixels[4 * pixel + 1] + LUMA_BLUE
            * pixels[4 * pixel]
    } else {
        0
    }
}

/// Summed luma of `n` consecutive pixels, the first of them number `first`.
pub open spec fn span_luma(pixels: Seq<u8>, first: int, n: int) -> int
    decreases n,
{
    if n <= 0 {
        0
    } else {
        span_luma(pixels, first, n - 1) + pixel_luma(pixels, first + n - 1)
    }
}

/// Summed luma of a block `block_width` pixels wide and `rows` high whose
/// top-left pixel is at column `x0`, row `y0` of an image `width` wide.
pub open spec fn block_luma(
    pixels: Seq<u8>,
    width: int,
    x0: int,
    y0: int,
    block_width: int,
    rows: int,
) -> int
    decreases rows,
{
    if rows <= 0 {
        0
    } else {
        block_luma(pixels, width, x0, y0, block_width, rows - 1) + span_luma(
            pixels,
            (y0 + rows - 1) * width + x0,
            block_width,
        )
    }
}

/// Brightness of the tile in column `col`, row `row` of the tile grid: the
/// luma of its pixels, averaged over the tile and rounded down.
pub open spec fn tile_brightness(
    pixels: Seq<u8>,
    width: int,
    col: int,
    row: int,
    tile_width: int,
    tile_height: int,
) -> int {
    block_luma(pixels, width, col * tile_width, row * tile_height, tile_width, tile_height) / (
    tile_width * tile_height)
}

/// The entry for the tile in column `col`, row `row` of a table that lists
/// a grid `per_row` tiles wide row by row.
pub open spec fn table_entry(table: Seq<u32>, per_row: int, col: int, row: int) -> u32 {
    table[row * per_row + col]
}

/// Whether `table` is the brightness lookup of the image: one entry per
/// whole tile, row by row, each the brightness of its tile and none above
/// full brightness.
pub open spec fn is_brightness_table(
    table: Seq<u32>,
    pixels: Seq<u8>,
    width: u32,
    height: u32,
    tile_width: u32,
    tile_height: u32,
) -> bool {
    let per_row = (width / tile_width) as int;
    let per_col = (height / tile_height) as int;
    &&& table.len() == per_row * per_col
    &&& forall|col: int, row: int|
        0 <= col < per_row && 0 <= row < per_col ==> #[trigger] table_entry(
            table,
            per_row,
            col,
            row,
        ) == tile_brightness(pixels, width as int, col, row, tile_width as int, tile_height as int)
    &&& forall|i: int| 0 <= i < table.len() ==> #[trigger] table[i] <= BRIGHTNESS_SCALE
}

/// No pixel is brighter than full brightness.
pub proof fn lemma_pixel_luma_bounds(pixels: Seq<u8>, pixel: int)
    ensures
        0 <= pixel_luma(pixels, pixel) <= BRIGHTNESS_SCALE,
{
}

/// A span of `n` pixels is at most `n` times full brightness.
pub proof fn lemma_span_luma_bounds(pixels: Seq<u8>, first: int, n: int)
    requires
        n >= 0,
    ensures
        0 <= span_luma(pixels, first, n) <= BRIGHTNESS_SCALE * n,
    decreases n,
{
    if n > 0 {
        lemma_span_luma_bounds(pixels, first, n - 1);
        lemma_pixel_luma_bounds(pixels, first + n - 1);
    }
}

/// A block is at most its pixel count times full brightness.
pub proof fn lemma_block_luma_bounds(
    pixels: Seq<u8>,
    width: int,
    x0: int,
    y0: int,
    block_width: int,
    rows: int,
)
    requires
        block_width >= 0,
        rows >= 0,
    ensures
        0 <= block_luma(pixels, width, x0, y0, block_width, rows) <= BRIGHTNESS_SCALE * (
        block_width * rows),
    decreases rows,
{
    if rows > 0 {
        lemma_block_luma_bounds(pixels, width, x0, y0, block_width, rows - 1);
        lemma_span_luma_bounds(pixels, (y0 + rows - 1) * width + x0, block_width);
        assert(block_width * rows == block_width * (rows - 1) + block_width)
            by (nonlinear_arith);
    } else {
        assert(block_width * rows == 0) by (nonlinear_arith)
            requires
                rows == 0,
        ;
    }
}

/// The brightness of a tile with pixels lies between black and full
/// brightness.
pub proof fn lemma_tile_brightness_bounds(
    pixels: Seq<u8>,
    width: int,
    col: int,
    row: int,
    tile_width: int,
    tile_height: int,
)
    requires
        tile_width > 0,
        tile_height > 0,
    ensures
        0 <= tile_brightness(pixels, width, col, row, tile_width, tile_height)
            <= BRIGHTNESS_SCALE,
{
    let sum = block_luma(
        pixels,
        width,
        col * tile_width,
        row * tile_height,
        tile_width,
        tile_height,
    );
    let area = tile_width * tile_height;
    lemma_block_luma_bounds(
        pixels,
        width,
        col * tile_width,
        row * tile_height,
        tile_width,
        tile_height,
    );
    assert(area > 0) by (nonlinear_arith)
        requires
            area == tile_width * tile_height,
            tile_width > 0,
            tile_height > 0,
    ;
    assert(0 <= sum / area <= 255_000) by (nonlinear_arith)
        requires
            0 <= sum <= 255_000 * area,
            area > 0,
    ;
}

/// The lookup has one entry for every tile that the tile effect counts on a
/// sheet of the same size.
pub proof fn lemma_table_counts_the_tiles(
    table: Seq<u32>,
    pixels: Seq<u8>,
    sheet: crate::geometry::Extent,
)
    requires
        is_brightness_table(
            table,
            pixels,
            sheet.width,
            sheet.height,
            crate::effects::TILE_WIDTH,
            crate::effects::TILE_HEIGHT,
        ),
        crate::effects::sheet_fits(sheet),
    ensures
        crate::effects::ShaderType::tiles_of(sheet) matches crate::effects::ShaderType::Tiles {
            tiles_per_row,
            total_tiles,
            ..
        } && total_tiles == table.len() && tiles_per_row == sheet.width / 8,
{
}

/// Sums the luma of `n` consecutive pixels from pixel number `first` on.
fn span_sum(pixels: &[u8], first: u128, n: u32) -> (sum: u128)
    requires
        first <= 0x10_0000_0000_0000_0000_0000_0000,
    ensures
        sum == span_luma(pixels@, first as int, n as int),
        sum <= BRIGHTNESS_SCALE * n,
{
    let mut sum: u128 = 0;
    let mut i: u32 = 0;
    while i < n
        invariant
            0 <= i <= n,
            first <= 0x10_0000_0000_0000_0000_0000_0000,
            sum == span_luma(pixels@, first as int, i as int),
            sum <= BRIGHTNESS_SCALE * i,
        decreases n - i,
    {
        let pixel: u128 = first + i as u128;
        let at: u128 = 4 * pixel;
        proof {
            lemma_pixel_luma_bounds(pixels@, pixel as int);
        }
        if at + 2 < pixels.len() as u128 {
            let k: usize = at as usize;
            let b: u128 = pixels[k] as u128;
            let g: u128 = pixels[k + 1] as u128;
            let r: u128 = pixels[k + 2] as u128;
            sum = sum + (LUMA_RED as u128 * r + LUMA_GREEN as u128 * g + LUMA_BLUE as u128 * b);
        }
        i = i + 1;
    }
    sum
}

/// Sums the luma of the block `block_width` by `block_height` whose
/// top-left pixel is at column `x0`, row `y0` of an image `width` wide.
fn block_sum(pixels: &[u8], width: u32, x0: u64, y0: u64, block_width: u32, block_height: u32) -> (sum:
    u128)
    ensures
        sum == block_luma(
            pixels@,
            width as int,
            x0 as int,
            y0 as int,
            block_width as int,
            block_height as int,
        ),
        sum <= BRIGHTNESS_SCALE * (block_width * block_height),
{
    let mut sum: u128 = 0;
    let mut j: u32 = 0;
    while j < block_height
        invariant
            0 <= j <= block_height,
            sum == block_luma(
                pixels@,
                width as int,
                x0 as int,
                y0 as int,
                block_width as int,
                j as int,
            ),
            sum <= BRIGHTNESS_SCALE * (block_width * j),
        decreases block_height - j,
    {
        let y: u128 = y0 as u128 + j as u128;
        assert(y * width <= 0x2_0000_0000_0000_0000_0000_0000) by (nonlinear_arith)
            requires
                0 <= y <= 0x1_0000_0000_ffff_ffff,
                0 <= width <= 0xffff_ffff,
        ;
        let first: u128 = y * width as u128 + x0 as u128;
        let row: u128 = span_sum(pixels, first, block_width);
        proof {
            lemma_block_luma_bounds(
                pixels@,
                width as int,
                x0 as int,
                y0 as int,
                block_width as int,
                j as int,
            );
            assert(block_width * (j + 1) == block_width * j + block_width) by (nonlinear_arith);
            assert(block_width * (j + 1) <= 0xffff_ffff * 0xffff_ffff) by (nonlinear_arith)
                requires
                    0 <= block_width <= 0xffff_ffff,
                    0 <= j + 1 <= 0xffff_ffff,
            ;
        }
        sum = sum + row;
        j = j + 1;
    }
    sum
}

/// Computes the brightness lookup of a glyph sheet `width` by `height`
/// pixels, given as four-byte pixels in blue, green, red, alpha order, for
/// tiles of `tile_width` by `tile_height` pixels. Pixels that the buffer
/// does not hold count as black. `None` for a tile without pixels.
pub fn compute_tile_brightness(
    pixels: &[u8],
    width: u32,
    height: u32,
    tile_width: u32,
    tile_height: u32,
) -> (table: Option<Vec<u32>>)
    ensures
        table is Some <==> tile_width > 0 && tile_height > 0,
        table matches Some(t) ==> is_brightness_table(
            t@,
            pixels@,
            width,
            height,
            tile_width,
            tile_height,
        ),
{
    if tile_width == 0 || tile_height == 0 {
        return None;
    }
    let per_row: u32 = width / tile_width;
    let per_col: u32 = height / tile_height;
    assert(tile_width * tile_height <= 0xffff_ffff * 0xffff_ffff) by (nonlinear_arith)
        requires
            0 <= tile_width <= 0xffff_ffff,
            0 <= tile_height <= 0xffff_ffff,
    ;
    assert(tile_width * tile_height > 0) by (nonlinear_arith)
        requires
            tile_width > 0,
            tile_height > 0,
    ;
    let area: u128 = tile_width as u128 * tile_height as u128;
    let mut table: Vec<u32> = Vec::new();
    let mut row: u32 = 0;
    while row < per_col
        invariant
            0 <= row <= per_col,
            per_row == width / tile_width,
            per_col == height / tile_height,
            tile_width > 0,
            tile_height > 0,
            area == tile_width * tile_height,
            area > 0,
            table@.len() == row * per_row,
            forall|c: int, r: int|
                0 <= c < per_row && 0 <= r < row ==> #[trigger] table_entry(
                    table@,
                    per_row as int,
                    c,
                    r,
                ) == tile_brightness(
                    pixels@,
                    width as int,
                    c,
                    r,
                    tile_width as int,
                    tile_height as int,
                ),
            forall|i: int| 0 <= i < table@.len() ==> #[trigger] table@[i] <= BRIGHTNESS_SCALE,
        decreases per_col - row,
    {
        let mut col: u32 = 0;
        while col < per_row
            invariant
                0 <= col <= per_row,
                0 <= row < per_col,
                per_row == width / tile_width,
                per_col == height / tile_height,
                tile_width > 0,
                tile_height > 0,
                area == tile_width * tile_height,
                area > 0,
                table@.len() == row * per_row + col,
                forall|c: int, r: int|
                    0 <= c < per_row && 0 <= r < row ==> #[trigger] table_entry(
                        table@,
                        per_row as int,
                        c,
                        r,
                    ) == tile_brightness(
                        pixels@,
                        width as int,
                        c,
                        r,
                        tile_width as int,
                        tile_height as int,
                    ),
                forall|c: int|
                    0 <= c < col ==> #[trigger] table_entry(table@, per_row as int, c, row as int)
                        == tile_brightness(
                        pixels@,
                        width as int,
                        c,
                        row as int,
                        tile_width as int,
                        tile_height as int,
                    ),
                forall|i: int| 0 <= i < table@.len() ==> #[trigger] table@[i] <= BRIGHTNESS_SCALE,
            decreases per_row - col,
        {
            assert(col * tile_width <= 0xffff_ffff * 0xffff_ffff) by (nonlinear_arith)
                requires
                    0 <= col <= 0xffff_ffff,
                    0 <= tile_width <= 0xffff_ffff,
            ;
            assert(row * tile_height <= 0xffff_ffff * 0xffff_ffff) by (nonlinear_arith)
                requires
                    0 <= row <= 0xffff_ffff,
                    0 <= tile_height <= 0xffff_ffff,
            ;
            let x0: u64 = col as u64 * tile_width as u64;
            let y0: u64 = row as u64 * tile_height as u64;
            let sum: u128 = block_sum(pixels, width, x0, y0, tile_width, tile_height);
            proof {
                lemma_tile_brightness_bounds(
                    pixels@,
                    width as int,
                    col as int,
                    row as int,
                    tile_width as int,
                    tile_height as int,
                );
            }
            let average: u128 = sum / area;
            let ghost before = table@;
            table.push(average as u32);
            proof {
                assert forall|c: int, r: int| 0 <= c < per_row && 0 <= r < row implies #[trigger] table_entry(
                    table@,
                    per_row as int,
                    c,
                    r,
                ) == tile_brightness(
                    pixels@,
                    width as int,
                    c,
                    r,
                    tile_width as int,
                    tile_height as int,
                ) by {
                    lemma_index_in_surface(c, r, per_row as int, row as int);
                    assert(table_entry(before, per_row as int, c, r) == tile_brightness(
                        pixels@,
                        width as int,
                        c,
                        r,
                        tile_width as int,
                        tile_height as int,
                    ));
                }
                assert forall|c: int| 0 <= c < col + 1 implies #[trigger] table_entry(
                    table@,
                    per_row as int,
                    c,
                    row as int,
                ) == tile_brightness(
                    pixels@,
                    width as int,
                    c,
                    row as int,
                    tile_width as int,
                    tile_height as int,
                ) by {
                    if c < col {
                        assert(table_entry(before, per_row as int, c, row as int)
                            == tile_brightness(
                            pixels@,
                            width as int,
                            c,
                            row as int,
                            tile_width as int,
                            tile_height as int,
                        ));
                    }
                }
                assert forall|i: int| 0 <= i < table@.len() implies #[trigger] table@[i]
                    <= BRIGHTNESS_SCALE by {
                    if i < before.len() {
                        assert(before[i] <= BRIGHTNESS_SCALE);
                    }
                }
            }
            col = col + 1;
        }
        proof {
            assert((row + 1) * per_row == row * per_row + per_row) by (nonlinear_arith);
        }
        row = row + 1;
    }
    proof {
        vstd::arithmetic::mul::lemma_mul_is_commutative(per_row as int, per_col as int);
    }
    Some(table)
}

/// Bytes of one entry of the lookup as the GPU holds it.
pub const LOOKUP_ENTRY_BYTES: u32 = 4;

/// Bytes of a lookup of `entries` entries as the GPU holds it; `None` when
/// that does not fit in 32 bits.
pub fn lookup_byte_width(entries: usize) -> (bytes: Option<u32>)
    ensures
        bytes is Some <==> entries * LOOKUP_ENTRY_BYTES <= u32::MAX,
        bytes matches Some(b) ==> b == entries * LOOKUP_ENTRY_BYTES,
{
    if entries <= 0x3fff_ffff {
        Some(entries as u32 * LOOKUP_ENTRY_BYTES)
    } else {
        None
    }
}

} // verus!
