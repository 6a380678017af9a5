//! The boundary-extend pass: fills the extended surface from the part of
//! the staging surface that holds screen pixels, repeating the edge pixels
//! of that part into the padding.
//!
//! Surfaces are row-major sequences of 32-bit pixels. The staging surface
//! has the size of the client area; the copied box lies at its origin, and
//! what lies beyond the box was never written and is never read.

use crate::geometry::{
    lemma_copy_box_fits, lemma_index_in_surface, CopyBox, ExtendParams, Extent, FrameLayout,
    Overhang, SourceRect,
};
use vstd::arithmetic::div_mod::lemma_fundamental_div_mod;
use vstd::arithmetic::mul::lemma_mul_is_commutative;
use vstd::prelude::*;

verus! {

/// `v` held within `0..size`: the nearest valid index of an axis that is
/// `size` long.
pub open spec fn clamp_index(v: int, size: int) -> int {
    if v < 0 {
        0
    } else if v >= size {
        size - 1
    } else {
        v
    }
}

/// The source index that destination index `dst` reads on one axis, where
/// the source starts `offset` pixels into the destination and is `size`
/// long.
pub open spec fn source_index(dst: int, offset: int, size: int) -> int {
    clamp_index(dst - offset, size)
}

/// The pixel at column `x`, row `y` of a surface `width` pixels wide.
pub open spec fn pixel_at(surface: Seq<u32>, width: int, x: int, y: int) -> u32 {
    surface[y * width + x]
}

/// What the pass writes at column `x`, row `y` of the destination: the
/// pixel of the staging surface, which is `staging_size` large, at the
/// destination position minus the offset, held within the source part on
/// both axes.
pub open spec fn extended_pixel(
    staging: Seq<u32>,
    staging_size: Extent,
    p: ExtendParams,
    x: int,
    y: int,
) -> u32 {
    pixel_at(
        staging,
        staging_size.width as int,
        source_index(x, p.src_offset_x as int, p.src_size.width as int),
        source_index(y, p.src_offset_y as int, p.src_size.height as int),
    )
}

/// Whether the pass can run on `staging` with parameters `p`: `staging` is
/// a surface of size `staging_size`, the source part lies within it, and
/// there is a pixel to repeat unless nothing is to be written.
pub open spec fn extendable(staging: Seq<u32>, staging_size: Extent, p: ExtendParams) -> bool {
    &&& staging.len() == staging_size.area()
    &&& p.src_size.width <= staging_size.width
    &&& p.src_size.height <= staging_size.height
    &&& p.dst_size.area() > 0 ==> p.src_size.area() > 0
}

/// Whether `out` is the extended surface of `staging` under `p`.
pub open spec fn is_extension_of(
    out: Seq<u32>,
    staging: Seq<u32>,
    staging_size: Extent,
    p: ExtendParams,
) -> bool {
    &&& out.len() == p.dst_size.area()
    &&& forall|x: int, y: int|
        0 <= x < p.dst_size.width && 0 <= y < p.dst_size.height ==> #[trigger] pixel_at(
            out,
            p.dst_size.width as int,
            x,
            y,
        ) == extended_pixel(staging, staging_size, p, x, y)
}

/// Whether the staging surface holds the screen pixels of the box `copy`
/// at its origin, as the copy step leaves them there.
pub open spec fn holds_copy(
    staging: Seq<u32>,
    staging_size: Extent,
    screen_pixels: Seq<u32>,
    screen: Extent,
    copy: CopyBox,
) -> bool {
    forall|i: int, j: int|
        0 <= i < copy.width() && 0 <= j < copy.height() ==> #[trigger] pixel_at(
            staging,
            staging_size.width as int,
            i,
            j,
        ) == pixel_at(screen_pixels, screen.width as int, copy.left + i, copy.top + j)
}

/// The source coordinate that destination coordinate `dst` reads on one
/// axis; `None` for an axis without pixels.
pub fn source_coord(dst: u32, offset: i32, size: u32) -> (s: Option<u32>)
    ensures
        s is Some <==> size > 0,
        s matches Some(c) ==> c == source_index(dst as int, offset as int, size as int) && c
            < size,
{
    if size == 0 {
        return None;
    }
    let v: i64 = dst as i64 - offset as i64;
    if v < 0 {
        Some(0)
    } else if v >= size as i64 {
        Some(size - 1)
    } else {
        Some(v as u32)
    }
}

/// Runs the pass in software on a staging surface of size `staging_size`:
/// every destination pixel takes the colour of the staging pixel at its own
/// position minus the offset, held within the source part on both axes.
/// `None` when `staging` is not a surface of the stated size, when the
/// source part does not lie within it, when there is nothing to repeat, or
/// when the destination cannot be held in memory.
pub fn extend_edges(staging: &Vec<u32>, staging_size: Extent, p: &ExtendParams) -> (out: Option<
    Vec<u32>,
>)
    ensures
        out is Some <==> extendable(staging@, staging_size, *p) && p.dst_size.area()
            <= usize::MAX,
        out matches Some(v) ==> is_extension_of(v@, staging@, staging_size, *p),
{
    let tw: u32 = staging_size.width;
    let th: u32 = staging_size.height;
    let sw: u32 = p.src_size.width;
    let sh: u32 = p.src_size.height;
    let dw: u32 = p.dst_size.width;
    let dh: u32 = p.dst_size.height;
    assert(tw * th <= 0xffff_ffff * 0xffff_ffff) by (nonlinear_arith)
        requires
            0 <= tw <= 0xffff_ffff,
            0 <= th <= 0xffff_ffff,
    ;
    assert(sw * sh <= 0xffff_ffff * 0xffff_ffff) by (nonlinear_arith)
        requires
            0 <= sw <= 0xffff_ffff,
            0 <= sh <= 0xffff_ffff,
    ;
    assert(dw * dh <= 0xffff_ffff * 0xffff_ffff) by (nonlinear_arith)
        requires
            0 <= dw <= 0xffff_ffff,
            0 <= dh <= 0xffff_ffff,
    ;
    let staging_area: u64 = tw as u64 * th as u64;
    let src_area: u64 = sw as u64 * sh as u64;
    let dst_area: u64 = dw as u64 * dh as u64;
    if staging.len() as u64 != staging_area {
        return None;
    }
    if sw > tw || sh > th {
        return None;
    }
    if dst_area > 0 && src_area == 0 {
        return None;
    }
    if dst_area > usize::MAX as u64 {
        return None;
    }
    let mut out: Vec<u32> = Vec::new();
    if dst_area == 0 {
        assert(dw == 0 || dh == 0) by (nonlinear_arith)
            requires
                dw * dh == 0,
        ;
        return Some(out);
    }
    assert(sw > 0 && sh > 0) by (nonlinear_arith)
        requires
            sw * sh > 0,
            sw >= 0,
            sh >= 0,
    ;
    let mut y: u32 = 0;
    while y < dh
        invariant
            0 <= y <= dh,
            tw == staging_size.width,
            th == staging_size.height,
            sw == p.src_size.width,
            sh == p.src_size.height,
            dw == p.dst_size.width,
            dh == p.dst_size.height,
            0 < sw <= tw,
            0 < sh <= th,
            staging@.len() == tw * th,
            tw * th <= usize::MAX,
            dw * dh <= usize::MAX,
            out@.len() == y * dw,
            forall|i: int, j: int|
                0 <= i < dw && 0 <= j < y ==> #[trigger] pixel_at(out@, dw as int, i, j)
                    == extended_pixel(staging@, staging_size, *p, i, j),
        decreases dh - y,
    {
        let sy: u32 = source_coord(y, p.src_offset_y, sh).unwrap();
        let mut x: u32 = 0;
        while x < dw
            invariant
                0 <= x <= dw,
                0 <= y < dh,
                tw == staging_size.width,
                th == staging_size.height,
                sw == p.src_size.width,
                sh == p.src_size.height,
                dw == p.dst_size.width,
                dh == p.dst_size.height,
                0 < sw <= tw,
                0 < sh <= th,
                sy == source_index(y as int, p.src_offset_y as int, sh as int),
                sy < sh,
                staging@.len() == tw * th,
                tw * th <= usize::MAX,
                dw * dh <= usize::MAX,
                out@.len() == y * dw + x,
                forall|i: int, j: int|
                    0 <= i < dw && 0 <= j < y ==> #[trigger] pixel_at(out@, dw as int, i, j)
                        == extended_pixel(staging@, staging_size, *p, i, j),
                forall|i: int|
                    0 <= i < x ==> #[trigger] pixel_at(out@, dw as int, i, y as int)
                        == extended_pixel(staging@, staging_size, *p, i, y as int),
            decreases dw - x,
        {
            let sx: u32 = source_coord(x, p.src_offset_x, sw).unwrap();
            proof {
                lemma_index_in_surface(sx as int, sy as int, tw as int, th as int);
                lemma_mul_is_commutative(tw as int, th as int);
                lemma_index_in_surface(x as int, y as int, dw as int, dh as int);
            }
            let row: usize = sy as usize * tw as usize;
            let pixel: u32 = staging[row + sx as usize];
            let ghost before = out@;
            out.push(pixel);
            proof {
                assert forall|i: int, j: int| 0 <= i < dw && 0 <= j < y implies #[trigger] pixel_at(
                    out@,
                    dw as int,
                    i,
                    j,
                ) == extended_pixel(staging@, staging_size, *p, i, j) by {
                    lemma_index_in_surface(i, j, dw as int, y as int);
                    assert(pixel_at(before, dw as int, i, j) == extended_pixel(
                        staging@,
                        staging_size,
                        *p,
                        i,
                        j,
                    ));
                }
                assert forall|i: int| 0 <= i < x + 1 implies #[trigger] pixel_at(
                    out@,
                    dw as int,
                    i,
                    y as int,
                ) == extended_pixel(staging@, staging_size, *p, i, y as int) by {
                    if i < x {
                        assert(pixel_at(before, dw as int, i, y as int) == extended_pixel(
                            staging@,
                            staging_size,
                            *p,
                            i,
                            y as int,
                        ));
                    }
                }
            }
            x = x + 1;
        }
        proof {
            assert((y + 1) * dw == y * dw + dw) by (nonlinear_arith);
        }
        y = y + 1;
    }
    proof {
        lemma_mul_is_commutative(dw as int, dh as int);
    }
    Some(out)
}

/// Distance between two coordinates.
pub open spec fn distance(a: int, b: int) -> int {
    if a >= b {
        a - b
    } else {
        b - a
    }
}

/// On an axis with pixels, every destination coordinate reads a valid
/// source coordinate: its own position where that lies inside the source,
/// the first or last source coordinate where it lies before or beyond it,
/// and in each case a valid coordinate nearest to the position asked for.
pub proof fn lemma_edge_clamped_read(dst: int, offset: int, size: int)
    requires
        size > 0,
    ensures
        0 <= source_index(dst, offset, size) < size,
        0 <= dst - offset < size ==> source_index(dst, offset, size) == dst - offset,
        dst - offset < 0 ==> source_index(dst, offset, size) == 0,
        dst - offset >= size ==> source_index(dst, offset, size) == size - 1,
        ({
            let wanted = dst - offset;
            forall|c: int|
                0 <= c < size ==> distance(source_index(dst, offset, size), wanted)
                    <= #[trigger] distance(c, wanted)
        }),
{
}

/// Every pixel of the extended surface is a pixel of the source part of
/// the staging surface, read inside the bounds of both: the one at the
/// destination position minus the offset, held within the source part on
/// both axes.
pub proof fn lemma_extension_reads_inside(
    out: Seq<u32>,
    staging: Seq<u32>,
    staging_size: Extent,
    p: ExtendParams,
    x: int,
    y: int,
)
    requires
        extendable(staging, staging_size, p),
        is_extension_of(out, staging, staging_size, p),
        0 <= x < p.dst_size.width,
        0 <= y < p.dst_size.height,
    ensures
        ({
            let sx = source_index(x, p.src_offset_x as int, p.src_size.width as int);
            let sy = source_index(y, p.src_offset_y as int, p.src_size.height as int);
            &&& 0 <= sx < p.src_size.width <= staging_size.width
            &&& 0 <= sy < p.src_size.height <= staging_size.height
            &&& 0 <= sy * staging_size.width + sx < staging.len()
            &&& pixel_at(out, p.dst_size.width as int, x, y) == staging[sy * staging_size.width
                + sx]
        }),
{
    let dw = p.dst_size.width as int;
    let dh = p.dst_size.height as int;
    let sw = p.src_size.width as int;
    let sh = p.src_size.height as int;
    lemma_index_in_surface(x, y, dw, dh);
    assert(sw > 0 && sh > 0) by (nonlinear_arith)
        requires
            sw * sh > 0,
            sw >= 0,
            sh >= 0,
    ;
    let sx = source_index(x, p.src_offset_x as int, sw);
    let sy = source_index(y, p.src_offset_y as int, sh);
    lemma_index_in_surface(sx, sy, staging_size.width as int, staging_size.height as int);
    lemma_mul_is_commutative(staging_size.width as int, staging_size.height as int);
    assert(pixel_at(out, dw, x, y) == extended_pixel(staging, staging_size, p, x, y));
}

/// Destination columns left of the offset repeat the first source column,
/// and destination rows above the offset repeat the first source row.
pub proof fn lemma_padding_repeats_first_edge(
    staging: Seq<u32>,
    staging_size: Extent,
    p: ExtendParams,
    x: int,
    y: int,
)
    requires
        p.src_size.width > 0,
        p.src_size.height > 0,
    ensures
        x <= p.src_offset_x ==> extended_pixel(staging, staging_size, p, x, y) == extended_pixel(
            staging,
            staging_size,
            p,
            p.src_offset_x as int,
            y,
        ),
        x <= p.src_offset_x ==> source_index(x, p.src_offset_x as int, p.src_size.width as int)
            == 0,
        y <= p.src_offset_y ==> extended_pixel(staging, staging_size, p, x, y) == extended_pixel(
            staging,
            staging_size,
            p,
            x,
            p.src_offset_y as int,
        ),
        y <= p.src_offset_y ==> source_index(y, p.src_offset_y as int, p.src_size.height as int)
            == 0,
{
}

/// Destination columns beyond the source part repeat its last column, and
/// destination rows beyond it repeat its last row.
pub proof fn lemma_padding_repeats_last_edge(
    staging: Seq<u32>,
    staging_size: Extent,
    p: ExtendParams,
    x: int,
    y: int,
)
    requires
        p.src_size.width > 0,
        p.src_size.height > 0,
    ensures
        x - p.src_offset_x >= p.src_size.width - 1 ==> source_index(
            x,
            p.src_offset_x as int,
            p.src_size.width as int,
        ) == p.src_size.width - 1,
        x - p.src_offset_x >= p.src_size.width - 1 ==> extended_pixel(
            staging,
            staging_size,
            p,
            x,
            y,
        ) == extended_pixel(
            staging,
            staging_size,
            p,
            p.src_offset_x + p.src_size.width - 1,
            y,
        ),
        y - p.src_offset_y >= p.src_size.height - 1 ==> source_index(
            y,
            p.src_offset_y as int,
            p.src_size.height as int,
        ) == p.src_size.height - 1,
        y - p.src_offset_y >= p.src_size.height - 1 ==> extended_pixel(
            staging,
            staging_size,
            p,
            x,
            y,
        ) == extended_pixel(
            staging,
            staging_size,
            p,
            x,
            p.src_offset_y + p.src_size.height - 1,
        ),
{
}

/// Without overhang the pass copies: where the source part is the whole
/// staging surface, the destination has its size and the offset is zero,
/// the extended surface is the staging surface.
pub proof fn lemma_no_overhang_is_copy(
    out: Seq<u32>,
    staging: Seq<u32>,
    staging_size: Extent,
    p: ExtendParams,
)
    requires
        staging.len() == staging_size.area(),
        is_extension_of(out, staging, staging_size, p),
        p.src_size == staging_size,
        p.dst_size == staging_size,
        p.src_offset_x == 0,
        p.src_offset_y == 0,
    ensures
        out == staging,
{
    let w = staging_size.width as int;
    let h = staging_size.height as int;
    assert(out.len() == staging.len());
    assert forall|i: int| 0 <= i < out.len() implies out[i] == staging[i] by {
        assert(w > 0 && h > 0) by (nonlinear_arith)
            requires
                0 <= i < w * h,
                w >= 0,
                h >= 0,
        ;
        let x = i % w;
        let y = i / w;
        lemma_fundamental_div_mod(i, w);
        assert(0 <= y < h) by (nonlinear_arith)
            requires
                i == w * y + x,
                0 <= x < w,
                0 <= i < w * h,
                w > 0,
        ;
        assert(y * w + x == i) by (nonlinear_arith)
            requires
                i == w * y + x,
        ;
        assert(pixel_at(out, w, x, y) == extended_pixel(staging, staging_size, p, x, y));
        assert(source_index(x, 0, w) == x);
        assert(source_index(y, 0, h) == y);
    }
    assert(out =~= staging);
}

/// The pass under the parameters of a frame layout reads nothing but what
/// the copy step wrote. Where a pixel of the window is on the screen, every
/// destination pixel reads the staging surface inside the copied box: at
/// its own position minus the left and top overhang where that lies in the
/// box, else at the nearest column and row of the box.
pub proof fn lemma_layout_reads_the_copied_box(source: SourceRect, screen: Extent, x: int, y: int)
    requires
        FrameLayout::representable(source, screen),
        CopyBox::clamped(source, screen).non_empty(),
    ensures
        ({
            let layout = FrameLayout::of(source, screen);
            let p = layout.params;
            let copy = CopyBox::clamped(source, screen);
            let sx = source_index(x, p.src_offset_x as int, p.src_size.width as int);
            let sy = source_index(y, p.src_offset_y as int, p.src_size.height as int);
            &&& layout.copy == Some(copy)
            &&& p.src_size.width == copy.width()
            &&& p.src_size.height == copy.height()
            &&& p.src_size.width <= source.width
            &&& p.src_size.height <= source.height
            &&& p.src_offset_x == layout.overhang.left
            &&& p.src_offset_y == layout.overhang.top
            &&& sx == clamp_index(x - layout.overhang.left, copy.width())
            &&& sy == clamp_index(y - layout.overhang.top, copy.height())
            &&& 0 <= sx < copy.width()
            &&& 0 <= sy < copy.height()
            &&& x < layout.overhang.left ==> sx == 0
            &&& y < layout.overhang.top ==> sy == 0
            &&& x >= layout.overhang.left + copy.width() ==> sx == copy.width() - 1
            &&& y >= layout.overhang.top + copy.height() ==> sy == copy.height() - 1
            &&& layout.extended.width == copy.width() + 2 * layout.overhang.left + 2
                * layout.overhang.right
            &&& layout.extended.height == copy.height() + 2 * layout.overhang.top + 2
                * layout.overhang.bottom
        }),
{
    lemma_copy_box_fits(source, screen);
}

/// What the window shows of the screen. Where the staging surface holds
/// the copied box and the pass ran under the parameters of the frame
/// layout, every pixel of the extended surface is a pixel of the screen,
/// taken from the part of the screen that the window covers: the pixel at
/// the destination position minus the left and top overhang, counted from
/// the corner of that part, where that lies in the part, else the nearest
/// pixel of the part. No pixel comes from anywhere else.
pub proof fn lemma_extension_shows_the_screen(
    out: Seq<u32>,
    staging: Seq<u32>,
    screen_pixels: Seq<u32>,
    source: SourceRect,
    screen: Extent,
    x: int,
    y: int,
)
    requires
        FrameLayout::representable(source, screen),
        CopyBox::clamped(source, screen).non_empty(),
        holds_copy(
            staging,
            source.extent(),
            screen_pixels,
            screen,
            CopyBox::clamped(source, screen),
        ),
        is_extension_of(
            out,
            staging,
            source.extent(),
            FrameLayout::of(source, screen).params,
        ),
        0 <= x < FrameLayout::of(source, screen).extended.width,
        0 <= y < FrameLayout::of(source, screen).extended.height,
    ensures
        ({
            let layout = FrameLayout::of(source, screen);
            let valid = CopyBox::clamped(source, screen);
            let vx = clamp_index(x - layout.overhang.left, valid.width());
            let vy = clamp_index(y - layout.overhang.top, valid.height());
            &&& valid.left <= valid.left + vx < valid.right <= screen.width
            &&& valid.top <= valid.top + vy < valid.bottom <= screen.height
            &&& valid.left == (if source.left < 0 {
                0int
            } else {
                source.left as int
            })
            &&& valid.top == (if source.top < 0 {
                0int
            } else {
                source.top as int
            })
            &&& pixel_at(out, layout.extended.width as int, x, y) == pixel_at(
                screen_pixels,
                screen.width as int,
                valid.left + vx,
                valid.top + vy,
            )
        }),
{
    lemma_copy_box_fits(source, screen);
    lemma_layout_reads_the_copied_box(source, screen, x, y);
    let layout = FrameLayout::of(source, screen);
    let valid = CopyBox::clamped(source, screen);
    let vx = clamp_index(x - layout.overhang.left, valid.width());
    let vy = clamp_index(y - layout.overhang.top, valid.height());
    assert(pixel_at(out, layout.extended.width as int, x, y) == extended_pixel(
        staging,
        source.extent(),
        layout.params,
        x,
        y,
    ));
    assert(pixel_at(staging, source.width as int, vx, vy) == pixel_at(
        screen_pixels,
        screen.width as int,
        valid.left + vx,
        valid.top + vy,
    ));
}

} // verus!
