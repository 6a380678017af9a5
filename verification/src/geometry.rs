//! Screen-space geometry of the captured region: where the client area sits
//! on the screen, how far it hangs over each screen edge, and which part of
//! the screen can actually be copied.

use vstd::arithmetic::mul::{lemma_mul_inequality, lemma_mul_is_commutative};
use vstd::prelude::*;

verus! {

/// Width and height of a pixel surface.
#[derive(Clone, Copy, Debug, PartialEq, Eq, Structural)]
pub struct Extent {
    pub width: u32,
    pub height: u32,
}

impl Extent {
    /// Number of pixels the surface holds.
    pub open spec fn area(self) -> int {
        self.width * self.height
    }

    pub fn new(width: u32, height: u32) -> (e: Extent)
        ensures
            e == (Extent { width, height }),
    {
        Extent { width, height }
    }

    /// Whether the surface holds no pixel at all.
    pub fn is_empty(&self) -> (empty: bool)
        ensures
            empty == (self.width == 0 || self.height == 0),
    {
        self.width == 0 || self.height == 0
    }
}

/// The screen-space rectangle that the client area covers: the client
/// origin in screen coordinates together with the client size.
#[derive(Clone, Copy, Debug, PartialEq, Eq, Structural)]
pub struct SourceRect {
    pub left: i32,
    pub top: i32,
    pub width: u32,
    pub height: u32,
}

impl SourceRect {
    /// One past the last covered column, in screen coordinates.
    pub open spec fn right(self) -> int {
        self.left + self.width
    }

    /// One past the last covered row, in screen coordinates.
    pub open spec fn bottom(self) -> int {
        self.top + self.height
    }

    pub open spec fn extent(self) -> Extent {
        Extent { width: self.width, height: self.height }
    }

    /// The rectangle of a client area of size `client` whose top-left corner
    /// sits at screen position (`origin_x`, `origin_y`).
    pub fn from_placement(origin_x: i32, origin_y: i32, client: Extent) -> (r: SourceRect)
        ensures
            r == (SourceRect {
                left: origin_x,
                top: origin_y,
                width: client.width,
                height: client.height,
            }),
    {
        SourceRect { left: origin_x, top: origin_y, width: client.width, height: client.height }
    }

    /// The same origin with another client size.
    pub open spec fn resized_to(self, client: Extent) -> SourceRect {
        SourceRect { left: self.left, top: self.top, width: client.width, height: client.height }
    }

    /// The same origin with another client size.
    pub fn with_extent(&self, client: Extent) -> (r: SourceRect)
        ensures
            r == self.resized_to(client),
    {
        SourceRect { left: self.left, top: self.top, width: client.width, height: client.height }
    }
}

/// How far a span that starts at `start` lies before coordinate zero.
pub open spec fn overhang_before(start: int) -> int {
    if start < 0 {
        -start
    } else {
        0
    }
}

/// How far a span that ends at `end` (exclusive) lies beyond `limit`.
pub open spec fn overhang_after(end: int, limit: int) -> int {
    if end > limit {
        end - limit
    } else {
        0
    }
}

/// Distance by which a rectangle sticks out of the screen, per edge.
#[derive(Clone, Copy, Debug, PartialEq, Eq, Structural)]
pub struct Overhang {
    pub left: u64,
    pub top: u64,
    pub right: u64,
    pub bottom: u64,
}

impl Overhang {
    /// The overhang of `source` on a screen of size `screen`, as a
    /// mathematical statement.
    pub open spec fn of(source: SourceRect, screen: Extent) -> Overhang {
        Overhang {
            left: overhang_before(source.left as int) as u64,
            top: overhang_before(source.top as int) as u64,
            right: overhang_after(source.right(), screen.width as int) as u64,
            bottom: overhang_after(source.bottom(), screen.height as int) as u64,
        }
    }

    /// Width of a surface of width `width` widened by both horizontal overhangs.
    pub open spec fn extended_width(self, width: u32) -> int {
        width + self.left + self.right
    }

    /// Height of a surface of height `height` heightened by both vertical overhangs.
    pub open spec fn extended_height(self, height: u32) -> int {
        height + self.top + self.bottom
    }

    pub open spec fn is_zero(self) -> bool {
        self.left == 0 && self.top == 0 && self.right == 0 && self.bottom == 0
    }

    /// Measures how far `source` sticks out of a screen of size `screen`.
    pub fn measure(source: SourceRect, screen: Extent) -> (o: Overhang)
        ensures
            o == Overhang::of(source, screen),
            o.left == overhang_before(source.left as int),
            o.top == overhang_before(source.top as int),
            o.right == overhang_after(source.right(), screen.width as int),
            o.bottom == overhang_after(source.bottom(), screen.height as int),
    {
        let left: i64 = source.left as i64;
        let top: i64 = source.top as i64;
        let right: i64 = left + source.width as i64;
        let bottom: i64 = top + source.height as i64;
        let screen_w: i64 = screen.width as i64;
        let screen_h: i64 = screen.height as i64;
        Overhang {
            left: if left < 0 { (-left) as u64 } else { 0 },
            top: if top < 0 { (-top) as u64 } else { 0 },
            right: if right > screen_w { (right - screen_w) as u64 } else { 0 },
            bottom: if bottom > screen_h { (bottom - screen_h) as u64 } else { 0 },
        }
    }

    /// The size of the extended surface: `client` plus the overhang on each
    /// axis. `None` when a side of it does not fit in 32 bits.
    pub fn extend(&self, client: Extent) -> (e: Option<Extent>)
        ensures
            e is Some <==> self.extended_width(client.width) <= u32::MAX
                && self.extended_height(client.height) <= u32::MAX,
            e matches Some(x) ==> x.width == self.extended_width(client.width) && x.height
                == self.extended_height(client.height),
    {
        let w: u128 = client.width as u128 + self.left as u128 + self.right as u128;
        let h: u128 = client.height as u128 + self.top as u128 + self.bottom as u128;
        if w <= u32::MAX as u128 && h <= u32::MAX as u128 {
            Some(Extent { width: w as u32, height: h as u32 })
        } else {
            None
        }
    }
}

/// `v` held within `0..=limit`.
pub open spec fn clamp_to(v: int, limit: int) -> int {
    if v < 0 {
        0
    } else if v > limit {
        limit
    } else {
        v
    }
}

/// A box of screen pixels, right and bottom exclusive.
#[derive(Clone, Copy, Debug, PartialEq, Eq, Structural)]
pub struct CopyBox {
    pub left: u32,
    pub top: u32,
    pub right: u32,
    pub bottom: u32,
}

impl CopyBox {
    pub open spec fn width(self) -> int {
        self.right - self.left
    }

    pub open spec fn height(self) -> int {
        self.bottom - self.top
    }

    /// The part of `source` that lies on a screen of size `screen`, each
    /// edge held within the screen.
    pub open spec fn clamped(source: SourceRect, screen: Extent) -> CopyBox {
        CopyBox {
            left: clamp_to(source.left as int, screen.width as int) as u32,
            top: clamp_to(source.top as int, screen.height as int) as u32,
            right: clamp_to(source.right(), screen.width as int) as u32,
            bottom: clamp_to(source.bottom(), screen.height as int) as u32,
        }
    }

    /// Whether the box holds at least one pixel.
    pub open spec fn non_empty(self) -> bool {
        self.right > self.left && self.bottom > self.top
    }

    /// The size of the box; a side that ends before it starts is empty.
    pub open spec fn size(self) -> Extent {
        Extent {
            width: if self.right >= self.left {
                (self.right - self.left) as u32
            } else {
                0
            },
            height: if self.bottom >= self.top {
                (self.bottom - self.top) as u32
            } else {
                0
            },
        }
    }

    /// The size of the box; a side that ends before it starts is empty.
    pub fn extent(&self) -> (e: Extent)
        ensures
            e == self.size(),
    {
        Extent {
            width: if self.right >= self.left {
                self.right - self.left
            } else {
                0
            },
            height: if self.bottom >= self.top {
                self.bottom - self.top
            } else {
                0
            },
        }
    }

    /// The part of `source` that lies on a screen of size `screen`, each
    /// edge held within the screen. The box is empty where no pixel of
    /// `source` is on the screen.
    pub fn clamp(source: SourceRect, screen: Extent) -> (c: CopyBox)
        ensures
            c == CopyBox::clamped(source, screen),
            c.left <= c.right <= screen.width,
            c.top <= c.bottom <= screen.height,
            c.width() <= source.width,
            c.height() <= source.height,
    {
        let src_left: i64 = source.left as i64;
        let src_top: i64 = source.top as i64;
        let src_right: i64 = src_left + source.width as i64;
        let src_bottom: i64 = src_top + source.height as i64;
        CopyBox {
            left: clamp_edge(src_left, screen.width),
            top: clamp_edge(src_top, screen.height),
            right: clamp_edge(src_right, screen.width),
            bottom: clamp_edge(src_bottom, screen.height),
        }
    }

    /// The on-screen part of `source`: the box to copy out of the captured
    /// screen, or `None` when no pixel of `source` is on the screen.
    pub fn visible(source: SourceRect, screen: Extent) -> (b: Option<CopyBox>)
        ensures
            b is Some <==> CopyBox::clamped(source, screen).non_empty(),
            b matches Some(c) ==> c == CopyBox::clamped(source, screen),
    {
        let c = CopyBox::clamp(source, screen);
        if c.right > c.left && c.bottom > c.top {
            Some(c)
        } else {
            None
        }
    }
}

/// Holds one edge coordinate within `0..=limit`.
fn clamp_edge(v: i64, limit: u32) -> (c: u32)
    ensures
        c == clamp_to(v as int, limit as int),
{
    if v < 0 {
        0
    } else if v > limit as i64 {
        limit
    } else {
        v as u32
    }
}

/// Side of the square thread group that the extend pass runs in.
pub const GROUP_SIDE: u32 = 8;

/// Number of thread groups of side [`GROUP_SIDE`] needed to cover `n` pixels.
pub open spec fn groups_for(n: int) -> int {
    (n + 7) / 8
}

/// Thread groups along one axis of a destination `n` pixels long.
pub fn thread_groups(n: u32) -> (g: u32)
    ensures
        g == groups_for(n as int),
        g * GROUP_SIDE >= n,
        n > 0 ==> (g - 1) * GROUP_SIDE < n,
        n == 0 ==> g == 0,
{
    let g: u64 = (n as u64 + 7) / 8;
    g as u32
}

/// The uniform block of the extend pass.
#[derive(Clone, Copy, Debug, PartialEq, Eq, Structural)]
pub struct ExtendParams {
    /// Size of the part of the staging surface that holds screen pixels:
    /// the copied box, which lies at the origin of the staging surface.
    /// Reads are held within it; what lies beyond it was never written.
    pub src_size: Extent,
    /// Size of the extended surface that is written.
    pub dst_size: Extent,
    /// Where the copied box starts inside the extended surface: the left
    /// and top overhang.
    pub src_offset_x: i32,
    pub src_offset_y: i32,
}

/// Everything a frame needs to know about sizes and positions.
#[derive(Clone, Copy, Debug, PartialEq, Eq, Structural)]
pub struct FrameLayout {
    pub overhang: Overhang,
    /// Size of the extended surface.
    pub extended: Extent,
    /// The screen pixels to copy into the staging surface, at its origin;
    /// `None` when the window is entirely off screen.
    pub copy: Option<CopyBox>,
    /// The parameters of the extend pass. Its source is the copied box,
    /// not the whole staging surface.
    pub params: ExtendParams,
    pub groups_x: u32,
    pub groups_y: u32,
}

impl FrameLayout {
    /// Whether a layout exists for `source` on `screen`: the extended size
    /// fits in 32 bits and the offsets in 31.
    pub open spec fn representable(source: SourceRect, screen: Extent) -> bool {
        let o = Overhang::of(source, screen);
        &&& o.extended_width(source.width) <= u32::MAX
        &&& o.extended_height(source.height) <= u32::MAX
        &&& o.left <= i32::MAX
        &&& o.top <= i32::MAX
    }

    /// The layout of `source` on `screen`.
    pub open spec fn of(source: SourceRect, screen: Extent) -> FrameLayout {
        let o = Overhang::of(source, screen);
        let extended = Extent {
            width: o.extended_width(source.width) as u32,
            height: o.extended_height(source.height) as u32,
        };
        let clamped = CopyBox::clamped(source, screen);
        FrameLayout {
            overhang: o,
            extended,
            copy: if clamped.non_empty() {
                Some(clamped)
            } else {
                None
            },
            params: ExtendParams {
                src_size: clamped.size(),
                dst_size: extended,
                src_offset_x: o.left as i32,
                src_offset_y: o.top as i32,
            },
            groups_x: groups_for(extended.width as int) as u32,
            groups_y: groups_for(extended.height as int) as u32,
        }
    }

    /// Lays out one frame: overhang, extended size, the box to copy, the
    /// extend pass's parameters and its dispatch size.
    pub fn compute(source: SourceRect, screen: Extent) -> (l: Option<FrameLayout>)
        ensures
            l is Some <==> FrameLayout::representable(source, screen),
            l matches Some(f) ==> f == FrameLayout::of(source, screen),
    {
        let overhang = Overhang::measure(source, screen);
        let client = Extent { width: source.width, height: source.height };
        match overhang.extend(client) {
            None => None,
            Some(extended) => {
                if overhang.left > i32::MAX as u64 || overhang.top > i32::MAX as u64 {
                    None
                } else {
                    let valid = CopyBox::clamp(source, screen);
                    Some(
                        FrameLayout {
                            overhang,
                            extended,
                            copy: CopyBox::visible(source, screen),
                            params: ExtendParams {
                                src_size: valid.extent(),
                                dst_size: extended,
                                src_offset_x: overhang.left as i32,
                                src_offset_y: overhang.top as i32,
                            },
                            groups_x: thread_groups(extended.width),
                            groups_y: thread_groups(extended.height),
                        },
                    )
                }
            },
        }
    }
}

/// The extended surface is the client area plus the overhang on each axis.
/// On an edge where the source rectangle lies within the screen the
/// overhang is zero; on an edge where it does not, the overhang is positive
/// and equals the distance by which the rectangle is out of bounds.
pub proof fn lemma_extended_size_and_overhang(source: SourceRect, screen: Extent)
    ensures
        ({
            let o = Overhang::of(source, screen);
            &&& source.left >= 0 ==> o.left == 0
            &&& source.left < 0 ==> o.left > 0 && o.left == -source.left
            &&& source.top >= 0 ==> o.top == 0
            &&& source.top < 0 ==> o.top > 0 && o.top == -source.top
            &&& source.right() <= screen.width ==> o.right == 0
            &&& source.right() > screen.width ==> o.right > 0 && o.right == source.right()
                - screen.width
            &&& source.bottom() <= screen.height ==> o.bottom == 0
            &&& source.bottom() > screen.height ==> o.bottom > 0 && o.bottom == source.bottom()
                - screen.height
        }),
        FrameLayout::representable(source, screen) ==> ({
            let f = FrameLayout::of(source, screen);
            &&& f.extended.width == source.width + f.overhang.left + f.overhang.right
            &&& f.extended.height == source.height + f.overhang.top + f.overhang.bottom
            &&& f.params.dst_size == f.extended
            &&& f.params.src_size == CopyBox::clamped(source, screen).size()
            &&& f.params.src_size.width <= source.width
            &&& f.params.src_size.height <= source.height
            &&& f.params.src_offset_x == f.overhang.left
            &&& f.params.src_offset_y == f.overhang.top
        }),
{
}

/// A rectangle that lies within the screen on all four edges has no
/// overhang, and its extended surface has exactly the client size.
pub proof fn lemma_on_screen_keeps_size(source: SourceRect, screen: Extent)
    requires
        source.left >= 0,
        source.top >= 0,
        source.right() <= screen.width,
        source.bottom() <= screen.height,
    ensures
        Overhang::of(source, screen).is_zero(),
        FrameLayout::representable(source, screen),
        FrameLayout::of(source, screen).extended == source.extent(),
        FrameLayout::of(source, screen).params.src_size == source.extent(),
        FrameLayout::of(source, screen).params.src_offset_x == 0,
        FrameLayout::of(source, screen).params.src_offset_y == 0,
{
}

/// The box that is copied never leaves the screen and never exceeds the
/// staging surface; where the rectangle touches the screen at all, the
/// copied span and the two overhangs of an axis add up to the client size.
pub proof fn lemma_copy_box_fits(source: SourceRect, screen: Extent)
    ensures
        ({
            let c = CopyBox::clamped(source, screen);
            let o = Overhang::of(source, screen);
            &&& c.left <= c.right <= screen.width
            &&& c.top <= c.bottom <= screen.height
            &&& c.width() <= source.width
            &&& c.height() <= source.height
            &&& c.right > c.left ==> c.width() + o.left + o.right == source.width
            &&& c.bottom > c.top ==> c.height() + o.top + o.bottom == source.height
            &&& c.size().width == c.width()
            &&& c.size().height == c.height()
            &&& source.left < 0 ==> c.left == 0
            &&& source.left >= 0 && c.right > c.left ==> c.left == source.left
            &&& source.top < 0 ==> c.top == 0
            &&& source.top >= 0 && c.bottom > c.top ==> c.top == source.top
        }),
{
}

/// A row-major index stays inside its surface.
pub proof fn lemma_index_in_surface(x: int, y: int, width: int, height: int)
    requires
        0 <= x < width,
        0 <= y < height,
    ensures
        0 <= y * width + x < width * height,
        y * width + x < (y + 1) * width,
        (y + 1) * width <= height * width,
{
    assert(y * width >= 0) by (nonlinear_arith)
        requires
            y >= 0,
            width > 0,
    ;
    assert((y + 1) * width == y * width + width) by (nonlinear_arith);
    lemma_mul_inequality(y + 1, height, width);
    lemma_mul_is_commutative(height, width);
}

} // verus!
