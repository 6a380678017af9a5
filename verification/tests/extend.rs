use scrimshady::extend::{extend_edges, source_coord};
use scrimshady::geometry::{CopyBox, ExtendParams, Extent, FrameLayout, SourceRect};

/// What an unwritten pixel of the staging surface holds in these tests.
const GARBAGE: u32 = 0xdead_beef;

fn numbered(width: u32, height: u32) -> Vec<u32> {
    let mut v = Vec::new();
    for y in 0..height {
        for x in 0..width {
            v.push(y * 10_000 + x);
        }
    }
    v
}

/// A staging surface as the copy step leaves it: the box of the screen at
/// the origin, garbage everywhere else.
fn staged(screen_pixels: &[u32], screen: Extent, client: Extent, copy: Option<CopyBox>) -> Vec<u32> {
    let mut staging = vec![GARBAGE; (client.width * client.height) as usize];
    if let Some(c) = copy {
        for j in 0..(c.bottom - c.top) {
            for i in 0..(c.right - c.left) {
                staging[(j * client.width + i) as usize] =
                    screen_pixels[((c.top + j) * screen.width + c.left + i) as usize];
            }
        }
    }
    staging
}

fn clamp(v: i64, size: i64) -> i64 {
    v.max(0).min(size - 1)
}

/// Runs copy and pass for a window placed at (`left`, `top`), and holds
/// every pixel of the result against the screen.
fn check_placement(left: i32, top: i32, client: Extent, screen: Extent) -> Vec<u32> {
    let screen_pixels = numbered(screen.width, screen.height);
    let source = SourceRect::from_placement(left, top, client);
    let layout = FrameLayout::compute(source, screen).unwrap();
    let copy = layout.copy.unwrap();
    let staging = staged(&screen_pixels, screen, client, layout.copy);
    let out = extend_edges(&staging, client, &layout.params).unwrap();
    let (ew, eh) = (layout.extended.width, layout.extended.height);
    assert_eq!(out.len(), (ew * eh) as usize);
    let (vw, vh) = ((copy.right - copy.left) as i64, (copy.bottom - copy.top) as i64);
    for y in 0..eh {
        for x in 0..ew {
            let vx = clamp(x as i64 - layout.overhang.left as i64, vw);
            let vy = clamp(y as i64 - layout.overhang.top as i64, vh);
            let sx = copy.left as i64 + vx;
            let sy = copy.top as i64 + vy;
            let expected = screen_pixels[(sy * screen.width as i64 + sx) as usize];
            let got = out[(y * ew + x) as usize];
            assert_ne!(got, GARBAGE, "garbage at ({}, {})", x, y);
            assert_eq!(got, expected, "at ({}, {})", x, y);
        }
    }
    out
}

#[test]
fn source_coord_clamps_on_both_sides() {
    assert_eq!(source_coord(0, 50, 800), Some(0));
    assert_eq!(source_coord(49, 50, 800), Some(0));
    assert_eq!(source_coord(50, 50, 800), Some(0));
    assert_eq!(source_coord(51, 50, 800), Some(1));
    assert_eq!(source_coord(849, 50, 800), Some(799));
    assert_eq!(source_coord(850, 50, 800), Some(799));
    assert_eq!(source_coord(u32::MAX, 0, 800), Some(799));
    assert_eq!(source_coord(5, -3, 800), Some(8));
    assert_eq!(source_coord(0, i32::MIN, 4), Some(3));
    assert_eq!(source_coord(u32::MAX, i32::MAX, u32::MAX), Some(u32::MAX - i32::MAX as u32));
    assert_eq!(source_coord(7, 0, 1), Some(0));
}

#[test]
fn source_coord_of_an_empty_axis() {
    assert_eq!(source_coord(0, 0, 0), None);
    assert_eq!(source_coord(10, 5, 0), None);
}

#[test]
fn no_overhang_is_identity_copy() {
    let client = Extent::new(800, 600);
    let source = SourceRect::from_placement(0, 0, client);
    let layout = FrameLayout::compute(source, Extent::new(1920, 1080)).unwrap();
    assert_eq!(layout.extended, Extent::new(800, 600));
    assert_eq!(layout.params.src_size, client);
    let staging = numbered(800, 600);
    let out = extend_edges(&staging, client, &layout.params).unwrap();
    assert_eq!(out.len(), 800 * 600);
    assert_eq!(out, staging);
}

#[test]
fn left_overhang_repeats_first_column() {
    let client = Extent::new(800, 600);
    let screen = Extent::new(1920, 1080);
    let out = check_placement(-50, 0, client, screen);
    let screen_pixels = numbered(1920, 1080);
    for y in 0..600usize {
        // Columns 0 to 49 repeat column 0 of the screen.
        for x in 0..50usize {
            assert_eq!(out[y * 850 + x], screen_pixels[y * 1920]);
        }
        // Then come the 750 columns that are on the screen.
        for x in 50..800usize {
            assert_eq!(out[y * 850 + x], screen_pixels[y * 1920 + (x - 50)]);
        }
        // The rest repeats the last column that was copied.
        for x in 800..850usize {
            assert_eq!(out[y * 850 + x], screen_pixels[y * 1920 + 749]);
        }
    }
}

#[test]
fn right_overhang_repeats_last_copied_column() {
    let client = Extent::new(800, 600);
    let screen = Extent::new(1920, 1080);
    let out = check_placement(1170, 0, client, screen);
    let screen_pixels = numbered(1920, 1080);
    for y in 0..600usize {
        for x in 0..750usize {
            assert_eq!(out[y * 850 + x], screen_pixels[y * 1920 + 1170 + x]);
        }
        for x in 750..850usize {
            assert_eq!(out[y * 850 + x], screen_pixels[y * 1920 + 1919]);
        }
    }
}

#[test]
fn overhang_on_any_edge_shows_no_garbage() {
    let screen = Extent::new(64, 48);
    let client = Extent::new(20, 10);
    for (left, top) in [
        (-5, 3),
        (50, 3),
        (3, -4),
        (3, 44),
        (-5, -4),
        (50, 44),
        (-19, -9),
        (63, 47),
        (0, 0),
        (44, 38),
    ] {
        check_placement(left, top, client, screen);
    }
    // A window larger than the screen.
    check_placement(-10, -10, Extent::new(100, 80), screen);
}

#[test]
fn unwritten_staging_is_never_read() {
    let p = ExtendParams {
        src_size: Extent::new(2, 1),
        dst_size: Extent::new(5, 3),
        src_offset_x: 1,
        src_offset_y: 1,
    };
    let staging: Vec<u32> = vec![11, 12, GARBAGE, GARBAGE, GARBAGE, GARBAGE];
    let out = extend_edges(&staging, Extent::new(3, 2), &p).unwrap();
    let expected: Vec<u32> = vec![
        11, 11, 12, 12, 12, //
        11, 11, 12, 12, 12, //
        11, 11, 12, 12, 12,
    ];
    assert_eq!(out, expected);
}

#[test]
fn padding_on_every_side_holds_the_edge_pixel() {
    let p = ExtendParams {
        src_size: Extent::new(3, 2),
        dst_size: Extent::new(6, 5),
        src_offset_x: 2,
        src_offset_y: 1,
    };
    let staging: Vec<u32> = vec![11, 12, 13, 21, 22, 23];
    let out = extend_edges(&staging, Extent::new(3, 2), &p).unwrap();
    let expected: Vec<u32> = vec![
        11, 11, 11, 12, 13, 13, //
        11, 11, 11, 12, 13, 13, //
        21, 21, 21, 22, 23, 23, //
        21, 21, 21, 22, 23, 23, //
        21, 21, 21, 22, 23, 23,
    ];
    assert_eq!(out, expected);
    assert!(out.iter().all(|px| staging.contains(px)));
}

#[test]
fn negative_offset_crops() {
    let p = ExtendParams {
        src_size: Extent::new(3, 2),
        dst_size: Extent::new(2, 1),
        src_offset_x: -1,
        src_offset_y: -1,
    };
    let staging: Vec<u32> = vec![11, 12, 13, 21, 22, 23];
    assert_eq!(extend_edges(&staging, Extent::new(3, 2), &p), Some(vec![22, 23]));
}

#[test]
fn single_pixel_fills_everything() {
    let p = ExtendParams {
        src_size: Extent::new(1, 1),
        dst_size: Extent::new(4, 3),
        src_offset_x: 1,
        src_offset_y: 1,
    };
    assert_eq!(
        extend_edges(&vec![0xff00_ff00], Extent::new(1, 1), &p),
        Some(vec![0xff00_ff00; 12])
    );
}

#[test]
fn extend_refuses_a_staging_surface_of_the_wrong_size() {
    let p = ExtendParams {
        src_size: Extent::new(3, 2),
        dst_size: Extent::new(3, 2),
        src_offset_x: 0,
        src_offset_y: 0,
    };
    let size = Extent::new(3, 2);
    assert_eq!(extend_edges(&vec![1, 2, 3, 4, 5], size, &p), None);
    assert_eq!(extend_edges(&vec![1, 2, 3, 4, 5, 6, 7], size, &p), None);
    assert_eq!(extend_edges(&vec![1, 2, 3, 4, 5, 6], size, &p), Some(vec![1, 2, 3, 4, 5, 6]));
}

#[test]
fn extend_refuses_a_source_part_beyond_the_staging_surface() {
    let staging: Vec<u32> = vec![1, 2, 3, 4, 5, 6];
    let wide = ExtendParams {
        src_size: Extent::new(4, 2),
        dst_size: Extent::new(4, 2),
        src_offset_x: 0,
        src_offset_y: 0,
    };
    assert_eq!(extend_edges(&staging, Extent::new(3, 2), &wide), None);
    let high = ExtendParams {
        src_size: Extent::new(3, 3),
        dst_size: Extent::new(3, 3),
        src_offset_x: 0,
        src_offset_y: 0,
    };
    assert_eq!(extend_edges(&staging, Extent::new(3, 2), &high), None);
}

#[test]
fn extend_of_nothing() {
    let nothing_to_write = ExtendParams {
        src_size: Extent::new(0, 0),
        dst_size: Extent::new(0, 7),
        src_offset_x: 0,
        src_offset_y: 0,
    };
    assert_eq!(extend_edges(&Vec::new(), Extent::new(0, 0), &nothing_to_write), Some(Vec::new()));
    let nothing_to_read = ExtendParams {
        src_size: Extent::new(0, 5),
        dst_size: Extent::new(2, 2),
        src_offset_x: 0,
        src_offset_y: 0,
    };
    assert_eq!(extend_edges(&Vec::new(), Extent::new(0, 5), &nothing_to_read), None);
    let source_only = ExtendParams {
        src_size: Extent::new(2, 1),
        dst_size: Extent::new(0, 0),
        src_offset_x: 0,
        src_offset_y: 0,
    };
    assert_eq!(extend_edges(&vec![1, 2], Extent::new(2, 1), &source_only), Some(Vec::new()));
}

#[test]
fn window_off_screen_has_nothing_to_repeat() {
    let client = Extent::new(20, 10);
    let screen = Extent::new(64, 48);
    let source = SourceRect::from_placement(-30, 0, client);
    let layout = FrameLayout::compute(source, screen).unwrap();
    assert_eq!(layout.copy, None);
    let staging = vec![GARBAGE; 200];
    assert_eq!(extend_edges(&staging, client, &layout.params), None);
}
