use scrimshady::geometry::{
    thread_groups, CopyBox, Extent, ExtendParams, FrameLayout, Overhang, SourceRect, GROUP_SIDE,
};

fn screen() -> Extent {
    Extent::new(1920, 1080)
}

#[test]
fn extent_new_and_empty() {
    let e = Extent::new(800, 600);
    assert_eq!(e, Extent { width: 800, height: 600 });
    assert!(!e.is_empty());
    assert!(Extent::new(0, 600).is_empty());
    assert!(Extent::new(800, 0).is_empty());
}

#[test]
fn source_rect_from_placement() {
    let r = SourceRect::from_placement(-50, 20, Extent::new(800, 600));
    assert_eq!(r, SourceRect { left: -50, top: 20, width: 800, height: 600 });
    let s = r.with_extent(Extent::new(640, 480));
    assert_eq!(s, SourceRect { left: -50, top: 20, width: 640, height: 480 });
}

#[test]
fn window_inside_screen_has_no_overhang() {
    let source = SourceRect::from_placement(100, 100, Extent::new(800, 600));
    let o = Overhang::measure(source, screen());
    assert_eq!(o, Overhang { left: 0, top: 0, right: 0, bottom: 0 });
    let layout = FrameLayout::compute(source, screen()).unwrap();
    assert_eq!(layout.extended, Extent::new(800, 600));
    assert_eq!(layout.params.src_offset_x, 0);
    assert_eq!(layout.params.src_offset_y, 0);
    assert_eq!(layout.params.src_size, Extent::new(800, 600));
    assert_eq!(layout.params.dst_size, Extent::new(800, 600));
    assert_eq!(layout.copy, Some(CopyBox { left: 100, top: 100, right: 900, bottom: 700 }));
    assert_eq!(layout.groups_x, 100);
    assert_eq!(layout.groups_y, 75);
}

#[test]
fn window_touching_the_edges_has_no_overhang() {
    let source = SourceRect::from_placement(0, 0, Extent::new(1920, 1080));
    let o = Overhang::measure(source, screen());
    assert_eq!(o, Overhang { left: 0, top: 0, right: 0, bottom: 0 });
}

#[test]
fn window_dragged_left_extends_by_the_distance() {
    let source = SourceRect::from_placement(-50, 0, Extent::new(800, 600));
    let layout = FrameLayout::compute(source, screen()).unwrap();
    assert_eq!(layout.overhang, Overhang { left: 50, top: 0, right: 0, bottom: 0 });
    assert_eq!(layout.extended, Extent::new(850, 600));
    assert_eq!(layout.params.src_offset_x, 50);
    assert_eq!(layout.params.src_offset_y, 0);
    assert_eq!(layout.copy, Some(CopyBox { left: 0, top: 0, right: 750, bottom: 600 }));
    // The pass reads the copied box, not the whole staging surface.
    assert_eq!(layout.params.src_size, Extent::new(750, 600));
    assert_eq!(layout.params.dst_size, Extent::new(850, 600));
    assert_eq!(layout.groups_x, 107);
    assert_eq!(layout.groups_y, 75);
}

#[test]
fn overhang_on_every_edge() {
    let source = SourceRect::from_placement(-10, -20, Extent::new(2000, 1200));
    let o = Overhang::measure(source, screen());
    assert_eq!(o, Overhang { left: 10, top: 20, right: 70, bottom: 100 });
    let extended = o.extend(Extent::new(2000, 1200)).unwrap();
    assert_eq!(extended, Extent::new(2080, 1320));
    let layout = FrameLayout::compute(source, screen()).unwrap();
    assert_eq!(layout.extended, extended);
    assert_eq!(layout.copy, Some(CopyBox { left: 0, top: 0, right: 1920, bottom: 1080 }));
}

#[test]
fn overhang_right_and_bottom_only() {
    let source = SourceRect::from_placement(1900, 1000, Extent::new(100, 200));
    let o = Overhang::measure(source, screen());
    assert_eq!(o, Overhang { left: 0, top: 0, right: 80, bottom: 120 });
    assert_eq!(
        CopyBox::visible(source, screen()),
        Some(CopyBox { left: 1900, top: 1000, right: 1920, bottom: 1080 })
    );
}

#[test]
fn window_off_screen_copies_nothing() {
    let left_of = SourceRect::from_placement(-900, 0, Extent::new(800, 600));
    assert_eq!(CopyBox::visible(left_of, screen()), None);
    let right_of = SourceRect::from_placement(1920, 0, Extent::new(800, 600));
    assert_eq!(CopyBox::visible(right_of, screen()), None);
    let below = SourceRect::from_placement(0, 5000, Extent::new(800, 600));
    assert_eq!(CopyBox::visible(below, screen()), None);
    let layout = FrameLayout::compute(left_of, screen()).unwrap();
    assert_eq!(layout.copy, None);
    assert_eq!(layout.overhang.left, 900);
    assert_eq!(layout.extended, Extent::new(1700, 600));
    // Nothing was copied, so there is nothing to read.
    assert_eq!(layout.params.src_size, Extent::new(0, 600));
    assert!(layout.params.src_size.is_empty());
}

#[test]
fn empty_client_copies_nothing() {
    let source = SourceRect::from_placement(10, 10, Extent::new(0, 0));
    assert_eq!(CopyBox::visible(source, screen()), None);
    let layout = FrameLayout::compute(source, screen()).unwrap();
    assert_eq!(layout.extended, Extent::new(0, 0));
    assert_eq!(layout.groups_x, 0);
    assert_eq!(layout.groups_y, 0);
}

#[test]
fn extremes_do_not_overflow() {
    let source = SourceRect::from_placement(i32::MIN, i32::MAX, Extent::new(u32::MAX, u32::MAX));
    let o = Overhang::measure(source, Extent::new(0, 0));
    assert_eq!(o.left, 1u64 << 31);
    assert_eq!(o.top, 0);
    assert_eq!(o.right, (u32::MAX as u64) - (1u64 << 31));
    assert_eq!(o.bottom, i32::MAX as u64 + u32::MAX as u64);
    assert_eq!(o.extend(Extent::new(u32::MAX, u32::MAX)), None);
    assert_eq!(FrameLayout::compute(source, Extent::new(0, 0)), None);
}

#[test]
fn layout_needs_offsets_that_fit() {
    // The extended width fits in 32 bits, the left offset does not fit in 31.
    let source = SourceRect::from_placement(i32::MIN, 0, Extent::new(16, 16));
    let o = Overhang::measure(source, screen());
    assert_eq!(o.left, 1u64 << 31);
    assert_eq!(o.extend(Extent::new(16, 16)), Some(Extent::new((1u32 << 31) + 16, 16)));
    assert_eq!(FrameLayout::compute(source, screen()), None);
    let near = SourceRect::from_placement(i32::MIN + 1, 0, Extent::new(16, 16));
    let layout = FrameLayout::compute(near, screen()).unwrap();
    assert_eq!(layout.params.src_offset_x, i32::MAX);
    assert_eq!(layout.extended.width, i32::MAX as u32 + 16);
}

#[test]
fn extend_refuses_what_does_not_fit() {
    let o = Overhang { left: u64::MAX, top: 0, right: u64::MAX, bottom: 0 };
    assert_eq!(o.extend(Extent::new(1, 1)), None);
    let exact = Overhang { left: 0, top: 0, right: u32::MAX as u64 - 10, bottom: 0 };
    assert_eq!(exact.extend(Extent::new(10, 1)), Some(Extent::new(u32::MAX, 1)));
    assert_eq!(exact.extend(Extent::new(11, 1)), None);
}

#[test]
fn thread_groups_cover_the_destination() {
    assert_eq!(GROUP_SIDE, 8);
    assert_eq!(thread_groups(0), 0);
    assert_eq!(thread_groups(1), 1);
    assert_eq!(thread_groups(8), 1);
    assert_eq!(thread_groups(9), 2);
    assert_eq!(thread_groups(850), 107);
    assert_eq!(thread_groups(u32::MAX), 536_870_912);
}

#[test]
fn params_follow_the_layout() {
    let source = SourceRect::from_placement(-3, -7, Extent::new(20, 10));
    let layout = FrameLayout::compute(source, Extent::new(100, 100)).unwrap();
    assert_eq!(
        layout.params,
        ExtendParams {
            src_size: Extent::new(17, 3),
            dst_size: Extent::new(23, 17),
            src_offset_x: 3,
            src_offset_y: 7,
        }
    );
    assert_eq!(layout.copy, Some(CopyBox { left: 0, top: 0, right: 17, bottom: 3 }));
}

#[test]
fn window_over_the_right_edge_reads_the_copied_box() {
    let source = SourceRect::from_placement(1170, 0, Extent::new(800, 600));
    let layout = FrameLayout::compute(source, screen()).unwrap();
    assert_eq!(layout.overhang, Overhang { left: 0, top: 0, right: 50, bottom: 0 });
    assert_eq!(layout.extended, Extent::new(850, 600));
    assert_eq!(layout.copy, Some(CopyBox { left: 1170, top: 0, right: 1920, bottom: 600 }));
    assert_eq!(
        layout.params,
        ExtendParams {
            src_size: Extent::new(750, 600),
            dst_size: Extent::new(850, 600),
            src_offset_x: 0,
            src_offset_y: 0,
        }
    );
}

#[test]
fn window_over_every_edge_reads_the_whole_screen() {
    let source = SourceRect::from_placement(-10, -20, Extent::new(2000, 1200));
    let layout = FrameLayout::compute(source, screen()).unwrap();
    assert_eq!(layout.params.src_size, Extent::new(1920, 1080));
    assert_eq!(layout.params.src_offset_x, 10);
    assert_eq!(layout.params.src_offset_y, 20);
}

#[test]
fn clamp_holds_every_edge_within_the_screen() {
    let inside = SourceRect::from_placement(100, 100, Extent::new(800, 600));
    assert_eq!(
        CopyBox::clamp(inside, screen()),
        CopyBox { left: 100, top: 100, right: 900, bottom: 700 }
    );
    let over = SourceRect::from_placement(-10, 1000, Extent::new(2000, 200));
    assert_eq!(
        CopyBox::clamp(over, screen()),
        CopyBox { left: 0, top: 1000, right: 1920, bottom: 1080 }
    );
    let left_of = SourceRect::from_placement(-900, 0, Extent::new(800, 600));
    assert_eq!(CopyBox::clamp(left_of, screen()), CopyBox { left: 0, top: 0, right: 0, bottom: 600 });
    let right_of = SourceRect::from_placement(3000, 2000, Extent::new(800, 600));
    assert_eq!(
        CopyBox::clamp(right_of, screen()),
        CopyBox { left: 1920, top: 1080, right: 1920, bottom: 1080 }
    );
}

#[test]
fn extent_of_a_box() {
    assert_eq!(CopyBox { left: 0, top: 0, right: 750, bottom: 600 }.extent(), Extent::new(750, 600));
    assert_eq!(CopyBox { left: 3, top: 4, right: 3, bottom: 9 }.extent(), Extent::new(0, 5));
    assert_eq!(CopyBox { left: 5, top: 9, right: 3, bottom: 4 }.extent(), Extent::new(0, 0));
    assert_eq!(
        CopyBox { left: 0, top: 0, right: u32::MAX, bottom: u32::MAX }.extent(),
        Extent::new(u32::MAX, u32::MAX)
    );
}
