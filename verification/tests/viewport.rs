use bathis::viewport::{ChartViewport, MIN_TOTAL, ZOOM_FULL};

#[test]
fn new_shows_one_second() {
    let viewport = ChartViewport::new();
    assert_eq!(viewport.visible_range(), (0, 1000));
    assert_eq!(viewport.time_total(), MIN_TOTAL);
    assert_eq!(viewport.zoom(), ZOOM_FULL);
}

#[test]
fn fit_floors_the_extent() {
    let mut viewport = ChartViewport::new();
    viewport.fit_data(0);
    assert_eq!(viewport.visible_range(), (0, 1000));
    viewport.fit_data(-5000);
    assert_eq!(viewport.visible_range(), (0, 1000));
    assert_eq!(viewport.time_total(), 1000);
    viewport.fit_data(100_000);
    assert_eq!(viewport.visible_range(), (0, 100_000));
    assert_eq!(viewport.time_total(), 100_000);
    assert_eq!(viewport.zoom(), 1_000_000);
}

#[test]
fn zoom_in_four_times_then_out() {
    let mut viewport = ChartViewport::new();
    viewport.fit_data(100_000);
    let expected = [(15_000, 85_000), (25_500, 74_500), (32_850, 67_150), (37_995, 62_005)];
    let mut width = 100_000;
    for range in expected {
        viewport.zoom_in();
        let (start, end) = viewport.visible_range();
        assert_eq!((start, end), range);
        assert!(end - start < width);
        assert_eq!(start + end, 100_000);
        assert!(0 <= start && end <= 100_000);
        width = end - start;
    }
    assert_eq!(viewport.zoom(), 240_100);
    let mut steps = 0;
    while viewport.visible_range() != (0, 100_000) {
        viewport.zoom_out();
        steps += 1;
        assert!(steps <= 10);
    }
    assert_eq!(steps, 4);
    assert_eq!(viewport.zoom(), 1_000_000);
    assert_eq!(viewport.time_total(), 100_000);
    viewport.zoom_out();
    assert_eq!(viewport.visible_range(), (0, 100_000));
}

#[test]
fn zoom_out_snaps_above_ninety_nine_percent() {
    let mut viewport = ChartViewport::new();
    viewport.fit_data(100_000);
    viewport.zoom_in();
    assert_eq!(viewport.zoom(), 700_000);
    viewport.zoom_out();
    assert_eq!(viewport.visible_range(), (0, 100_000));
    assert_eq!(viewport.zoom(), 1_000_000);
}

#[test]
fn zoom_out_is_clamped_at_the_edges() {
    let mut viewport = ChartViewport::new();
    viewport.fit_data(100_000);
    viewport.zoom_in();
    viewport.zoom_in();
    viewport.zoom_in();
    for _ in 0..20 {
        viewport.pan_left();
    }
    assert_eq!(viewport.visible_range(), (0, 34_300));
    viewport.zoom_out();
    assert_eq!(viewport.visible_range(), (0, 41_650));
    assert_eq!(viewport.zoom(), 416_500);
}

#[test]
fn pan_moves_by_a_fifth_of_the_width() {
    let mut viewport = ChartViewport::new();
    viewport.fit_data(100_000);
    viewport.zoom_in();
    viewport.zoom_in();
    assert_eq!(viewport.visible_range(), (25_500, 74_500));
    viewport.pan_left();
    assert_eq!(viewport.visible_range(), (15_700, 64_700));
    viewport.pan_right();
    viewport.pan_right();
    assert_eq!(viewport.visible_range(), (35_300, 84_300));
    assert_eq!(viewport.zoom(), 490_000);
    viewport.pan_right();
    viewport.pan_right();
    assert_eq!(viewport.visible_range(), (51_000, 100_000));
}

#[test]
fn pan_at_the_edges_changes_nothing() {
    let mut viewport = ChartViewport::new();
    viewport.fit_data(100_000);
    viewport.pan_right();
    assert_eq!(viewport.visible_range(), (0, 100_000));
    assert_eq!(viewport.zoom(), 1_000_000);
    viewport.pan_left();
    assert_eq!(viewport.visible_range(), (0, 100_000));
    viewport.zoom_in();
    for _ in 0..10 {
        viewport.pan_right();
    }
    assert_eq!(viewport.visible_range(), (30_000, 100_000));
    let zoom = viewport.zoom();
    viewport.pan_right();
    assert_eq!(viewport.visible_range(), (30_000, 100_000));
    assert_eq!(viewport.zoom(), zoom);
    for _ in 0..10 {
        viewport.pan_left();
    }
    assert_eq!(viewport.visible_range(), (0, 70_000));
    viewport.pan_left();
    assert_eq!(viewport.visible_range(), (0, 70_000));
}

#[test]
fn zoom_in_stops_at_the_resolution() {
    let mut viewport = ChartViewport::new();
    for _ in 0..100 {
        viewport.zoom_in();
    }
    let (start, end) = viewport.visible_range();
    assert!(start < end);
    assert_eq!(start + end, 1000);
    assert!(end - start < 7);
    let mut steps = 0;
    while viewport.visible_range() != (0, 1000) {
        viewport.zoom_out();
        steps += 1;
        assert!(steps <= 1000);
    }
}

#[test]
fn the_widest_extent_does_not_overflow() {
    let mut viewport = ChartViewport::new();
    viewport.fit_data(i64::MAX);
    assert_eq!(viewport.visible_range(), (0, i64::MAX));
    viewport.zoom_in();
    let (start, end) = viewport.visible_range();
    assert_eq!(start, 1_383_505_805_528_216_371);
    assert_eq!(end, i64::MAX - 1_383_505_805_528_216_371);
    viewport.pan_right();
    viewport.zoom_out();
    assert_eq!(viewport.visible_range().1, i64::MAX);
}
