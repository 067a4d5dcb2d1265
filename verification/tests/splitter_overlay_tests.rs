use j3grid_docker::geometry::Rect;
use j3grid_docker::splitter_overlay::SplitterOverlayLayout;

fn rect(left: i32) -> Rect {
    Rect::new(left, 0, 4, 100).expect("positive size")
}

#[test]
fn splitter_overlay_layout_moves_only_changed_overlays() {
    let mut layout = SplitterOverlayLayout::new();
    assert!(layout.rect_needs_update(0, rect(10)));
    layout.record_synced(&[rect(10), rect(20)]);
    assert_eq!(layout.visible_count(), 2);
    assert!(!layout.rect_needs_update(0, rect(10)));
    assert!(layout.rect_needs_update(1, rect(21)));
    assert_eq!(layout.visible_rect_at(1), Some(rect(20)));
    assert_eq!(layout.visible_rect_at(2), None);
}

#[test]
fn splitter_overlay_layout_hides_overlays_beyond_the_new_count() {
    let mut layout = SplitterOverlayLayout::new();
    layout.record_synced(&[rect(10), rect(20), rect(30)]);
    assert_eq!(layout.overlays_to_hide(1), (1, 3));
    layout.finish_sync(&[rect(10)]);
    assert_eq!(layout.visible_count(), 1);
    assert_eq!(layout.visible_rect_at(1), None);
    assert_eq!(layout.overlays_to_hide(2), (2, 2));
    assert_eq!(layout.hide_all(), 1);
    assert_eq!(layout.visible_count(), 0);
    assert_eq!(layout.visible_rect_at(0), None);
}

#[test]
fn splitter_overlay_layout_remembers_out_of_order_moves() {
    let mut layout = SplitterOverlayLayout::new();
    layout.remember_visible_rect(2, rect(30));
    assert_eq!(layout.visible_count(), 3);
    assert_eq!(layout.visible_rect_at(2), Some(rect(30)));
    layout.remember_visible_rect(0, rect(5));
    assert_eq!(layout.visible_rect_at(0), Some(rect(5)));
    assert_eq!(layout.visible_count(), 3);
}
