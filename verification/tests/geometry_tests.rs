use j3grid_docker::geometry::{DomainError, Rect, RegionId, TabId, UiRect, WindowHandle};

#[test]
fn window_handles_are_never_null() {
    assert_eq!(WindowHandle::new(0), Err(DomainError::NullWindowHandle));
    assert_eq!(WindowHandle::new(-3).map(|h| h.raw()), Ok(-3));
}

#[test]
fn rects_need_a_positive_size() {
    assert_eq!(
        Rect::new(1, 2, 0, 5),
        Err(DomainError::NonPositiveRectSize { width: 0, height: 5 })
    );
    assert_eq!(
        Rect::new(1, 2, 3, 4),
        Ok(Rect { left: 1, top: 2, width: 3, height: 4 })
    );
}

#[test]
fn ui_rect_intersection_and_union() {
    let a = UiRect::new(0, 0, 10, 10);
    let b = UiRect::new(5, 5, 20, 20);
    assert_eq!(a.intersect(b), Some(UiRect::new(5, 5, 10, 10)));
    assert_eq!(b.intersect(a), a.intersect(b));
    assert_eq!(a.intersect(UiRect::new(10, 0, 20, 10)), None);
    assert_eq!(a.union(b), UiRect::new(0, 0, 20, 20));
    assert_eq!(a.width(), 10);
}

#[test]
fn ids_keep_their_values() {
    assert_eq!(TabId::new(9).value(), 9);
    assert_eq!(RegionId::new(4).value(), 4);
}
