use j3grid_docker::drop_tracking::{
    external_root_candidate_from_hwnd_with, hwnd_is_owned_by_with, DropCandidate, DropTracker,
    ExternalRootCandidate, TrackedWindowRect, DROP_WINDOW_MOVE_THRESHOLD,
};
use j3grid_docker::geometry::{DomainError, Rect, ScreenPoint, WindowHandle};

#[test]
fn hwnd_owner_filter_matches_direct_owner() {
    assert!(hwnd_is_owned_by_with(200, 100, 100));
}

#[test]
fn hwnd_owner_filter_ignores_null_and_other_owner() {
    assert!(!hwnd_is_owned_by_with(0, 100, 100));
    assert!(!hwnd_is_owned_by_with(200, 0, 100));
    assert!(!hwnd_is_owned_by_with(200, 100, 300));
    assert!(!hwnd_is_owned_by_with(200, 100, 0));
}

#[test]
fn external_root_candidate_marks_docker_owned_roots() -> Result<(), DomainError> {
    let candidate = external_root_candidate_from_hwnd_with(150, 100, 200, 100)
        .expect("expected external root candidate");

    assert_eq!(candidate.hwnd, WindowHandle::new(200)?);
    assert!(candidate.docker_owned);
    Ok(())
}

#[test]
fn external_root_candidate_keeps_unowned_external_roots() -> Result<(), DomainError> {
    let candidate = external_root_candidate_from_hwnd_with(150, 100, 200, 0)
        .expect("expected external root candidate");

    assert_eq!(candidate.hwnd, WindowHandle::new(200)?);
    assert!(!candidate.docker_owned);
    Ok(())
}

#[test]
fn external_root_candidate_rejects_docker_window_root() {
    assert_eq!(external_root_candidate_from_hwnd_with(100, 100, 100, 0), None);
}

#[test]
fn external_root_candidate_rejects_null_windows() {
    assert_eq!(external_root_candidate_from_hwnd_with(0, 100, 200, 0), None);
    assert_eq!(external_root_candidate_from_hwnd_with(150, 100, 0, 0), None);
    assert_eq!(
        external_root_candidate_from_hwnd_with(150, 0, 200, 0),
        Some(ExternalRootCandidate { hwnd: WindowHandle { raw: 200 }, docker_owned: false })
    );
}

#[test]
fn drop_tracker_ignores_unmoved_click() -> Result<(), DomainError> {
    let hwnd = WindowHandle::new(100)?;
    let mut tracker = DropTracker::default();
    let rect = TrackedWindowRect::new(10, 10, 210, 160);

    tracker.begin_press();
    tracker.set_candidate(hwnd, rect);

    assert_eq!(tracker.finish_press(), None);
    assert_eq!(tracker.finish_press(), None);
    Ok(())
}

#[test]
fn drop_tracker_returns_candidate_after_window_moves() -> Result<(), DomainError> {
    let hwnd = WindowHandle::new(100)?;
    let mut tracker = DropTracker::default();

    tracker.begin_press();
    tracker.set_candidate(hwnd, TrackedWindowRect::new(10, 10, 210, 160));
    tracker.observe_candidate_rect(
        TrackedWindowRect::new(15, 15, 215, 165),
        DROP_WINDOW_MOVE_THRESHOLD,
    );

    assert_eq!(tracker.finish_press(), Some(hwnd));
    assert_eq!(tracker.finish_press(), None);
    Ok(())
}

#[test]
fn drop_tracker_keeps_first_candidate() -> Result<(), DomainError> {
    let first = WindowHandle::new(100)?;
    let second = WindowHandle::new(200)?;
    let mut tracker = DropTracker::default();

    tracker.begin_press();
    tracker.set_candidate(first, TrackedWindowRect::new(10, 10, 210, 160));
    tracker.set_candidate(second, TrackedWindowRect::new(20, 20, 220, 170));
    tracker.observe_candidate_rect(
        TrackedWindowRect::new(16, 10, 216, 160),
        DROP_WINDOW_MOVE_THRESHOLD,
    );

    assert_eq!(tracker.finish_press(), Some(first));
    Ok(())
}

#[test]
fn drop_tracker_suppression_cancels_candidate() -> Result<(), DomainError> {
    let hwnd = WindowHandle::new(100)?;
    let mut tracker = DropTracker::default();

    tracker.begin_press();
    tracker.set_candidate(hwnd, TrackedWindowRect::new(10, 10, 210, 160));
    tracker.observe_candidate_rect(
        TrackedWindowRect::new(20, 20, 220, 170),
        DROP_WINDOW_MOVE_THRESHOLD,
    );
    tracker.suppress_drop();

    assert_eq!(tracker.finish_press(), None);
    Ok(())
}

#[test]
fn drop_tracker_needs_a_press_for_candidates() -> Result<(), DomainError> {
    let hwnd = WindowHandle::new(100)?;
    let mut tracker = DropTracker::default();
    assert!(!tracker.is_tracking());
    assert!(!tracker.needs_candidate());
    tracker.set_candidate(hwnd, TrackedWindowRect::new(0, 0, 10, 10));
    assert_eq!(tracker.candidate_hwnd(), None);
    tracker.begin_press();
    assert!(tracker.is_tracking());
    assert!(tracker.needs_candidate());
    tracker.set_candidate(hwnd, TrackedWindowRect::new(0, 0, 10, 10));
    assert_eq!(tracker.candidate_hwnd(), Some(hwnd));
    assert!(!tracker.needs_candidate());
    Ok(())
}

#[test]
fn drop_candidate_observes_threshold_moves() -> Result<(), DomainError> {
    let mut candidate =
        DropCandidate::new(WindowHandle::new(7)?, TrackedWindowRect::new(0, 0, 100, 100));
    candidate.observe_rect(TrackedWindowRect::new(3, 0, 103, 100), 4);
    assert!(!candidate.window_moved);
    candidate.observe_rect(TrackedWindowRect::new(0, 0, 100, 96), 4);
    assert!(candidate.window_moved);
    candidate.observe_rect(TrackedWindowRect::new(0, 0, 100, 100), 4);
    assert!(candidate.window_moved);
    Ok(())
}

#[test]
fn tracked_window_rect_converts_to_domain_rect() -> Result<(), DomainError> {
    let watched = TrackedWindowRect::new(320, 240, 620, 460);

    assert_eq!(watched.to_domain_rect(), Some(Rect::new(320, 240, 300, 220)?));
    assert_eq!(TrackedWindowRect::new(320, 240, 320, 460).to_domain_rect(), None);
    Ok(())
}

#[test]
fn tracked_window_rect_rejects_overflowing_size() {
    assert_eq!(TrackedWindowRect::new(i32::MIN, 0, i32::MAX, 10).to_domain_rect(), None);
}

#[test]
fn tracked_window_rect_contains_screen_point_with_half_open_edges() {
    let watched = TrackedWindowRect::new(10, 20, 110, 120);

    assert!(watched.contains_point(ScreenPoint { x: 10, y: 20 }));
    assert!(watched.contains_point(ScreenPoint { x: 109, y: 119 }));
    assert!(!watched.contains_point(ScreenPoint { x: 110, y: 119 }));
    assert!(!watched.contains_point(ScreenPoint { x: 109, y: 120 }));
}

#[test]
fn tracked_window_rect_difference_uses_threshold() {
    let a = TrackedWindowRect::new(0, 0, 100, 100);
    assert!(!a.differs_by_at_least(a, 0));
    assert!(a.differs_by_at_least(TrackedWindowRect::new(1, 0, 100, 100), 0));
    assert!(!a.differs_by_at_least(TrackedWindowRect::new(3, 0, 100, 100), 4));
    assert!(a.differs_by_at_least(TrackedWindowRect::new(0, -4, 100, 100), 4));
    assert!(a.differs_by_at_least(TrackedWindowRect::new(i32::MIN, 0, 100, 100), i32::MAX));
}
