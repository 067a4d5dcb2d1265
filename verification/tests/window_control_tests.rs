use j3grid_docker::geometry::WindowHandle;
use j3grid_docker::window_control::{PlaceholderWindowController, WindowOperation};

#[test]
fn placeholder_controller_accepts_windows_but_performs_nothing() {
    let mut controller = PlaceholderWindowController::new();
    let hwnd = WindowHandle::new(42).expect("non-null handle");
    assert_eq!(controller.is_valid_external_window(hwnd), Ok(true));
    assert_eq!(controller.is_same_external_window(hwnd), Ok(true));

    let error = controller.snapshot(hwnd).expect_err("placeholder cannot snapshot");
    assert_eq!(error.operation, WindowOperation::Snapshot);
    assert_eq!(error.hwnd, Some(hwnd));
    assert_eq!(error.user_message, "Win32 윈도우 제어는 이 target에서 사용할 수 없습니다.");
    assert!(error.detail.is_some());

    assert_eq!(
        controller.hide_window(hwnd).expect_err("placeholder cannot hide").operation,
        WindowOperation::Hide
    );
    assert_eq!(
        controller.show(hwnd).expect_err("placeholder cannot show").operation,
        WindowOperation::Show
    );
    assert_eq!(
        controller.set_position(hwnd).expect_err("placeholder cannot move").operation,
        WindowOperation::SetPosition
    );
    assert_eq!(
        controller.restore(hwnd).expect_err("placeholder cannot restore").operation,
        WindowOperation::Restore
    );
}
