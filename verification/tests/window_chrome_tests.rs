use j3grid_docker::drop_tracking::TrackedWindowRect;
use j3grid_docker::geometry::ScreenPoint;
use j3grid_docker::layout::TAB_BAR_HEIGHT;
use j3grid_docker::window_chrome::{
    get_window_text_zero_return_error, hidden_maximized_bounds_to_restore,
    hidden_maximized_window_placement,
    hidden_workspace_ui_region_size, restored_window_bounds_size,
    window_style_for_workspace_ui_visibility, window_text_length_and_capacity,
    Win32StatusFailure, MAX_WINDOW_TEXT_CHARS,
};
use windows_sys::Win32::Foundation::ERROR_INSUFFICIENT_BUFFER;
use windows_sys::Win32::UI::WindowsAndMessaging::{WS_CAPTION, WS_OVERLAPPEDWINDOW, WS_THICKFRAME};

#[test]
fn get_window_text_zero_return_uses_last_error_to_distinguish_empty_text() {
    assert_eq!(get_window_text_zero_return_error(0, 0), None);
    assert_eq!(get_window_text_zero_return_error(0, 5), Some(5));
    assert_eq!(get_window_text_zero_return_error(3, 0), Some(0));
}

#[test]
fn window_text_length_and_capacity_allows_configured_limit() {
    assert_eq!(
        window_text_length_and_capacity(MAX_WINDOW_TEXT_CHARS as i32, 0),
        Ok((MAX_WINDOW_TEXT_CHARS, MAX_WINDOW_TEXT_CHARS + 1))
    );
}

#[test]
fn window_text_length_and_capacity_rejects_oversized_length() {
    assert_eq!(
        window_text_length_and_capacity(MAX_WINDOW_TEXT_CHARS as i32 + 1, 0),
        Err(ERROR_INSUFFICIENT_BUFFER)
    );
}

#[test]
fn window_text_length_and_capacity_passes_on_negative_length_error() {
    assert_eq!(window_text_length_and_capacity(-1, 1400), Err(1400));
    assert_eq!(window_text_length_and_capacity(0, 0), Ok((0, 1)));
}

#[test]
fn hidden_workspace_ui_style_removes_title_bar_bits() {
    let current = WS_OVERLAPPEDWINDOW as isize;
    let hidden = window_style_for_workspace_ui_visibility(current, false, false);

    assert_eq!(hidden & WS_CAPTION as isize, 0);
    assert_eq!(hidden & WS_THICKFRAME as isize, WS_THICKFRAME as isize);
    assert_eq!(
        window_style_for_workspace_ui_visibility(hidden, true, false) & WS_CAPTION as isize,
        WS_CAPTION as isize
    );
}

#[test]
fn hidden_maximized_workspace_ui_removes_resize_frame_bits() {
    let current = WS_OVERLAPPEDWINDOW as isize;
    let hidden = window_style_for_workspace_ui_visibility(current, false, true);

    assert_eq!(hidden & WS_CAPTION as isize, 0);
    assert_eq!(hidden & WS_THICKFRAME as isize, 0);

    let visible = window_style_for_workspace_ui_visibility(hidden, true, true);
    assert_eq!(visible & WS_CAPTION as isize, WS_CAPTION as isize);
    assert_eq!(visible & WS_THICKFRAME as isize, WS_THICKFRAME as isize);
}

#[test]
fn hidden_workspace_ui_region_size_uses_window_width_and_client_top() {
    let window = TrackedWindowRect::new(10, 20, 210, 180);
    let client_origin = ScreenPoint { x: 10, y: 50 };

    assert_eq!(
        hidden_workspace_ui_region_size(window, client_origin),
        Ok((200, 30 + TAB_BAR_HEIGHT))
    );
}

#[test]
fn hidden_workspace_ui_region_size_reports_calculation_failures() {
    assert_eq!(
        hidden_workspace_ui_region_size(
            TrackedWindowRect::new(10, 0, 10, 100),
            ScreenPoint { x: 0, y: 20 },
        ),
        Err(Win32StatusFailure::new(
            "GetWindowRect",
            0,
            "작업 영역 UI window region 너비가 올바르지 않습니다.",
        ))
    );
    assert_eq!(
        hidden_workspace_ui_region_size(
            TrackedWindowRect::new(0, 1, 100, 100),
            ScreenPoint { x: 0, y: i32::MIN },
        ),
        Err(Win32StatusFailure::new(
            "ClientToScreen",
            0,
            "작업 영역 UI window region 상단 좌표를 계산할 수 없습니다.",
        ))
    );
}

#[test]
fn hidden_workspace_ui_region_size_rejects_non_positive_height() {
    assert_eq!(
        hidden_workspace_ui_region_size(
            TrackedWindowRect::new(0, 100, 100, 200),
            ScreenPoint { x: 0, y: 0 },
        ),
        Err(Win32StatusFailure::new(
            "ClientToScreen",
            0,
            "작업 영역 UI window region 높이가 올바르지 않습니다.",
        ))
    );
    assert_eq!(
        hidden_workspace_ui_region_size(
            TrackedWindowRect::new(i32::MIN, 0, i32::MAX, 10),
            ScreenPoint { x: 0, y: 0 },
        ),
        Err(Win32StatusFailure::new(
            "GetWindowRect",
            0,
            "작업 영역 UI window region 너비를 계산할 수 없습니다.",
        ))
    );
}

fn window_rect(left: i32, top: i32, right: i32, bottom: i32) -> TrackedWindowRect {
    TrackedWindowRect { left, top, right, bottom }
}

#[test]
fn hidden_maximized_window_moves_to_work_area() {
    let work = window_rect(0, 0, 1920, 1040);
    assert_eq!(hidden_maximized_window_placement(work, work), Ok(None));
    assert_eq!(
        hidden_maximized_window_placement(work, window_rect(-8, -8, 1928, 1048)),
        Ok(Some((0, 0, 1920, 1040)))
    );
    let empty = hidden_maximized_window_placement(window_rect(10, 0, 10, 100), window_rect(0, 0, 1, 1));
    assert_eq!(empty.unwrap_err().user_message, "monitor 작업 영역 크기가 올바르지 않습니다.");
    let wide = hidden_maximized_window_placement(window_rect(i32::MIN, 0, i32::MAX, 100), window_rect(0, 0, 1, 1));
    let failure = wide.unwrap_err();
    assert_eq!(failure.api, "GetMonitorInfoW");
    assert_eq!(failure.user_message, "monitor 작업 영역 너비를 계산할 수 없습니다.");
}

#[test]
fn restored_window_bounds_need_positive_size() {
    assert_eq!(restored_window_bounds_size(window_rect(100, 50, 900, 650)), Ok((800, 600)));
    let flat = restored_window_bounds_size(window_rect(100, 50, 900, 50)).unwrap_err();
    assert_eq!(flat.api, "GetWindowRect");
    assert_eq!(flat.user_message, "j3GridDocker window bounds 크기를 복구할 수 없습니다.");
    let tall = restored_window_bounds_size(window_rect(0, i32::MIN, 10, i32::MAX)).unwrap_err();
    assert_eq!(tall.user_message, "j3GridDocker window bounds 높이를 복구할 수 없습니다.");
}

#[test]
fn hidden_maximized_bounds_restore_is_skipped_after_successful_chrome_steps() {
    let previous_bounds = window_rect(-8, -8, 1928, 1048);
    let result: Result<(), Win32StatusFailure> = Ok(());

    let restore = hidden_maximized_bounds_to_restore(&result, Some(previous_bounds));

    assert_eq!(result, Ok(()));
    assert!(restore.is_none());
}

#[test]
fn hidden_maximized_bounds_restore_runs_when_later_chrome_step_fails() {
    let previous_bounds = window_rect(-8, -8, 1928, 1048);
    let failure = Win32StatusFailure::new("SetWindowRgn", 5, "region failed");
    let result: Result<(), Win32StatusFailure> = Err(failure);

    let restore = hidden_maximized_bounds_to_restore(&result, Some(previous_bounds));

    assert_eq!(result, Err(failure));
    let Some(restored_bounds) = restore else {
        panic!("expected previous bounds to be restored");
    };
    assert_eq!(restored_bounds, window_rect(-8, -8, 1928, 1048));
}
