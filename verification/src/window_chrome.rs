use vstd::prelude::*;

use crate::drop_tracking::{fits_i32, TrackedWindowRect};
use crate::geometry::ScreenPoint;
use crate::layout::TAB_BAR_HEIGHT;

verus! {

/// Longest window title, in UTF-16 units, that is read from a window.
pub const MAX_WINDOW_TEXT_CHARS: usize = 32767;

/// `WS_CAPTION`: the title bar bits of a window style.
#[verifier::external_body]
fn title_bar_style() -> (r: isize)
    ensures
        r == 0x00C0_0000,
{
    windows_sys::Win32::UI::WindowsAndMessaging::WS_CAPTION as isize
}

/// `WS_THICKFRAME`: the resize frame bit of a window style.
#[verifier::external_body]
fn resize_frame_style() -> (r: isize)
    ensures
        r == 0x0004_0000,
{
    windows_sys::Win32::UI::WindowsAndMessaging::WS_THICKFRAME as isize
}

/// `ERROR_INSUFFICIENT_BUFFER`, the error code for a buffer too small.
#[verifier::external_body]
fn error_insufficient_buffer() -> (r: u32)
    ensures
        r == 122,
{
    windows_sys::Win32::Foundation::ERROR_INSUFFICIENT_BUFFER
}

pub open spec fn styled_for_workspace_ui(
    current_style: isize,
    workspace_ui_visible: bool,
    window_maximized: bool,
) -> isize {
    if workspace_ui_visible {
        current_style | 0x00C0_0000isize | 0x0004_0000isize
    } else if window_maximized {
        current_style & !0x00C0_0000isize & !0x0004_0000isize
    } else {
        current_style & !0x00C0_0000isize
    }
}

/// The window style for the workspace controls shown or hidden: shown,
/// the title bar and the resize frame are on; hidden, the title bar is off,
/// and while maximized the resize frame too.
pub fn window_style_for_workspace_ui_visibility(
    current_style: isize,
    workspace_ui_visible: bool,
    window_maximized: bool,
) -> (r: isize)
    ensures
        r == styled_for_workspace_ui(current_style, workspace_ui_visible, window_maximized),
{
    let title_bar = title_bar_style();
    let resize_frame = resize_frame_style();
    if workspace_ui_visible {
        current_style | title_bar | resize_frame
    } else if window_maximized {
        current_style & !title_bar & !resize_frame
    } else {
        current_style & !title_bar
    }
}

/// The failure of a window-system call: which call, its error code and
/// the message shown to the user.
#[derive(Debug, Clone, Copy, PartialEq, Eq)]
pub struct Win32StatusFailure {
    pub api: &'static str,
    pub last_error: u32,
    pub user_message: &'static str,
}

impl Win32StatusFailure {
    pub fn new(api: &'static str, last_error: u32, user_message: &'static str) -> (f: Self)
        ensures
            f.api == api,
            f.last_error == last_error,
            f.user_message == user_message,
    {
        Win32StatusFailure { api, last_error, user_message }
    }
}

/// Whether a failure names the given call and message, with error code 0.
pub open spec fn failure_is(f: Win32StatusFailure, api: Seq<char>, message: Seq<char>) -> bool {
    f.api@ == api && f.last_error == 0 && f.user_message@ == message
}

/// The size of the window region that shows only the tab strip while the
/// workspace controls are hidden: the window's width, and the height from
/// the window's top down to the bottom of the tab strip.
pub fn hidden_workspace_ui_region_size(window: TrackedWindowRect, client_origin: ScreenPoint) -> (r:
    Result<(i32, i32), Win32StatusFailure>)
    ensures
        ({
            let width = window.right - window.left;
            let client_top = client_origin.y - window.top;
            let height = client_top + TAB_BAR_HEIGHT;
            if !fits_i32(width) {
                r matches Err(f) && failure_is(
                    f,
                    "GetWindowRect"@,
                    "작업 영역 UI window region 너비를 계산할 수 없습니다."@,
                )
            } else if !fits_i32(client_top) {
                r matches Err(f) && failure_is(
                    f,
                    "ClientToScreen"@,
                    "작업 영역 UI window region 상단 좌표를 계산할 수 없습니다."@,
                )
            } else if !fits_i32(height) {
                r matches Err(f) && failure_is(
                    f,
                    "ClientToScreen"@,
                    "작업 영역 UI window region 높이를 계산할 수 없습니다."@,
                )
            } else if width <= 0 {
                r matches Err(f) && failure_is(
                    f,
                    "GetWindowRect"@,
                    "작업 영역 UI window region 너비가 올바르지 않습니다."@,
                )
            } else if height <= 0 {
                r matches Err(f) && failure_is(
                    f,
                    "ClientToScreen"@,
                    "작업 영역 UI window region 높이가 올바르지 않습니다."@,
                )
            } else {
                r == Ok::<(i32, i32), Win32StatusFailure>((width as i32, height as i32))
            }
        }),
{
    proof {
        reveal_strlit("GetWindowRect");
        reveal_strlit("ClientToScreen");
    }
    let width = match window.right.checked_sub(window.left) {
        Some(width) => width,
        None => {
            return Err(
                Win32StatusFailure::new(
                    "GetWindowRect",
                    0,
                    "작업 영역 UI window region 너비를 계산할 수 없습니다.",
                ),
            );
        },
    };
    let client_top = match client_origin.y.checked_sub(window.top) {
        Some(top) => top,
        None => {
            return Err(
                Win32StatusFailure::new(
                    "ClientToScreen",
                    0,
                    "작업 영역 UI window region 상단 좌표를 계산할 수 없습니다.",
                ),
            );
        },
    };
    let height = match client_top.checked_add(TAB_BAR_HEIGHT) {
        Some(height) => height,
        None => {
            return Err(
                Win32StatusFailure::new(
                    "ClientToScreen",
                    0,
                    "작업 영역 UI window region 높이를 계산할 수 없습니다.",
                ),
            );
        },
    };
    if width <= 0 {
        return Err(
            Win32StatusFailure::new(
                "GetWindowRect",
                0,
                "작업 영역 UI window region 너비가 올바르지 않습니다.",
            ),
        );
    }
    if height <= 0 {
        return Err(
            Win32StatusFailure::new(
                "ClientToScreen",
                0,
                "작업 영역 UI window region 높이가 올바르지 않습니다.",
            ),
        );
    }
    Ok((width, height))
}

/// The title length a window reported, and the buffer capacity to read
/// it with (one more, for the terminator).  A negative length fails with
/// the error code that came with it; a length above
/// [`MAX_WINDOW_TEXT_CHARS`] with `ERROR_INSUFFICIENT_BUFFER`.
pub fn window_text_length_and_capacity(length: i32, last_error: u32) -> (r: Result<
    (usize, usize),
    u32,
>)
    ensures
        length < 0 ==> r == Err::<(usize, usize), u32>(last_error),
        length > MAX_WINDOW_TEXT_CHARS ==> r == Err::<(usize, usize), u32>(122),
        0 <= length <= MAX_WINDOW_TEXT_CHARS ==> r == Ok::<(usize, usize), u32>(
            (length as usize, (length + 1) as usize),
        ),
{
    if length < 0 {
        return Err(last_error);
    }
    let length: usize = length as usize;
    if length > MAX_WINDOW_TEXT_CHARS {
        return Err(error_insufficient_buffer());
    }
    Ok((length, length + 1))
}

/// What a zero return of `GetWindowTextW` means: the error code when one
/// was set; error 0 when text was expected; no error for an empty title.
pub fn get_window_text_zero_return_error(expected_length: usize, last_error: u32) -> (r: Option<
    u32,
>)
    ensures
        last_error != 0 ==> r == Some(last_error),
        last_error == 0 && expected_length > 0 ==> r == Some(0u32),
        last_error == 0 && expected_length == 0 ==> r is None,
{
    if last_error != 0 {
        Some(last_error)
    } else if expected_length > 0 {
        Some(0)
    } else {
        None
    }
}

/// Where a docker window that is maximized while its workspace controls
/// are hidden is moved: `None` when it already covers the monitor's work
/// area, else the work area's corner and size.  A work area whose size
/// does not fit or is not positive is refused.
pub fn hidden_maximized_window_placement(
    work_area: TrackedWindowRect,
    current: TrackedWindowRect,
) -> (r: Result<Option<(i32, i32, i32, i32)>, Win32StatusFailure>)
    ensures
        ({
            let width = work_area.right - work_area.left;
            let height = work_area.bottom - work_area.top;
            if current == work_area {
                r == Ok::<Option<(i32, i32, i32, i32)>, Win32StatusFailure>(None)
            } else if !fits_i32(width) {
                r matches Err(f) && failure_is(
                    f,
                    "GetMonitorInfoW"@,
                    "monitor 작업 영역 너비를 계산할 수 없습니다."@,
                )
            } else if !fits_i32(height) {
                r matches Err(f) && failure_is(
                    f,
                    "GetMonitorInfoW"@,
                    "monitor 작업 영역 높이를 계산할 수 없습니다."@,
                )
            } else if width <= 0 || height <= 0 {
                r matches Err(f) && failure_is(
                    f,
                    "GetMonitorInfoW"@,
                    "monitor 작업 영역 크기가 올바르지 않습니다."@,
                )
            } else {
                r == Ok::<Option<(i32, i32, i32, i32)>, Win32StatusFailure>(
                    Some((work_area.left, work_area.top, width as i32, height as i32)),
                )
            }
        }),
{
    proof {
        reveal_strlit("GetMonitorInfoW");
    }
    if current.left == work_area.left && current.top == work_area.top && current.right
        == work_area.right && current.bottom == work_area.bottom {
        return Ok(None);
    }
    let width = match work_area.right.checked_sub(work_area.left) {
        Some(width) => width,
        None => {
            return Err(
                Win32StatusFailure::new(
                    "GetMonitorInfoW",
                    0,
                    "monitor 작업 영역 너비를 계산할 수 없습니다.",
                ),
            );
        },
    };
    let height = match work_area.bottom.checked_sub(work_area.top) {
        Some(height) => height,
        None => {
            return Err(
                Win32StatusFailure::new(
                    "GetMonitorInfoW",
                    0,
                    "monitor 작업 영역 높이를 계산할 수 없습니다.",
                ),
            );
        },
    };
    if width <= 0 || height <= 0 {
        return Err(
            Win32StatusFailure::new(
                "GetMonitorInfoW",
                0,
                "monitor 작업 영역 크기가 올바르지 않습니다.",
            ),
        );
    }
    Ok(Some((work_area.left, work_area.top, width, height)))
}

/// The size to give the docker window when its earlier bounds are put
/// back after a failed switch of the workspace controls.  Bounds whose
/// size does not fit or is not positive are refused.
pub fn restored_window_bounds_size(bounds: TrackedWindowRect) -> (r: Result<
    (i32, i32),
    Win32StatusFailure,
>)
    ensures
        ({
            let width = bounds.right - bounds.left;
            let height = bounds.bottom - bounds.top;
            if !fits_i32(width) {
                r matches Err(f) && failure_is(
                    f,
                    "GetWindowRect"@,
                    "j3GridDocker window bounds 너비를 복구할 수 없습니다."@,
                )
            } else if !fits_i32(height) {
                r matches Err(f) && failure_is(
                    f,
                    "GetWindowRect"@,
                    "j3GridDocker window bounds 높이를 복구할 수 없습니다."@,
                )
            } else if width <= 0 || height <= 0 {
                r matches Err(f) && failure_is(
                    f,
                    "GetWindowRect"@,
                    "j3GridDocker window bounds 크기를 복구할 수 없습니다."@,
                )
            } else {
                r == Ok::<(i32, i32), Win32StatusFailure>((width as i32, height as i32))
            }
        }),
{
    proof {
        reveal_strlit("GetWindowRect");
    }
    let width = match bounds.right.checked_sub(bounds.left) {
        Some(width) => width,
        None => {
            return Err(
                Win32StatusFailure::new(
                    "GetWindowRect",
                    0,
                    "j3GridDocker window bounds 너비를 복구할 수 없습니다.",
                ),
            );
        },
    };
    let height = match bounds.bottom.checked_sub(bounds.top) {
        Some(height) => height,
        None => {
            return Err(
                Win32StatusFailure::new(
                    "GetWindowRect",
                    0,
                    "j3GridDocker window bounds 높이를 복구할 수 없습니다.",
                ),
            );
        },
    };
    if width <= 0 || height <= 0 {
        return Err(
            Win32StatusFailure::new(
                "GetWindowRect",
                0,
                "j3GridDocker window bounds 크기를 복구할 수 없습니다.",
            ),
        );
    }
    Ok((width, height))
}

/// The bounds to put back after a step of the workspace-controls chrome:
/// the bounds the window had before it was fitted to the work area, when
/// the step failed and there are such bounds; nothing when it succeeded.
pub fn hidden_maximized_bounds_to_restore<T>(
    result: &Result<T, Win32StatusFailure>,
    previous_bounds: Option<TrackedWindowRect>,
) -> (r: Option<TrackedWindowRect>)
    ensures
        r == (if result is Err {
            previous_bounds
        } else {
            None::<TrackedWindowRect>
        }),
{
    match result {
        Ok(_) => None,
        Err(_) => previous_bounds,
    }
}

} // verus!
