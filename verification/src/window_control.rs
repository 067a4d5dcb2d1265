use vstd::prelude::*;

use crate::geometry::WindowHandle;

verus! {

/// An operation on an external window.
#[derive(Debug, Clone, Copy, PartialEq, Eq, Structural)]
pub enum WindowOperation {
    Snapshot,
    Hide,
    Show,
    SetPosition,
    Restore,
}

/// A window operation that could not be carried out.
#[derive(Debug, Clone, Copy, PartialEq, Eq)]
pub struct WindowControlError {
    pub operation: WindowOperation,
    pub hwnd: Option<WindowHandle>,
    pub user_message: &'static str,
    pub detail: Option<&'static str>,
}

pub open spec fn placeholder_message() -> Seq<char> {
    "Win32 윈도우 제어는 이 target에서 사용할 수 없습니다."@
}

pub open spec fn placeholder_detail() -> Seq<char> {
    "infra::PlaceholderWindowController is a non-Windows boundary placeholder; no Win32 API was called."@
}

/// The error of an operation the placeholder cannot perform.
pub open spec fn is_placeholder_error(
    e: WindowControlError,
    operation: WindowOperation,
    hwnd: WindowHandle,
) -> bool {
    &&& e.operation == operation
    &&& e.hwnd == Some(hwnd)
    &&& e.user_message@ == placeholder_message()
    &&& e.detail matches Some(d) && d@ == placeholder_detail()
}

/// The window controller of targets without a window system to control:
/// it accepts any non-null window and performs no operation.
#[derive(Debug, Clone, Copy, PartialEq, Eq, Structural)]
pub struct PlaceholderWindowController;

impl PlaceholderWindowController {
    pub fn new() -> (c: Self)
        ensures
            c == PlaceholderWindowController,
    {
        PlaceholderWindowController
    }

    fn pending(operation: WindowOperation, hwnd: Option<WindowHandle>) -> (e: WindowControlError)
        ensures
            e.operation == operation,
            e.hwnd == hwnd,
            e.user_message@ == placeholder_message(),
            e.detail matches Some(d) && d@ == placeholder_detail(),
    {
        WindowControlError {
            operation,
            hwnd,
            user_message: "Win32 윈도우 제어는 이 target에서 사용할 수 없습니다.",
            detail: Some(
                "infra::PlaceholderWindowController is a non-Windows boundary placeholder; no Win32 API was called.",
            ),
        }
    }

    /// Any non-null window counts as a valid external window.
    pub fn is_valid_external_window(&mut self, hwnd: WindowHandle) -> (r: Result<
        bool,
        WindowControlError,
    >)
        ensures
            r == Ok::<bool, WindowControlError>(hwnd.raw != 0),
    {
        Ok(hwnd.raw() != 0)
    }

    /// The window of a snapshot is the same window while it is valid.
    pub fn is_same_external_window(&mut self, snapshot_hwnd: WindowHandle) -> (r: Result<
        bool,
        WindowControlError,
    >)
        ensures
            r == Ok::<bool, WindowControlError>(snapshot_hwnd.raw != 0),
    {
        self.is_valid_external_window(snapshot_hwnd)
    }

    pub fn snapshot(&mut self, hwnd: WindowHandle) -> (r: Result<(), WindowControlError>)
        ensures
            r matches Err(e) && is_placeholder_error(e, WindowOperation::Snapshot, hwnd),
    {
        Err(Self::pending(WindowOperation::Snapshot, Some(hwnd)))
    }

    pub fn hide_window(&mut self, hwnd: WindowHandle) -> (r: Result<(), WindowControlError>)
        ensures
            r matches Err(e) && is_placeholder_error(e, WindowOperation::Hide, hwnd),
    {
        Err(Self::pending(WindowOperation::Hide, Some(hwnd)))
    }

    pub fn show(&mut self, hwnd: WindowHandle) -> (r: Result<(), WindowControlError>)
        ensures
            r matches Err(e) && is_placeholder_error(e, WindowOperation::Show, hwnd),
    {
        Err(Self::pending(WindowOperation::Show, Some(hwnd)))
    }

    pub fn set_position(&mut self, hwnd: WindowHandle) -> (r: Result<(), WindowControlError>)
        ensures
            r matches Err(e) && is_placeholder_error(e, WindowOperation::SetPosition, hwnd),
    {
        Err(Self::pending(WindowOperation::SetPosition, Some(hwnd)))
    }

    pub fn restore(&mut self, hwnd: WindowHandle) -> (r: Result<(), WindowControlError>)
        ensures
            r matches Err(e) && is_placeholder_error(e, WindowOperation::Restore, hwnd),
    {
        Err(Self::pending(WindowOperation::Restore, Some(hwnd)))
    }
}

} // verus!
