use vstd::prelude::*;

verus! {

/// Identifies a workspace tab.
#[derive(Debug, Clone, Copy, PartialEq, Eq, Structural)]
pub struct TabId {
    pub id: u64,
}

impl TabId {
    pub fn new(id: u64) -> (t: Self)
        ensures
            t.id == id,
    {
        TabId { id }
    }

    pub fn value(&self) -> (v: u64)
        ensures
            v == self.id,
    {
        self.id
    }
}

/// Identifies a layout region.
#[derive(Debug, Clone, Copy, PartialEq, Eq, Structural)]
pub struct RegionId {
    pub id: u64,
}

impl RegionId {
    pub fn new(id: u64) -> (r: Self)
        ensures
            r.id == id,
    {
        RegionId { id }
    }

    pub fn value(&self) -> (v: u64)
        ensures
            v == self.id,
    {
        self.id
    }
}

/// Why a value of the domain was refused.
#[derive(Debug, Clone, Copy, PartialEq, Eq, Structural)]
pub enum DomainError {
    NullWindowHandle,
    NonPositiveRectSize { width: i32, height: i32 },
    RectOutOfRange,
}

/// A handle of a top-level window; never null.
#[derive(Debug, Clone, Copy, PartialEq, Eq, Structural)]
pub struct WindowHandle {
    pub raw: isize,
}

impl WindowHandle {
    pub fn new(raw: isize) -> (r: Result<Self, DomainError>)
        ensures
            raw != 0 ==> r == Ok::<WindowHandle, DomainError>(WindowHandle { raw }),
            raw == 0 ==> r == Err::<WindowHandle, DomainError>(DomainError::NullWindowHandle),
    {
        if raw == 0 {
            Err(DomainError::NullWindowHandle)
        } else {
            Ok(WindowHandle { raw })
        }
    }

    pub fn raw(&self) -> (r: isize)
        ensures
            r == self.raw,
    {
        self.raw
    }
}

/// A rectangle given by its top-left corner and a positive size.
#[derive(Debug, Clone, Copy, PartialEq, Eq, Structural)]
pub struct Rect {
    pub left: i32,
    pub top: i32,
    pub width: i32,
    pub height: i32,
}

impl Rect {
    pub fn new(left: i32, top: i32, width: i32, height: i32) -> (r: Result<Self, DomainError>)
        ensures
            width > 0 && height > 0 ==> r == Ok::<Rect, DomainError>(
                Rect { left, top, width, height },
            ),
            !(width > 0 && height > 0) ==> r == Err::<Rect, DomainError>(
                DomainError::NonPositiveRectSize { width, height },
            ),
    {
        if width > 0 && height > 0 {
            Ok(Rect { left, top, width, height })
        } else {
            Err(DomainError::NonPositiveRectSize { width, height })
        }
    }

    /// The same rectangle moved by `(dx, dy)`; refused when the moved
    /// corner leaves the `i32` range.
    pub fn translated(&self, dx: i32, dy: i32) -> (r: Result<Rect, DomainError>)
        ensures
            match translated_rect(*self, dx, dy) {
                Some(t) => r == Ok::<Rect, DomainError>(t),
                None => r == Err::<Rect, DomainError>(DomainError::RectOutOfRange),
            },
    {
        match (self.left.checked_add(dx), self.top.checked_add(dy)) {
            (Some(left), Some(top)) => Ok(
                Rect { left, top, width: self.width, height: self.height },
            ),
            _ => Err(DomainError::RectOutOfRange),
        }
    }
}

pub open spec fn fits_i32(v: int) -> bool {
    i32::MIN <= v <= i32::MAX
}

/// `r` moved by `(dx, dy)`, when its corner stays in the `i32` range.
pub open spec fn translated_rect(r: Rect, dx: i32, dy: i32) -> Option<Rect> {
    if fits_i32(r.left + dx) && fits_i32(r.top + dy) {
        Some(
            Rect {
                left: (r.left + dx) as i32,
                top: (r.top + dy) as i32,
                width: r.width,
                height: r.height,
            },
        )
    } else {
        None
    }
}

/// A point in client coordinates.
#[derive(Debug, Clone, Copy, PartialEq, Eq, Structural)]
pub struct ClientPoint {
    pub x: i32,
    pub y: i32,
}

/// A point in screen coordinates.
#[derive(Debug, Clone, Copy, PartialEq, Eq, Structural)]
pub struct ScreenPoint {
    pub x: i32,
    pub y: i32,
}

/// A rectangle of the window's client area, by its four edges.
#[derive(Debug, Clone, Copy, PartialEq, Eq, Structural)]
pub struct UiRect {
    pub left: i32,
    pub top: i32,
    pub right: i32,
    pub bottom: i32,
}

pub open spec fn max_i32(a: i32, b: i32) -> i32 {
    if a >= b {
        a
    } else {
        b
    }
}

pub open spec fn min_i32(a: i32, b: i32) -> i32 {
    if a <= b {
        a
    } else {
        b
    }
}

/// The intersection of two rectangles, when it has a positive area.
pub open spec fn intersection(a: UiRect, b: UiRect) -> Option<UiRect> {
    let left = max_i32(a.left, b.left);
    let top = max_i32(a.top, b.top);
    let right = min_i32(a.right, b.right);
    let bottom = min_i32(a.bottom, b.bottom);
    if left < right && top < bottom {
        Some(UiRect { left, top, right, bottom })
    } else {
        None
    }
}

impl UiRect {
    pub fn new(left: i32, top: i32, right: i32, bottom: i32) -> (r: Self)
        ensures
            r == (UiRect { left, top, right, bottom }),
    {
        UiRect { left, top, right, bottom }
    }

    /// `right - left`.
    pub fn width(&self) -> (w: i32)
        requires
            self.right - self.left <= i32::MAX,
            self.right - self.left >= i32::MIN,
        ensures
            w == self.right - self.left,
    {
        self.right - self.left
    }

    /// The overlap of two rectangles, if it is not empty.
    pub fn intersect(&self, other: UiRect) -> (r: Option<UiRect>)
        ensures
            r == intersection(*self, other),
    {
        let left = if self.left >= other.left {
            self.left
        } else {
            other.left
        };
        let top = if self.top >= other.top {
            self.top
        } else {
            other.top
        };
        let right = if self.right <= other.right {
            self.right
        } else {
            other.right
        };
        let bottom = if self.bottom <= other.bottom {
            self.bottom
        } else {
            other.bottom
        };
        if left < right && top < bottom {
            Some(UiRect { left, top, right, bottom })
        } else {
            None
        }
    }

    /// The smallest rectangle holding both.
    pub fn union(&self, other: UiRect) -> (r: UiRect)
        ensures
            r == (UiRect {
                left: min_i32(self.left, other.left),
                top: min_i32(self.top, other.top),
                right: max_i32(self.right, other.right),
                bottom: max_i32(self.bottom, other.bottom),
            }),
    {
        UiRect {
            left: if self.left <= other.left {
                self.left
            } else {
                other.left
            },
            top: if self.top <= other.top {
                self.top
            } else {
                other.top
            },
            right: if self.right >= other.right {
                self.right
            } else {
                other.right
            },
            bottom: if self.bottom >= other.bottom {
                self.bottom
            } else {
                other.bottom
            },
        }
    }
}

/// Overlap is symmetric: the intersection does not depend on the order.
pub proof fn lemma_intersection_symmetric(a: UiRect, b: UiRect)
    ensures
        intersection(a, b) == intersection(b, a),
{
}

/// An intersection lies inside both rectangles.
pub proof fn lemma_intersection_inside(a: UiRect, b: UiRect)
    ensures
        intersection(a, b) matches Some(r) ==> a.left <= r.left && r.right <= a.right && a.top
            <= r.top && r.bottom <= a.bottom && b.left <= r.left && r.right <= b.right && b.top
            <= r.top && r.bottom <= b.bottom,
{
}

} // verus!
