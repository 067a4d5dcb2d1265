use vstd::prelude::*;

use crate::geometry::{Rect, ScreenPoint, WindowHandle};

verus! {

/// How far, in pixels, an external window has to move during a press before
/// releasing the button counts as dropping it.
pub const DROP_WINDOW_MOVE_THRESHOLD: i32 = 4;

/// The screen rectangle of an external window, by its four edges.
#[derive(Debug, Clone, Copy, PartialEq, Eq, Structural)]
pub struct TrackedWindowRect {
    pub left: i32,
    pub top: i32,
    pub right: i32,
    pub bottom: i32,
}

pub open spec fn abs_int(x: int) -> int {
    if x < 0 {
        -x
    } else {
        x
    }
}

pub open spec fn fits_i32(x: int) -> bool {
    i32::MIN <= x <= i32::MAX
}

/// The domain rectangle of a tracked rectangle, when its width and height
/// are representable and positive.
pub open spec fn domain_rect_of(r: TrackedWindowRect) -> Option<Rect> {
    let width = r.right - r.left;
    let height = r.bottom - r.top;
    if fits_i32(width) && fits_i32(height) && width > 0 && height > 0 {
        Some(Rect { left: r.left, top: r.top, width: width as i32, height: height as i32 })
    } else {
        None
    }
}

/// Two rectangles differ by at least `threshold` pixels on some edge; a
/// threshold of zero or less asks only whether they differ at all.
pub open spec fn rects_differ_by_at_least(
    a: TrackedWindowRect,
    b: TrackedWindowRect,
    threshold: i32,
) -> bool {
    if threshold <= 0 {
        a != b
    } else {
        abs_int(a.left - b.left) >= threshold || abs_int(a.top - b.top) >= threshold || abs_int(
            a.right - b.right,
        ) >= threshold || abs_int(a.bottom - b.bottom) >= threshold
    }
}

pub open spec fn rect_contains(r: TrackedWindowRect, p: ScreenPoint) -> bool {
    r.left <= p.x < r.right && r.top <= p.y < r.bottom
}

fn edge_moved_at_least(a: i32, b: i32, threshold: i32) -> (m: bool)
    requires
        threshold > 0,
    ensures
        m == (abs_int(a - b) >= threshold),
{
    let delta: i64 = a as i64 - b as i64;
    let magnitude: i64 = if delta < 0 {
        -delta
    } else {
        delta
    };
    magnitude >= threshold as i64
}

impl TrackedWindowRect {
    pub fn new(left: i32, top: i32, right: i32, bottom: i32) -> (r: Self)
        ensures
            r == (TrackedWindowRect { left, top, right, bottom }),
    {
        TrackedWindowRect { left, top, right, bottom }
    }

    /// The rectangle as a domain [`Rect`]: `None` when it is empty or its
    /// size does not fit an `i32`.
    pub fn to_domain_rect(self) -> (r: Option<Rect>)
        ensures
            r == domain_rect_of(self),
    {
        let width = self.right.checked_sub(self.left)?;
        let height = self.bottom.checked_sub(self.top)?;
        match Rect::new(self.left, self.top, width, height) {
            Ok(rect) => Some(rect),
            Err(_) => None,
        }
    }

    /// The point lies inside, the left and top edges included, the right
    /// and bottom edges excluded.
    pub fn contains_point(self, point: ScreenPoint) -> (b: bool)
        ensures
            b == rect_contains(self, point),
    {
        point.x >= self.left && point.x < self.right && point.y >= self.top && point.y < self.bottom
    }

    pub fn differs_by_at_least(self, other: Self, threshold: i32) -> (b: bool)
        ensures
            b == rects_differ_by_at_least(self, other, threshold),
    {
        if threshold <= 0 {
            return self != other;
        }
        edge_moved_at_least(self.left, other.left, threshold) || edge_moved_at_least(
            self.top,
            other.top,
            threshold,
        ) || edge_moved_at_least(self.right, other.right, threshold) || edge_moved_at_least(
            self.bottom,
            other.bottom,
            threshold,
        )
    }
}

/// The root window under a point, with whether the docker owns it.
#[derive(Debug, Clone, Copy, PartialEq, Eq, Structural)]
pub struct ExternalRootCandidate {
    pub hwnd: WindowHandle,
    pub docker_owned: bool,
}

/// A window is owned by `owner` when neither handle is null and the owner
/// of `hwnd` (as the window system reports it, `hwnd_owner`) is `owner`.
pub fn hwnd_is_owned_by_with(hwnd: isize, owner: isize, hwnd_owner: isize) -> (b: bool)
    ensures
        b == (hwnd != 0 && owner != 0 && hwnd_owner == owner),
{
    if hwnd == 0 || owner == 0 {
        return false;
    }
    hwnd_owner == owner
}

/// The external window a drop under `hwnd` would move: its root window,
/// unless that is null or the docker itself.  `root` is the root of `hwnd`
/// and `root_owner` the owner of that root, as the window system reports
/// them.
pub fn external_root_candidate_from_hwnd_with(
    hwnd: isize,
    docker_hwnd: isize,
    root: isize,
    root_owner: isize,
) -> (r: Option<ExternalRootCandidate>)
    ensures
        (hwnd == 0 || root == 0 || root == docker_hwnd) ==> r is None,
        !(hwnd == 0 || root == 0 || root == docker_hwnd) ==> r == Some(
            ExternalRootCandidate {
                hwnd: WindowHandle { raw: root },
                docker_owned: docker_hwnd != 0 && root_owner == docker_hwnd,
            },
        ),
{
    if hwnd == 0 {
        return None;
    }
    if root == 0 || root == docker_hwnd {
        return None;
    }
    let handle = match WindowHandle::new(root) {
        Ok(handle) => handle,
        Err(_) => {
            return None;
        },
    };
    let docker_owned = docker_hwnd != 0 && root_owner == docker_hwnd;
    Some(ExternalRootCandidate { hwnd: handle, docker_owned })
}

/// The window picked up by the current press, its rectangle when it was
/// picked and whether it has moved since.
#[derive(Debug, Clone, Copy, PartialEq, Eq, Structural)]
pub struct DropCandidate {
    pub hwnd: WindowHandle,
    pub initial_rect: TrackedWindowRect,
    pub window_moved: bool,
}

impl DropCandidate {
    pub fn new(hwnd: WindowHandle, initial_rect: TrackedWindowRect) -> (c: Self)
        ensures
            c == (DropCandidate { hwnd, initial_rect, window_moved: false }),
    {
        DropCandidate { hwnd, initial_rect, window_moved: false }
    }

    /// Marks the candidate moved once a rectangle differs from the initial
    /// one by the threshold; a moved candidate stays moved.
    pub fn observe_rect(&mut self, rect: TrackedWindowRect, threshold: i32)
        ensures
            final(self).hwnd == old(self).hwnd,
            final(self).initial_rect == old(self).initial_rect,
            final(self).window_moved == (old(self).window_moved || rects_differ_by_at_least(
                rect,
                old(self).initial_rect,
                threshold,
            )),
    {
        if rect.differs_by_at_least(self.initial_rect, threshold) {
            self.window_moved = true;
        }
    }
}

/// Follows one press of the mouse button outside the docker: the external
/// window it picked up and whether a drop was cancelled.
#[derive(Debug, Clone, Copy, PartialEq, Eq, Structural)]
pub struct DropTracker {
    pub left_button_down: bool,
    pub candidate: Option<DropCandidate>,
    pub suppress_drop: bool,
}

/// The tracker between presses.
pub open spec fn idle_tracker() -> DropTracker {
    DropTracker { left_button_down: false, candidate: None, suppress_drop: false }
}

/// The window a finished press drops, if any.
pub open spec fn dropped_window(t: DropTracker) -> Option<WindowHandle> {
    if !t.left_button_down || t.suppress_drop {
        None
    } else {
        match t.candidate {
            Some(c) => if c.window_moved {
                Some(c.hwnd)
            } else {
                None
            },
            None => None,
        }
    }
}

impl Default for DropTracker {
    fn default() -> (t: Self)
        ensures
            t == idle_tracker(),
    {
        DropTracker { left_button_down: false, candidate: None, suppress_drop: false }
    }
}

impl DropTracker {
    /// Starts tracking a press; a press already being tracked goes on.
    pub fn begin_press(&mut self)
        ensures
            old(self).left_button_down ==> *final(self) == *old(self),
            !old(self).left_button_down ==> *final(self) == (DropTracker {
                left_button_down: true,
                candidate: None,
                suppress_drop: false,
            }),
    {
        if !self.left_button_down {
            *self = DropTracker { left_button_down: true, candidate: None, suppress_drop: false };
        }
    }

    pub fn is_tracking(&self) -> (b: bool)
        ensures
            b == self.left_button_down,
    {
        self.left_button_down
    }

    /// A press is tracked, has no candidate yet and was not cancelled.
    pub fn needs_candidate(&self) -> (b: bool)
        ensures
            b == (self.left_button_down && self.candidate is None && !self.suppress_drop),
    {
        self.left_button_down && self.candidate.is_none() && !self.suppress_drop
    }

    /// Picks the window of the press; only the first one counts.
    pub fn set_candidate(&mut self, hwnd: WindowHandle, rect: TrackedWindowRect)
        ensures
            final(self).left_button_down == old(self).left_button_down,
            final(self).suppress_drop == old(self).suppress_drop,
            (old(self).left_button_down && old(self).candidate is None && !old(self).suppress_drop)
                ==> final(self).candidate == Some(DropCandidate::new_spec(hwnd, rect)),
            !(old(self).left_button_down && old(self).candidate is None && !old(
                self,
            ).suppress_drop) ==> final(self).candidate == old(self).candidate,
    {
        if self.needs_candidate() {
            self.candidate = Some(DropCandidate::new(hwnd, rect));
        }
    }

    pub fn candidate_hwnd(&self) -> (h: Option<WindowHandle>)
        ensures
            h == (match self.candidate {
                Some(c) => Some(c.hwnd),
                None => None,
            }),
    {
        match self.candidate {
            Some(candidate) => Some(candidate.hwnd),
            None => None,
        }
    }

    /// Compares the candidate's current rectangle with where it started.
    pub fn observe_candidate_rect(&mut self, rect: TrackedWindowRect, threshold: i32)
        ensures
            final(self).left_button_down == old(self).left_button_down,
            final(self).suppress_drop == old(self).suppress_drop,
            old(self).candidate is None ==> final(self).candidate is None,
            old(self).candidate matches Some(c) ==> final(self).candidate == Some(
                DropCandidate {
                    window_moved: c.window_moved || rects_differ_by_at_least(
                        rect,
                        c.initial_rect,
                        threshold,
                    ),
                    ..c
                },
            ),
    {
        if let Some(mut candidate) = self.candidate {
            candidate.observe_rect(rect, threshold);
            self.candidate = Some(candidate);
        }
    }

    /// Cancels the drop of the current press.
    pub fn suppress_drop(&mut self)
        ensures
            final(self).left_button_down == old(self).left_button_down,
            final(self).candidate is None,
            final(self).suppress_drop,
    {
        self.candidate = None;
        self.suppress_drop = true;
    }

    /// Ends the press: the candidate window when it moved and the drop was
    /// not cancelled.  Afterwards the tracker is idle.
    pub fn finish_press(&mut self) -> (r: Option<WindowHandle>)
        ensures
            r == dropped_window(*old(self)),
            old(self).left_button_down ==> *final(self) == idle_tracker(),
            !old(self).left_button_down ==> *final(self) == *old(self),
    {
        if !self.left_button_down {
            return None;
        }
        let candidate = if self.suppress_drop {
            None
        } else {
            match self.candidate {
                Some(c) => if c.window_moved {
                    Some(c.hwnd)
                } else {
                    None
                },
                None => None,
            }
        };
        *self = DropTracker::default();
        candidate
    }
}

impl DropCandidate {
    pub open spec fn new_spec(hwnd: WindowHandle, initial_rect: TrackedWindowRect) -> Self {
        DropCandidate { hwnd, initial_rect, window_moved: false }
    }
}

/// A press whose candidate never moved drops nothing, and a second finish
/// after any press drops nothing either.
pub proof fn lemma_finish_press_is_final(t: DropTracker)
    ensures
        dropped_window(idle_tracker()) is None,
        (t.candidate matches Some(c) && !c.window_moved) ==> dropped_window(t) is None,
        dropped_window(t) matches Some(h) ==> (t.candidate matches Some(c) && c.hwnd == h
            && c.window_moved && !t.suppress_drop && t.left_button_down),
{
}

} // verus!
