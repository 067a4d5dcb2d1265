use vstd::prelude::*;

use crate::geometry::Rect;

verus! {

/// What the splitter overlay windows show: how many are visible and the
/// rectangle each visible one was last moved to.  The windows themselves
/// belong to the caller, index by index.
#[derive(Debug, Clone, PartialEq, Eq)]
pub struct SplitterOverlayLayout {
    visible_count: usize,
    visible_rects: Vec<Rect>,
}

impl SplitterOverlayLayout {
    /// Every visible overlay has a remembered rectangle.
    pub closed spec fn wf(&self) -> bool {
        self.visible_count <= self.visible_rects@.len()
    }

    pub closed spec fn spec_visible_count(&self) -> nat {
        self.visible_count as nat
    }

    /// The rectangle an overlay is known to show, if it is visible.
    pub closed spec fn spec_visible_rect(&self, index: int) -> Option<Rect> {
        if 0 <= index < self.visible_count {
            Some(self.visible_rects@[index])
        } else {
            None
        }
    }

    pub fn new() -> (s: Self)
        ensures
            s.wf(),
            s.spec_visible_count() == 0,
    {
        SplitterOverlayLayout { visible_count: 0, visible_rects: Vec::new() }
    }

    pub fn visible_count(&self) -> (n: usize)
        ensures
            n == self.spec_visible_count(),
    {
        self.visible_count
    }

    pub fn visible_rect_at(&self, index: usize) -> (r: Option<Rect>)
        requires
            self.wf(),
        ensures
            r == self.spec_visible_rect(index as int),
    {
        if index < self.visible_count {
            Some(self.visible_rects[index])
        } else {
            None
        }
    }

    /// Whether overlay `index` has to be moved to show `rect`.
    pub fn rect_needs_update(&self, index: usize, rect: Rect) -> (b: bool)
        requires
            self.wf(),
        ensures
            b == (self.spec_visible_rect(index as int) != Some(rect)),
    {
        match self.visible_rect_at(index) {
            Some(visible) => visible != rect,
            None => true,
        }
    }

    /// Records that overlay `index` was moved to `rect` and shown.
    pub fn remember_visible_rect(&mut self, index: usize, rect: Rect)
        requires
            old(self).wf(),
            index < usize::MAX,
        ensures
            final(self).wf(),
            final(self).spec_visible_rect(index as int) == Some(rect),
            final(self).spec_visible_count() == (if old(self).spec_visible_count() > index {
                old(self).spec_visible_count()
            } else {
                (index + 1) as nat
            }),
            forall|i: int|
                0 <= i < old(self).spec_visible_count() && i != index ==> #[trigger] final(self).spec_visible_rect(i)
                    == old(self).spec_visible_rect(i),
    {
        if self.visible_rects.len() <= index {
            self.visible_rects.resize(index + 1, rect);
        }
        self.visible_rects.set(index, rect);
        if self.visible_count < index + 1 {
            self.visible_count = index + 1;
        }
    }

    /// Forgets every overlay; returns how many were visible, so that the
    /// caller hides the windows below that index.
    pub fn hide_all(&mut self) -> (previously_visible: usize)
        ensures
            previously_visible == old(self).spec_visible_count(),
            final(self).wf(),
            final(self).spec_visible_count() == 0,
    {
        let previously_visible = self.visible_count;
        self.visible_count = 0;
        self.visible_rects.clear();
        previously_visible
    }

    /// The overlays that have to be hidden when only `shown` stay visible:
    /// the indices from `shown` up to the visible count.
    pub fn overlays_to_hide(&self, shown: usize) -> (r: (usize, usize))
        ensures
            r.0 == shown,
            r.1 == (if self.spec_visible_count() > shown {
                self.spec_visible_count()
            } else {
                shown as nat
            }),
    {
        if self.visible_count > shown {
            (shown, self.visible_count)
        } else {
            (shown, shown)
        }
    }

    /// Ends a sync to `shown` rectangles: exactly the first `shown`
    /// overlays stay visible.  When every one of them shows its rectangle
    /// of `rects`, the layout is exactly `rects`.
    pub fn finish_sync(&mut self, rects: &[Rect])
        requires
            old(self).wf(),
            forall|i: int|
                0 <= i < rects@.len() ==> old(self).spec_visible_rect(i) == Some(#[trigger] rects@[i]),
        ensures
            final(self).wf(),
            final(self).spec_visible_count() == rects@.len(),
            forall|i: int|
                0 <= i < rects@.len() ==> final(self).spec_visible_rect(i) == Some(#[trigger] rects@[i]),
            forall|i: int| i >= rects@.len() ==> final(self).spec_visible_rect(i) is None,
    {
        let shown = rects.len();
        proof {
            if shown > 0 {
                assert(old(self).spec_visible_rect(shown - 1) == Some(rects@[shown - 1]));
            }
        }
        self.visible_count = shown;
        self.visible_rects.truncate(shown);
        proof {
            assert forall|i: int| 0 <= i < rects@.len() implies self.spec_visible_rect(i) == Some(
                #[trigger] rects@[i],
            ) by {
                assert(old(self).spec_visible_rect(i) == Some(rects@[i]));
            }
        }
    }

    /// Brings the layout to `rects` when every overlay move succeeds: the
    /// bookkeeping of a full sync.
    pub fn record_synced(&mut self, rects: &[Rect])
        requires
            old(self).wf(),
            rects@.len() < usize::MAX,
        ensures
            final(self).wf(),
            final(self).spec_visible_count() == rects@.len(),
            forall|i: int|
                0 <= i < rects@.len() ==> final(self).spec_visible_rect(i) == Some(#[trigger] rects@[i]),
    {
        let mut index: usize = 0;
        while index < rects.len()
            invariant
                index <= rects@.len(),
                rects@.len() < usize::MAX,
                self.wf(),
                forall|i: int|
                    0 <= i < index ==> self.spec_visible_rect(i) == Some(#[trigger] rects@[i]),
            decreases rects@.len() - index,
        {
            let rect = rects[index];
            if self.rect_needs_update(index, rect) {
                self.remember_visible_rect(index, rect);
            }
            index += 1;
        }
        self.finish_sync(rects);
    }
}

} // verus!
