use vstd::prelude::*;

use crate::geometry::{TabId, UiRect, WindowHandle};
use crate::settings::UiLanguage;

verus! {

/// What the tab tooltips were last built for: the language, the workspace
/// state, the client area and the visible range of tabs.
#[derive(Debug, Clone, Copy, PartialEq, Eq, Structural)]
pub struct TabTooltipSyncLayoutKey {
    pub language: UiLanguage,
    pub workspace_generation: u64,
    pub client: UiRect,
    pub tab_count: usize,
    pub first_visible_index: usize,
    pub visible_end_index: usize,
}

impl TabTooltipSyncLayoutKey {
    pub fn new(
        language: UiLanguage,
        workspace_generation: u64,
        client: UiRect,
        tab_count: usize,
        first_visible_index: usize,
        visible_end_index: usize,
    ) -> (k: Self)
        ensures
            k == (TabTooltipSyncLayoutKey {
                language,
                workspace_generation,
                client,
                tab_count,
                first_visible_index,
                visible_end_index,
            }),
    {
        TabTooltipSyncLayoutKey {
            language,
            workspace_generation,
            client,
            tab_count,
            first_visible_index,
            visible_end_index,
        }
    }
}

pub open spec fn title_view(t: Option<String>) -> Option<Seq<char>> {
    match t {
        Some(s) => Some(s@),
        None => None,
    }
}

pub open spec fn titles_view(s: Seq<Option<String>>) -> Seq<Option<Seq<char>>> {
    s.map_values(|t: Option<String>| title_view(t))
}

/// The known titles, in order, the unknown ones left out.
pub open spec fn present_titles(s: Seq<Option<Seq<char>>>) -> Seq<Seq<char>>
    decreases s.len(),
{
    if s.len() == 0 {
        Seq::empty()
    } else {
        let rest = present_titles(s.drop_last());
        match s.last() {
            Some(t) => rest.push(t),
            None => rest,
        }
    }
}

/// The titles after a title change of `hwnd`: every placement of that
/// window takes the new title.
pub open spec fn updated_titles(
    hwnds: Seq<isize>,
    titles: Seq<Option<Seq<char>>>,
    hwnd: isize,
    title: Option<Seq<char>>,
) -> Seq<Option<Seq<char>>> {
    Seq::new(
        titles.len(),
        |i: int|
            if i < hwnds.len() && hwnds[i] == hwnd {
                title
            } else {
                titles[i]
            },
    )
}

/// Some placement pairs `hwnd` with a title.
pub open spec fn places_window(hwnds: Seq<isize>, titles_len: nat, hwnd: isize) -> bool {
    exists|i: int| 0 <= i < hwnds.len() && i < titles_len && hwnds[i] == hwnd
}

/// A tab's tooltip inputs: its rectangle and the windows placed in it with
/// their titles, in placement order.
#[derive(Debug, Clone, PartialEq, Eq)]
pub struct TabTooltipSyncKeySpec {
    pub tab_id: TabId,
    pub rect: UiRect,
    pub placement_hwnds: Vec<isize>,
    pub placement_titles: Vec<Option<String>>,
}

impl TabTooltipSyncKeySpec {
    pub fn new(
        tab_id: TabId,
        rect: UiRect,
        placement_hwnds: Vec<isize>,
        placement_titles: Vec<Option<String>>,
    ) -> (s: Self)
        requires
            placement_hwnds@.len() == placement_titles@.len(),
        ensures
            s.tab_id == tab_id,
            s.rect == rect,
            s.placement_hwnds@ == placement_hwnds@,
            s.placement_titles@ == placement_titles@,
    {
        TabTooltipSyncKeySpec { tab_id, rect, placement_hwnds, placement_titles }
    }

    /// Gives every placement of `hwnd` the new title; tells whether there
    /// was one.
    pub fn update_window_title(&mut self, hwnd: isize, title: Option<&str>) -> (updated: bool)
        ensures
            final(self).tab_id == old(self).tab_id,
            final(self).rect == old(self).rect,
            final(self).placement_hwnds@ == old(self).placement_hwnds@,
            titles_view(final(self).placement_titles@) == updated_titles(
                old(self).placement_hwnds@,
                titles_view(old(self).placement_titles@),
                hwnd,
                match title {
                    Some(t) => Some(t@),
                    None => None,
                },
            ),
            updated == places_window(
                old(self).placement_hwnds@,
                old(self).placement_titles@.len(),
                hwnd,
            ),
    {
        let ghost new_title: Option<Seq<char>> = match title {
            Some(t) => Some(t@),
            None => None,
        };
        let ghost old_titles = titles_view(self.placement_titles@);
        let mut updated = false;
        let mut k: usize = 0;
        while k < self.placement_titles.len() && k < self.placement_hwnds.len()
            invariant
                k <= self.placement_titles@.len(),
                self.placement_titles@.len() == old(self).placement_titles@.len(),
                self.tab_id == old(self).tab_id,
                self.rect == old(self).rect,
                self.placement_hwnds@ == old(self).placement_hwnds@,
                old_titles == titles_view(old(self).placement_titles@),
                new_title == (match title {
                    Some(t) => Some(t@),
                    None => None,
                }),
                forall|i: int|
                    0 <= i < self.placement_titles@.len() ==> #[trigger] title_view(
                        self.placement_titles@[i],
                    ) == if i < k && i < self.placement_hwnds@.len() && self.placement_hwnds@[i]
                        == hwnd {
                        new_title
                    } else {
                        old_titles[i]
                    },
                updated == (exists|i: int|
                    0 <= i < k && i < self.placement_hwnds@.len() && self.placement_hwnds@[i]
                        == hwnd),
            decreases old(self).placement_titles@.len() - k,
        {
            if self.placement_hwnds[k] == hwnd {
                let value: Option<String> = match title {
                    Some(t) => Some(t.to_owned()),
                    None => None,
                };
                self.placement_titles.set(k, value);
                updated = true;
                assert(self.placement_hwnds@[k as int] == hwnd);
            }
            proof {
                let hw = self.placement_hwnds@;
                if !updated {
                    assert forall|i: int| 0 <= i < k + 1 && i < hw.len() implies hw[i] != hwnd by {
                        if i < k {
                            assert(!(0 <= i < k && i < hw.len() && hw[i] == hwnd));
                        }
                    }
                }
            }
            k += 1;
        }
        proof {
            assert(titles_view(self.placement_titles@) =~= updated_titles(
                old(self).placement_hwnds@,
                old_titles,
                hwnd,
                new_title,
            ));
            if places_window(old(self).placement_hwnds@, old(self).placement_titles@.len(), hwnd) {
                let i = choose|i: int|
                    0 <= i < old(self).placement_hwnds@.len() && i < old(
                        self,
                    ).placement_titles@.len() && old(self).placement_hwnds@[i] == hwnd;
                assert(i < k);
            }
        }
        updated
    }

    /// The known titles of the tab's windows, in placement order: what the
    /// tooltip text is made from.
    pub fn present_titles(&self) -> (r: Vec<String>)
        ensures
            r@.map_values(|s: String| s@) == present_titles(titles_view(self.placement_titles@)),
    {
        let mut out: Vec<String> = Vec::new();
        let mut k: usize = 0;
        while k < self.placement_titles.len()
            invariant
                k <= self.placement_titles@.len(),
                out@.map_values(|s: String| s@) == present_titles(
                    titles_view(self.placement_titles@.subrange(0, k as int)),
                ),
            decreases self.placement_titles@.len() - k,
        {
            proof {
                let next = titles_view(self.placement_titles@.subrange(0, k + 1 as int));
                assert(next.drop_last() =~= titles_view(self.placement_titles@.subrange(0, k as int)));
                assert(next.last() == title_view(self.placement_titles@[k as int]));
            }
            match &self.placement_titles[k] {
                Some(title) => {
                    let ghost before = out@;
                    out.push(title.clone());
                    assert(out@.map_values(|s: String| s@) =~= before.map_values(|s: String| s@).push(
                        title@,
                    ));
                },
                None => {},
            }
            k += 1;
        }
        assert(self.placement_titles@.subrange(0, self.placement_titles@.len() as int)
            =~= self.placement_titles@);
        out
    }

    /// The tab, its rectangle and its windows are exactly the given ones, in
    /// the given order.
    pub fn matches_windows(&self, tab_id: TabId, rect: UiRect, hwnds: &[WindowHandle]) -> (b: bool)
        ensures
            b == (self.tab_id == tab_id && self.rect == rect && self.placement_hwnds@
                == hwnds@.map_values(|h: WindowHandle| h.raw)),
    {
        if self.tab_id != tab_id || self.rect != rect {
            return false;
        }
        if self.placement_hwnds.len() != hwnds.len() {
            assert(self.placement_hwnds@.len() != hwnds@.map_values(|h: WindowHandle| h.raw).len());
            return false;
        }
        let mut k: usize = 0;
        while k < hwnds.len()
            invariant
                k <= hwnds@.len(),
                self.placement_hwnds@.len() == hwnds@.len(),
                forall|i: int| 0 <= i < k ==> self.placement_hwnds@[i] == hwnds@[i].raw,
            decreases hwnds@.len() - k,
        {
            if self.placement_hwnds[k] != hwnds[k].raw {
                assert(self.placement_hwnds@[k as int] != hwnds@.map_values(
                    |h: WindowHandle| h.raw,
                )[k as int]);
                return false;
            }
            k += 1;
        }
        assert(self.placement_hwnds@ =~= hwnds@.map_values(|h: WindowHandle| h.raw));
        true
    }
}

/// What a title change means for one tab's tooltip: the tab, its rectangle
/// and the known titles of its windows after the change.
#[derive(Debug, Clone, PartialEq, Eq)]
pub struct TabTooltipUpdate {
    pub tab_id: TabId,
    pub rect: UiRect,
    pub titles: Vec<String>,
}

pub open spec fn update_view(u: TabTooltipUpdate) -> (TabId, UiRect, Seq<Seq<char>>) {
    (u.tab_id, u.rect, u.titles@.map_values(|s: String| s@))
}

pub open spec fn tab_places_window(t: TabTooltipSyncKeySpec, hwnd: isize) -> bool {
    places_window(t.placement_hwnds@, t.placement_titles@.len(), hwnd)
}

/// For each tab that holds `hwnd`, in order: the tab, its rectangle and
/// its known titles once `hwnd` has the new title.
pub open spec fn title_change_updates(
    tabs: Seq<TabTooltipSyncKeySpec>,
    hwnd: isize,
    title: Option<Seq<char>>,
) -> Seq<(TabId, UiRect, Seq<Seq<char>>)>
    decreases tabs.len(),
{
    if tabs.len() == 0 {
        Seq::empty()
    } else {
        let rest = title_change_updates(tabs.drop_last(), hwnd, title);
        let t = tabs.last();
        if tab_places_window(t, hwnd) {
            rest.push(
                (
                    t.tab_id,
                    t.rect,
                    present_titles(
                        updated_titles(
                            t.placement_hwnds@,
                            titles_view(t.placement_titles@),
                            hwnd,
                            title,
                        ),
                    ),
                ),
            )
        } else {
            rest
        }
    }
}

/// The tooltip inputs of all visible tabs, for the layout they were built
/// for.
#[derive(Debug, Clone, PartialEq, Eq)]
pub struct TabTooltipSyncKey {
    pub layout: TabTooltipSyncLayoutKey,
    pub tabs: Vec<TabTooltipSyncKeySpec>,
}

impl TabTooltipSyncKey {
    pub fn new(layout: TabTooltipSyncLayoutKey, tab_capacity: usize) -> (k: Self)
        ensures
            k.layout == layout,
            k.tabs@.len() == 0,
    {
        TabTooltipSyncKey { layout, tabs: Vec::with_capacity(tab_capacity) }
    }

    pub fn matches_layout(&self, layout: TabTooltipSyncLayoutKey) -> (b: bool)
        ensures
            b == (self.layout == layout),
    {
        self.layout == layout
    }

    /// Some tab has `hwnd` among its windows.
    pub fn contains_window(&self, hwnd: isize) -> (b: bool)
        ensures
            b == exists|i: int, j: int|
                0 <= i < self.tabs@.len() && 0 <= j < self.tabs@[i].placement_hwnds@.len()
                    && self.tabs@[i].placement_hwnds@[j] == hwnd,
    {
        let mut i: usize = 0;
        while i < self.tabs.len()
            invariant
                i <= self.tabs@.len(),
                forall|a: int, b: int|
                    0 <= a < i && 0 <= b < self.tabs@[a].placement_hwnds@.len()
                        ==> self.tabs@[a].placement_hwnds@[b] != hwnd,
            decreases self.tabs@.len() - i,
        {
            let hwnds = &self.tabs[i].placement_hwnds;
            let mut j: usize = 0;
            while j < hwnds.len()
                invariant
                    j <= hwnds@.len(),
                    i < self.tabs@.len(),
                    hwnds@ == self.tabs@[i as int].placement_hwnds@,
                    forall|b: int| 0 <= b < j ==> hwnds@[b] != hwnd,
                decreases hwnds@.len() - j,
            {
                if hwnds[j] == hwnd {
                    return true;
                }
                j += 1;
            }
            i += 1;
        }
        false
    }

    /// The tabs that have `hwnd` among their windows, with their rectangles.
    pub fn tabs_for_window(&self, hwnd: isize) -> (r: Vec<(TabId, UiRect)>)
        ensures
            r@ == self.tabs@.filter(|t: TabTooltipSyncKeySpec| t.placement_hwnds@.contains(hwnd)).map_values(
                |t: TabTooltipSyncKeySpec| (t.tab_id, t.rect),
            ),
    {
        let mut out: Vec<(TabId, UiRect)> = Vec::new();
        let mut i: usize = 0;
        while i < self.tabs.len()
            invariant
                i <= self.tabs@.len(),
                out@ == self.tabs@.subrange(0, i as int).filter(
                    |t: TabTooltipSyncKeySpec| t.placement_hwnds@.contains(hwnd),
                ).map_values(|t: TabTooltipSyncKeySpec| (t.tab_id, t.rect)),
            decreases self.tabs@.len() - i,
        {
            let tab = &self.tabs[i];
            proof {
                let pred = |t: TabTooltipSyncKeySpec| t.placement_hwnds@.contains(hwnd);
                let before = self.tabs@.subrange(0, i as int);
                assert(self.tabs@.subrange(0, i + 1 as int) =~= before.push(*tab));
                before.lemma_filter_push(*tab, pred);
            }
            if vec_contains(&tab.placement_hwnds, hwnd) {
                let ghost before = out@;
                out.push((tab.tab_id, tab.rect));
            }
            i += 1;
        }
        assert(self.tabs@.subrange(0, self.tabs@.len() as int) =~= self.tabs@);
        out
    }

    /// The windows of all tabs, tab by tab in placement order.
    pub fn window_hwnds(&self) -> (r: Vec<isize>)
        ensures
            r@ == self.tabs@.map_values(|t: TabTooltipSyncKeySpec| t.placement_hwnds@).flatten(),
    {
        let mut out: Vec<isize> = Vec::new();
        let mut i: usize = 0;
        while i < self.tabs.len()
            invariant
                i <= self.tabs@.len(),
                out@ == self.tabs@.subrange(0, i as int).map_values(
                    |t: TabTooltipSyncKeySpec| t.placement_hwnds@,
                ).flatten(),
            decreases self.tabs@.len() - i,
        {
            let hwnds = &self.tabs[i].placement_hwnds;
            proof {
                let f = |t: TabTooltipSyncKeySpec| t.placement_hwnds@;
                let before = self.tabs@.subrange(0, i as int).map_values(f);
                assert(self.tabs@.subrange(0, i + 1 as int).map_values(f) =~= before.push(hwnds@));
                before.lemma_flatten_push(hwnds@);
            }
            let mut j: usize = 0;
            let ghost start = out@;
            while j < hwnds.len()
                invariant
                    j <= hwnds@.len(),
                    out@ == start + hwnds@.subrange(0, j as int),
                decreases hwnds@.len() - j,
            {
                out.push(hwnds[j]);
                assert(hwnds@.subrange(0, j + 1 as int) =~= hwnds@.subrange(0, j as int).push(
                    hwnds@[j as int],
                ));
                j += 1;
            }
            assert(hwnds@.subrange(0, hwnds@.len() as int) =~= hwnds@);
            i += 1;
        }
        assert(self.tabs@.subrange(0, self.tabs@.len() as int) =~= self.tabs@);
        out
    }

    /// Applies a title change of `hwnd` to every tab and returns, for each
    /// tab holding that window, its new tooltip inputs.
    pub fn tooltip_sync_specs_for_window_title_change(
        &mut self,
        hwnd: isize,
        title: Option<String>,
    ) -> (r: Vec<TabTooltipUpdate>)
        ensures
            final(self).layout == old(self).layout,
            final(self).tabs@.len() == old(self).tabs@.len(),
            forall|i: int|
                0 <= i < old(self).tabs@.len() ==> {
                    let t = #[trigger] final(self).tabs@[i];
                    let o = old(self).tabs@[i];
                    &&& t.tab_id == o.tab_id
                    &&& t.rect == o.rect
                    &&& t.placement_hwnds@ == o.placement_hwnds@
                    &&& titles_view(t.placement_titles@) == updated_titles(
                        o.placement_hwnds@,
                        titles_view(o.placement_titles@),
                        hwnd,
                        title_view(title),
                    )
                },
            r@.map_values(|u: TabTooltipUpdate| update_view(u)) == title_change_updates(
                old(self).tabs@,
                hwnd,
                title_view(title),
            ),
    {
        let mut updates: Vec<TabTooltipUpdate> = Vec::new();
        let title_text: Option<&str> = match &title {
            Some(t) => Some(t.as_str()),
            None => None,
        };
        let mut i: usize = 0;
        while i < self.tabs.len()
            invariant
                i <= self.tabs@.len(),
                self.tabs@.len() == old(self).tabs@.len(),
                self.layout == old(self).layout,
                (match title_text {
                    Some(t) => Some(t@),
                    None => None,
                }) == title_view(title),
                forall|j: int|
                    0 <= j < old(self).tabs@.len() ==> {
                        let t = #[trigger] self.tabs@[j];
                        let o = old(self).tabs@[j];
                        &&& t.tab_id == o.tab_id
                        &&& t.rect == o.rect
                        &&& t.placement_hwnds@ == o.placement_hwnds@
                        &&& (j < i ==> titles_view(t.placement_titles@) == updated_titles(
                            o.placement_hwnds@,
                            titles_view(o.placement_titles@),
                            hwnd,
                            title_view(title),
                        ))
                        &&& (j >= i ==> t.placement_titles@ == o.placement_titles@)
                    },
                updates@.map_values(|u: TabTooltipUpdate| update_view(u)) == title_change_updates(
                    old(self).tabs@.subrange(0, i as int),
                    hwnd,
                    title_view(title),
                ),
            decreases old(self).tabs@.len() - i,
        {
            let ghost o = old(self).tabs@[i as int];
            let mut tab = self.tabs[i].clone_spec();
            let updated = tab.update_window_title(hwnd, title_text);
            let entry_titles = tab.present_titles();
            let entry = TabTooltipUpdate { tab_id: tab.tab_id, rect: tab.rect, titles: entry_titles };
            self.tabs.set(i, tab);
            proof {
                let prefix = old(self).tabs@.subrange(0, i as int);
                let next = old(self).tabs@.subrange(0, i + 1 as int);
                assert(next.drop_last() =~= prefix);
                assert(next.last() == o);
            }
            if updated {
                let ghost before = updates@;
                updates.push(entry);
                assert(updates@.map_values(|u: TabTooltipUpdate| update_view(u)) =~= before.map_values(
                    |u: TabTooltipUpdate| update_view(u),
                ).push(update_view(entry)));
            }
            i += 1;
        }
        assert(old(self).tabs@.subrange(0, old(self).tabs@.len() as int) =~= old(self).tabs@);
        updates
    }
}

impl TabTooltipSyncKeySpec {
    /// A copy whose windows and titles equal this one's.
    pub fn clone_spec(&self) -> (c: Self)
        ensures
            c.tab_id == self.tab_id,
            c.rect == self.rect,
            c.placement_hwnds@ == self.placement_hwnds@,
            titles_view(c.placement_titles@) == titles_view(self.placement_titles@),
            c.placement_titles@.len() == self.placement_titles@.len(),
    {
        let mut titles: Vec<Option<String>> = Vec::new();
        let mut k: usize = 0;
        while k < self.placement_titles.len()
            invariant
                k <= self.placement_titles@.len(),
                titles@.len() == k,
                forall|i: int| 0 <= i < k ==> #[trigger] title_view(titles@[i]) == title_view(
                    self.placement_titles@[i],
                ),
            decreases self.placement_titles@.len() - k,
        {
            let copy: Option<String> = match &self.placement_titles[k] {
                Some(t) => Some(t.clone()),
                None => None,
            };
            titles.push(copy);
            k += 1;
        }
        assert(titles_view(titles@) =~= titles_view(self.placement_titles@));
        let mut hwnds: Vec<isize> = Vec::new();
        let mut j: usize = 0;
        while j < self.placement_hwnds.len()
            invariant
                j <= self.placement_hwnds@.len(),
                hwnds@ == self.placement_hwnds@.subrange(0, j as int),
            decreases self.placement_hwnds@.len() - j,
        {
            hwnds.push(self.placement_hwnds[j]);
            assert(self.placement_hwnds@.subrange(0, j + 1 as int) =~= self.placement_hwnds@.subrange(
                0,
                j as int,
            ).push(self.placement_hwnds@[j as int]));
            j += 1;
        }
        assert(self.placement_hwnds@.subrange(0, self.placement_hwnds@.len() as int)
            =~= self.placement_hwnds@);
        TabTooltipSyncKeySpec {
            tab_id: self.tab_id,
            rect: self.rect,
            placement_hwnds: hwnds,
            placement_titles: titles,
        }
    }
}

/// Whether a list of window handles holds `hwnd`.
pub fn vec_contains(hwnds: &Vec<isize>, hwnd: isize) -> (b: bool)
    ensures
        b == hwnds@.contains(hwnd),
{
    let mut k: usize = 0;
    while k < hwnds.len()
        invariant
            k <= hwnds@.len(),
            forall|i: int| 0 <= i < k ==> hwnds@[i] != hwnd,
        decreases hwnds@.len() - k,
    {
        if hwnds[k] == hwnd {
            return true;
        }
        k += 1;
    }
    false
}

} // verus!
