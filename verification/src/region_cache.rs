use vstd::prelude::*;

use std::collections::HashMap;

use crate::geometry::{fits_i32, translated_rect, Rect, RegionId, TabId};

verus! {

broadcast use vstd::std_specs::hash::group_hash_axioms;

/// A layout region and where it lies.
#[derive(Debug, Clone, Copy, PartialEq, Eq, Structural)]
pub struct RegionRect {
    pub region_id: RegionId,
    pub rect: Rect,
}

impl RegionRect {
    pub fn new(region_id: RegionId, rect: Rect) -> (r: Self)
        ensures
            r.region_id == region_id,
            r.rect == rect,
    {
        RegionRect { region_id, rect }
    }

    pub fn region_id(&self) -> (r: RegionId)
        ensures
            r == self.region_id,
    {
        self.region_id
    }

    pub fn rect(&self) -> (r: Rect)
        ensures
            r == self.rect,
    {
        self.rect
    }
}

pub open spec fn region_translatable(r: RegionRect, dx: i32, dy: i32) -> bool {
    translated_rect(r.rect, dx, dy) is Some
}

pub open spec fn all_translatable(regions: Seq<RegionRect>, dx: i32, dy: i32) -> bool {
    forall|i: int| 0 <= i < regions.len() ==> #[trigger] region_translatable(regions[i], dx, dy)
}

pub open spec fn translated_region(r: RegionRect, dx: i32, dy: i32) -> RegionRect {
    RegionRect { region_id: r.region_id, rect: translated_rect(r.rect, dx, dy)->0 }
}

/// Every region moved by `(dx, dy)`, in order.
pub open spec fn translated_regions(regions: Seq<RegionRect>, dx: i32, dy: i32) -> Seq<
    RegionRect,
> {
    regions.map_values(|r: RegionRect| translated_region(r, dx, dy))
}

/// The rectangle of each region id, taken from its first occurrence.
pub open spec fn first_rects(regions: Seq<RegionRect>) -> Map<u64, Rect>
    decreases regions.len(),
{
    if regions.len() == 0 {
        Map::empty()
    } else {
        let prev = first_rects(regions.drop_last());
        let last = regions.last();
        if prev.contains_key(last.region_id.id) {
            prev
        } else {
            prev.insert(last.region_id.id, last.rect)
        }
    }
}

/// How far `to` lies from `from` when both have the same size.
pub open spec fn bounds_offset_spec(from: Rect, to: Rect) -> Option<(i32, i32)> {
    if from.width == to.width && from.height == to.height && fits_i32(to.left - from.left)
        && fits_i32(to.top - from.top) {
        Some(((to.left - from.left) as i32, (to.top - from.top) as i32))
    } else {
        None
    }
}

/// The offset from `from` to `to`; `None` when their sizes differ or the
/// offset does not fit in `i32`.
pub fn bounds_offset(from: Rect, to: Rect) -> (r: Option<(i32, i32)>)
    ensures
        r == bounds_offset_spec(from, to),
{
    if from.width != to.width || from.height != to.height {
        return None;
    }
    let dx = match to.left.checked_sub(from.left) {
        Some(dx) => dx,
        None => {
            return None;
        },
    };
    let dy = match to.top.checked_sub(from.top) {
        Some(dy) => dy,
        None => {
            return None;
        },
    };
    Some((dx, dy))
}

/// Every region moved by `(dx, dy)`; `None` as soon as one of them cannot
/// be moved.
pub fn translated_region_rects(regions: &[RegionRect], dx: i32, dy: i32) -> (r: Option<
    Vec<RegionRect>,
>)
    ensures
        r is Some <==> all_translatable(regions@, dx, dy),
        r matches Some(v) ==> v@ == translated_regions(regions@, dx, dy),
{
    let mut out: Vec<RegionRect> = Vec::new();
    let mut i: usize = 0;
    while i < regions.len()
        invariant
            i <= regions@.len(),
            forall|j: int| 0 <= j < i ==> #[trigger] region_translatable(regions@[j], dx, dy),
            out@ == translated_regions(regions@.take(i as int), dx, dy),
        decreases regions@.len() - i,
    {
        let region = regions[i];
        match region.rect.translated(dx, dy) {
            Ok(rect) => {
                out.push(RegionRect::new(region.region_id, rect));
                assert(translated_regions(regions@.take(i + 1), dx, dy) =~= translated_regions(
                    regions@.take(i as int),
                    dx,
                    dy,
                ).push(translated_region(region, dx, dy)));
            },
            Err(_) => {
                assert(!region_translatable(regions@[i as int], dx, dy));
                return None;
            },
        }
        i += 1;
    }
    assert(regions@.take(regions@.len() as int) =~= regions@);
    Some(out)
}

/// The regions of a drag layout placed into the current layout bounds:
/// `None` when the sizes differ, the offset does not fit, or a region
/// cannot be moved.
pub fn paint_layout_regions_from_drag_regions(
    drag_bounds: Rect,
    bounds: Rect,
    regions: &[RegionRect],
) -> (r: Option<Vec<RegionRect>>)
    ensures
        match bounds_offset_spec(drag_bounds, bounds) {
            None => r is None,
            Some((dx, dy)) => {
                &&& (r is Some <==> all_translatable(regions@, dx, dy))
                &&& (r matches Some(v) ==> v@ == translated_regions(regions@, dx, dy))
            },
        },
{
    match bounds_offset(drag_bounds, bounds) {
        None => None,
        Some((dx, dy)) => translated_region_rects(regions, dx, dy),
    }
}

/// The layout computed for the active tab at the last sync, kept so that
/// a sync with unchanged bounds can be skipped and a move can shift it.
#[derive(Debug)]
pub struct ActiveTabSyncCache {
    tab_id: TabId,
    bounds: Rect,
    regions: Vec<RegionRect>,
    rects_by_region_id: HashMap<u64, Rect>,
}

/// One step of `first_rects` along a prefix.
proof fn lemma_first_rects_step(regions: Seq<RegionRect>, i: int)
    requires
        0 <= i < regions.len(),
    ensures
        regions.take(i + 1).drop_last() == regions.take(i),
        regions.take(i + 1).last() == regions[i],
{
    assert(regions.take(i + 1).drop_last() =~= regions.take(i));
}

impl ActiveTabSyncCache {
    pub closed spec fn spec_tab_id(&self) -> TabId {
        self.tab_id
    }

    pub closed spec fn spec_bounds(&self) -> Rect {
        self.bounds
    }

    pub closed spec fn spec_regions(&self) -> Seq<RegionRect> {
        self.regions@
    }

    /// The rectangle looked up for each region id.
    pub closed spec fn spec_rects(&self) -> Map<u64, Rect> {
        self.rects_by_region_id@
    }

    pub fn new(tab_id: TabId, bounds: Rect, regions: Vec<RegionRect>) -> (c: Self)
        ensures
            c.spec_tab_id() == tab_id,
            c.spec_bounds() == bounds,
            c.spec_regions() == regions@,
            c.spec_rects() == first_rects(regions@),
    {
        let mut rects_by_region_id: HashMap<u64, Rect> = HashMap::new();
        let mut i: usize = 0;
        while i < regions.len()
            invariant
                i <= regions@.len(),
                rects_by_region_id@ == first_rects(regions@.take(i as int)),
            decreases regions@.len() - i,
        {
            let region = regions[i];
            proof {
                lemma_first_rects_step(regions@, i as int);
            }
            if !rects_by_region_id.contains_key(&region.region_id.id) {
                rects_by_region_id.insert(region.region_id.id, region.rect);
            }
            i += 1;
        }
        assert(regions@.take(regions@.len() as int) =~= regions@);
        ActiveTabSyncCache { tab_id, bounds, regions, rects_by_region_id }
    }

    pub fn tab_id(&self) -> (t: TabId)
        ensures
            t == self.spec_tab_id(),
    {
        self.tab_id
    }

    pub fn bounds(&self) -> (b: Rect)
        ensures
            b == self.spec_bounds(),
    {
        self.bounds
    }

    pub fn regions(&self) -> (r: &[RegionRect])
        ensures
            r@ == self.spec_regions(),
    {
        self.regions.as_slice()
    }

    /// The rectangle recorded for a region.
    pub fn rect_for_region(&self, region_id: RegionId) -> (r: Option<Rect>)
        ensures
            r == (if self.spec_rects().contains_key(region_id.id) {
                Some(self.spec_rects()[region_id.id])
            } else {
                None::<Rect>
            }),
    {
        match self.rects_by_region_id.get(&region_id.id) {
            Some(rect) => Some(*rect),
            None => None,
        }
    }
}

/// The cache holds the active tab's layout for exactly these bounds.
pub open spec fn cache_matches(
    cache: Option<ActiveTabSyncCache>,
    active_tab: Option<TabId>,
    bounds: Rect,
) -> bool {
    match (active_tab, cache) {
        (Some(t), Some(c)) => c.spec_tab_id() == t && c.spec_bounds() == bounds,
        _ => false,
    }
}

/// The offset by which the cached layout can be shifted to `bounds`.
pub open spec fn cache_offset(
    cache: Option<ActiveTabSyncCache>,
    active_tab: Option<TabId>,
    bounds: Rect,
) -> Option<(i32, i32)> {
    match (active_tab, cache) {
        (Some(t), Some(c)) => if c.spec_tab_id() == t && c.spec_regions().len() > 0 {
            bounds_offset_spec(c.spec_bounds(), bounds)
        } else {
            None
        },
        _ => None,
    }
}

/// Whether the cached layout already belongs to the active tab at these
/// bounds.  With no active tab the cache is dropped.
pub fn active_tab_sync_cache_matches(
    cache: &mut Option<ActiveTabSyncCache>,
    active_tab: Option<TabId>,
    bounds: Rect,
) -> (b: bool)
    ensures
        b == cache_matches(*old(cache), active_tab, bounds),
        active_tab is None ==> *final(cache) is None,
        active_tab is Some ==> *final(cache) == *old(cache),
{
    let tab_id = match active_tab {
        None => {
            *cache = None;
            return false;
        },
        Some(tab_id) => tab_id,
    };
    match cache {
        Some(c) => c.tab_id == tab_id && c.bounds == bounds,
        None => false,
    }
}

/// A fresh cache for the active tab, or none when there is no active tab.
pub fn remember_active_tab_sync_regions(
    active_tab: Option<TabId>,
    bounds: Rect,
    regions: Vec<RegionRect>,
) -> (c: Option<ActiveTabSyncCache>)
    ensures
        active_tab is None ==> c is None,
        active_tab matches Some(t) ==> c matches Some(n) && n.spec_tab_id() == t
            && n.spec_bounds() == bounds && n.spec_regions() == regions@ && n.spec_rects()
            == first_rects(regions@),
{
    match active_tab {
        None => None,
        Some(tab_id) => Some(ActiveTabSyncCache::new(tab_id, bounds, regions)),
    }
}

/// The offset from the cached bounds to `bounds`, when the cache holds a
/// non-empty layout of the active tab with the same size.  With no active
/// tab the cache is dropped.
pub fn active_tab_sync_cache_offset(
    cache: &mut Option<ActiveTabSyncCache>,
    active_tab: Option<TabId>,
    bounds: Rect,
) -> (r: Option<(i32, i32)>)
    ensures
        r == cache_offset(*old(cache), active_tab, bounds),
        active_tab is None ==> *final(cache) is None,
        active_tab is Some ==> *final(cache) == *old(cache),
{
    let tab_id = match active_tab {
        None => {
            *cache = None;
            return None;
        },
        Some(tab_id) => tab_id,
    };
    match cache {
        None => None,
        Some(c) => {
            if c.tab_id != tab_id || c.regions.len() == 0 {
                None
            } else {
                bounds_offset(c.bounds, bounds)
            }
        },
    }
}

/// Moves every cached region by `(dx, dy)` and records `bounds`.  Fails
/// when there is no cache for the active tab or a region cannot be moved;
/// in the second case the regions before the one that failed are already
/// moved, the lookup holds only those, and the bounds are unchanged.
pub fn shift_active_tab_sync_cache(
    cache: &mut Option<ActiveTabSyncCache>,
    active_tab: Option<TabId>,
    bounds: Rect,
    dx: i32,
    dy: i32,
) -> (b: bool)
    ensures
        active_tab is None ==> !b && *final(cache) is None,
        active_tab matches Some(t) ==> match *old(cache) {
            None => !b && *final(cache) is None,
            Some(c) => if c.spec_tab_id() != t {
                !b && *final(cache) == *old(cache)
            } else if all_translatable(c.spec_regions(), dx, dy) {
                &&& b
                &&& *final(cache) matches Some(n)
                &&& n.spec_tab_id() == t
                &&& n.spec_bounds() == bounds
                &&& n.spec_regions() == translated_regions(c.spec_regions(), dx, dy)
                &&& n.spec_rects() == first_rects(n.spec_regions())
            } else {
                &&& !b
                &&& *final(cache) matches Some(n)
                &&& n.spec_tab_id() == t
                &&& n.spec_bounds() == c.spec_bounds()
                &&& exists|k: int|
                    #![trigger c.spec_regions()[k]]
                    0 <= k < c.spec_regions().len() && !region_translatable(
                        c.spec_regions()[k],
                        dx,
                        dy,
                    ) && (forall|j: int|
                        0 <= j < k ==> #[trigger] region_translatable(c.spec_regions()[j], dx, dy))
                        && n.spec_regions() == translated_regions(c.spec_regions().take(k), dx, dy)
                        + c.spec_regions().skip(k) && n.spec_rects() == first_rects(
                        translated_regions(c.spec_regions().take(k), dx, dy),
                    )
            },
        },
{
    let tab_id = match active_tab {
        None => {
            *cache = None;
            return false;
        },
        Some(tab_id) => tab_id,
    };
    let mut c = match cache.take() {
        None => {
            return false;
        },
        Some(c) => c,
    };
    if c.tab_id != tab_id {
        *cache = Some(c);
        return false;
    }
    let ghost start = c.regions@;
    let ghost start_bounds = c.bounds;
    c.rects_by_region_id.clear();
    let mut i: usize = 0;
    while i < c.regions.len()
        invariant
            active_tab == Some(tab_id),
            *old(cache) matches Some(oc) && oc.spec_tab_id() == tab_id && oc.spec_regions() == start
                && oc.spec_bounds() == start_bounds,
            c.regions@.len() == start.len(),
            i <= start.len(),
            c.tab_id == tab_id,
            c.bounds == start_bounds,
            forall|j: int| 0 <= j < i ==> #[trigger] region_translatable(start[j], dx, dy),
            c.regions@ == translated_regions(start.take(i as int), dx, dy) + start.skip(i as int),
            c.rects_by_region_id@ == first_rects(translated_regions(start.take(i as int), dx, dy)),
        decreases start.len() - i,
    {
        let region = c.regions[i];
        assert(region == start[i as int]);
        match region.rect.translated(dx, dy) {
            Err(_) => {
                proof {
                    assert(!region_translatable(start[i as int], dx, dy));
                    assert(!all_translatable(start, dx, dy));
                }
                *cache = Some(c);
                return false;
            },
            Ok(rect) => {
                let moved = RegionRect::new(region.region_id, rect);
                let ghost next = translated_regions(start.take(i + 1), dx, dy);
                proof {
                    assert(next =~= translated_regions(start.take(i as int), dx, dy).push(moved));
                    lemma_first_rects_step(next, i as int);
                    assert(next.take(i as int) =~= translated_regions(start.take(i as int), dx, dy));
                    assert(next.take(i + 1) =~= next);
                }
                c.regions.set(i, moved);
                if !c.rects_by_region_id.contains_key(&region.region_id.id) {
                    c.rects_by_region_id.insert(region.region_id.id, rect);
                }
                proof {
                    assert(c.regions@ =~= next + start.skip(i + 1));
                }
            },
        }
        i += 1;
    }
    assert(start.take(start.len() as int) =~= start);
    assert(c.regions@ =~= translated_regions(start, dx, dy));
    c.bounds = bounds;
    *cache = Some(c);
    true
}

/// What a sync of the active tab does first.
#[derive(Debug, Clone, Copy, PartialEq, Eq)]
pub enum ActiveTabSyncStep {
    /// The active tab still waits to be shown: show it instead.
    ShowActiveTab,
    /// The cached layout already matches the bounds: nothing to do.
    AlreadySynced,
    /// Sync, reusing the cached layout shifted by this offset when there is one.
    Sync { cache_offset: Option<(i32, i32)> },
}

pub open spec fn sync_step(
    cache: Option<ActiveTabSyncCache>,
    active_tab: Option<TabId>,
    bounds: Rect,
    show_pending: bool,
) -> ActiveTabSyncStep {
    if show_pending {
        ActiveTabSyncStep::ShowActiveTab
    } else if cache_matches(cache, active_tab, bounds) {
        ActiveTabSyncStep::AlreadySynced
    } else {
        ActiveTabSyncStep::Sync { cache_offset: cache_offset(cache, active_tab, bounds) }
    }
}

/// The first step of a sync of the active tab at `bounds`.
pub fn active_tab_sync_step(
    cache: &mut Option<ActiveTabSyncCache>,
    active_tab: Option<TabId>,
    bounds: Rect,
    show_pending: bool,
) -> (s: ActiveTabSyncStep)
    ensures
        s == sync_step(*old(cache), active_tab, bounds, show_pending),
        show_pending ==> *final(cache) == *old(cache),
        !show_pending && active_tab is None ==> *final(cache) is None,
        active_tab is Some ==> *final(cache) == *old(cache),
{
    if show_pending {
        return ActiveTabSyncStep::ShowActiveTab;
    }
    if active_tab_sync_cache_matches(cache, active_tab, bounds) {
        return ActiveTabSyncStep::AlreadySynced;
    }
    let cache_offset = active_tab_sync_cache_offset(cache, active_tab, bounds);
    ActiveTabSyncStep::Sync { cache_offset }
}

/// The regions cached after a successful sync: those the sync computed,
/// else the cached ones shifted by `cache_offset` when that works, else
/// none.
pub open spec fn regions_after_sync(
    cache: Option<ActiveTabSyncCache>,
    active_tab: Option<TabId>,
    computed_regions: Option<Vec<RegionRect>>,
    cache_offset: Option<(i32, i32)>,
) -> Seq<RegionRect> {
    match computed_regions {
        Some(regions) => regions@,
        None => match (cache_offset, cache, active_tab) {
            (Some((dx, dy)), Some(c), Some(t)) => if c.spec_tab_id() == t && all_translatable(
                c.spec_regions(),
                dx,
                dy,
            ) {
                translated_regions(c.spec_regions(), dx, dy)
            } else {
                Seq::empty()
            },
            _ => Seq::empty(),
        },
    }
}

/// Records the outcome of a successful sync at `bounds`: the regions the
/// sync computed when it computed any, else the cached layout shifted by
/// `cache_offset`, else (or when the shift fails) an empty layout.
pub fn active_tab_sync_cache_after_sync(
    cache: &mut Option<ActiveTabSyncCache>,
    active_tab: Option<TabId>,
    bounds: Rect,
    computed_regions: Option<Vec<RegionRect>>,
    cache_offset: Option<(i32, i32)>,
)
    ensures
        active_tab is None ==> *final(cache) is None,
        active_tab is Some ==> cache_matches(*final(cache), active_tab, bounds),
        active_tab is Some ==> (*final(cache) matches Some(n) && n.spec_regions()
            == regions_after_sync(*old(cache), active_tab, computed_regions, cache_offset)
            && n.spec_rects() == first_rects(n.spec_regions())),
{
    match computed_regions {
        Some(regions) => {
            *cache = remember_active_tab_sync_regions(active_tab, bounds, regions);
        },
        None => match cache_offset {
            Some((dx, dy)) => {
                if !shift_active_tab_sync_cache(cache, active_tab, bounds, dx, dy) {
                    *cache = remember_active_tab_sync_regions(active_tab, bounds, Vec::new());
                }
            },
            None => {
                *cache = remember_active_tab_sync_regions(active_tab, bounds, Vec::new());
            },
        },
    }
}

/// After a sync at some bounds, the next sync at the same bounds is
/// skipped, unless the active tab still waits to be shown.
pub proof fn lemma_synced_bounds_are_skipped(
    cache: Option<ActiveTabSyncCache>,
    active_tab: Option<TabId>,
    bounds: Rect,
)
    requires
        cache_matches(cache, active_tab, bounds),
    ensures
        sync_step(cache, active_tab, bounds, false) == ActiveTabSyncStep::AlreadySynced,
        sync_step(cache, active_tab, bounds, true) == ActiveTabSyncStep::ShowActiveTab,
{
}

/// The layout regions kept while a splitter is dragged, for the tab and
/// bounds they were computed for.
#[derive(Debug, Clone, PartialEq, Eq)]
pub struct SplitterDragLayoutCache {
    pub tab_id: TabId,
    pub bounds: Rect,
    pub regions: Vec<RegionRect>,
}

/// Takes the cached drag regions when they belong to this tab and these
/// bounds; a cache for anything else stays where it is.
pub fn take_splitter_drag_regions(
    cache: &mut Option<SplitterDragLayoutCache>,
    tab_id: TabId,
    bounds: Rect,
) -> (r: Option<Vec<RegionRect>>)
    ensures
        match *old(cache) {
            Some(c) => if c.tab_id == tab_id && c.bounds == bounds {
                r matches Some(v) && v@ == c.regions@ && *final(cache) is None
            } else {
                r is None && *final(cache) == *old(cache)
            },
            None => r is None && *final(cache) is None,
        },
{
    match cache.take() {
        Some(c) => {
            if c.tab_id == tab_id && c.bounds == bounds {
                Some(c.regions)
            } else {
                *cache = Some(c);
                None
            }
        },
        None => None,
    }
}

} // verus!
