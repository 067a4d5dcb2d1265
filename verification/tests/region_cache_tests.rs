use j3grid_docker::geometry::{DomainError, Rect, RegionId, TabId};
use j3grid_docker::region_cache::{
    active_tab_sync_cache_after_sync, active_tab_sync_cache_matches, active_tab_sync_cache_offset,
    active_tab_sync_step, bounds_offset, paint_layout_regions_from_drag_regions,
    remember_active_tab_sync_regions, shift_active_tab_sync_cache, take_splitter_drag_regions,
    translated_region_rects, ActiveTabSyncCache, ActiveTabSyncStep, RegionRect,
    SplitterDragLayoutCache,
};

fn rect(left: i32, top: i32, width: i32, height: i32) -> Rect {
    Rect::new(left, top, width, height).unwrap()
}

fn region(id: u64, r: Rect) -> RegionRect {
    RegionRect::new(RegionId::new(id), r)
}

#[test]
fn rect_translated_moves_corner_and_keeps_size() {
    assert_eq!(rect(10, 20, 30, 40).translated(5, -7), Ok(rect(15, 13, 30, 40)));
    assert_eq!(rect(i32::MAX, 0, 1, 1).translated(1, 0), Err(DomainError::RectOutOfRange));
    assert_eq!(rect(0, i32::MIN, 1, 1).translated(0, -1), Err(DomainError::RectOutOfRange));
}

#[test]
fn bounds_offset_requires_same_size() {
    assert_eq!(bounds_offset(rect(0, 0, 100, 50), rect(30, 40, 100, 50)), Some((30, 40)));
    assert_eq!(bounds_offset(rect(30, 40, 100, 50), rect(0, 0, 100, 50)), Some((-30, -40)));
    assert_eq!(bounds_offset(rect(0, 0, 100, 50), rect(0, 0, 101, 50)), None);
    assert_eq!(bounds_offset(rect(0, 0, 100, 50), rect(0, 0, 100, 49)), None);
    assert_eq!(bounds_offset(rect(i32::MIN, 0, 1, 1), rect(i32::MAX, 0, 1, 1)), None);
}

#[test]
fn translated_region_rects_moves_every_region_or_none() {
    let regions = vec![region(1, rect(0, 0, 10, 10)), region(2, rect(10, 0, 10, 10))];
    assert_eq!(
        translated_region_rects(&regions, 3, 4),
        Some(vec![region(1, rect(3, 4, 10, 10)), region(2, rect(13, 4, 10, 10))])
    );
    let edge = vec![region(1, rect(0, 0, 10, 10)), region(2, rect(i32::MAX, 0, 1, 1))];
    assert_eq!(translated_region_rects(&edge, 1, 0), None);
    assert_eq!(translated_region_rects(&[], 1, 0), Some(Vec::new()));
}

#[test]
fn paint_layout_regions_follow_the_moved_bounds() {
    let regions = vec![region(7, rect(100, 200, 50, 60))];
    assert_eq!(
        paint_layout_regions_from_drag_regions(rect(100, 200, 300, 400), rect(0, 0, 300, 400), &regions),
        Some(vec![region(7, rect(0, 0, 50, 60))])
    );
    assert_eq!(
        paint_layout_regions_from_drag_regions(rect(100, 200, 300, 400), rect(0, 0, 301, 400), &regions),
        None
    );
}

#[test]
fn cache_lookup_keeps_first_rect_of_each_region() {
    let cache = ActiveTabSyncCache::new(
        TabId::new(1),
        rect(0, 0, 100, 100),
        vec![region(5, rect(0, 0, 10, 10)), region(5, rect(50, 50, 10, 10)), region(6, rect(20, 0, 10, 10))],
    );
    assert_eq!(cache.rect_for_region(RegionId::new(5)), Some(rect(0, 0, 10, 10)));
    assert_eq!(cache.rect_for_region(RegionId::new(6)), Some(rect(20, 0, 10, 10)));
    assert_eq!(cache.rect_for_region(RegionId::new(7)), None);
    assert_eq!(cache.tab_id(), TabId::new(1));
    assert_eq!(cache.regions().len(), 3);
}

#[test]
fn cache_matches_only_active_tab_at_same_bounds() {
    let bounds = rect(0, 0, 100, 100);
    let mut cache = remember_active_tab_sync_regions(Some(TabId::new(1)), bounds, Vec::new());
    assert!(active_tab_sync_cache_matches(&mut cache, Some(TabId::new(1)), bounds));
    assert!(!active_tab_sync_cache_matches(&mut cache, Some(TabId::new(2)), bounds));
    assert!(!active_tab_sync_cache_matches(&mut cache, Some(TabId::new(1)), rect(1, 0, 100, 100)));
    assert!(cache.is_some());
    assert!(!active_tab_sync_cache_matches(&mut cache, None, bounds));
    assert!(cache.is_none());
}

#[test]
fn cache_offset_needs_regions_and_same_size() {
    let bounds = rect(0, 0, 100, 100);
    let mut empty = remember_active_tab_sync_regions(Some(TabId::new(1)), bounds, Vec::new());
    assert_eq!(active_tab_sync_cache_offset(&mut empty, Some(TabId::new(1)), rect(5, 5, 100, 100)), None);

    let mut cache = remember_active_tab_sync_regions(
        Some(TabId::new(1)),
        bounds,
        vec![region(1, rect(0, 0, 50, 100))],
    );
    assert_eq!(
        active_tab_sync_cache_offset(&mut cache, Some(TabId::new(1)), rect(5, 6, 100, 100)),
        Some((5, 6))
    );
    assert_eq!(active_tab_sync_cache_offset(&mut cache, Some(TabId::new(2)), rect(5, 6, 100, 100)), None);
    assert_eq!(active_tab_sync_cache_offset(&mut cache, Some(TabId::new(1)), rect(5, 6, 90, 100)), None);
    assert!(cache.is_some());
    assert_eq!(active_tab_sync_cache_offset(&mut cache, None, bounds), None);
    assert!(cache.is_none());
}

#[test]
fn shift_moves_regions_and_records_bounds() {
    let mut cache = remember_active_tab_sync_regions(
        Some(TabId::new(1)),
        rect(0, 0, 100, 100),
        vec![region(1, rect(0, 0, 50, 100)), region(2, rect(50, 0, 50, 100))],
    );
    assert!(shift_active_tab_sync_cache(&mut cache, Some(TabId::new(1)), rect(10, 20, 100, 100), 10, 20));
    let shifted = cache.as_ref().unwrap();
    assert_eq!(shifted.bounds(), rect(10, 20, 100, 100));
    assert_eq!(shifted.regions(), &[region(1, rect(10, 20, 50, 100)), region(2, rect(60, 20, 50, 100))][..]);
    assert_eq!(shifted.rect_for_region(RegionId::new(2)), Some(rect(60, 20, 50, 100)));
}

#[test]
fn shift_fails_for_other_tab_or_unmovable_region() {
    let mut cache = remember_active_tab_sync_regions(
        Some(TabId::new(1)),
        rect(0, 0, 100, 100),
        vec![region(1, rect(0, 0, 50, 100)), region(2, rect(i32::MAX, 0, 1, 100))],
    );
    assert!(!shift_active_tab_sync_cache(&mut cache, Some(TabId::new(2)), rect(1, 0, 100, 100), 1, 0));
    assert_eq!(cache.as_ref().unwrap().regions()[0], region(1, rect(0, 0, 50, 100)));

    assert!(!shift_active_tab_sync_cache(&mut cache, Some(TabId::new(1)), rect(1, 0, 100, 100), 1, 0));
    let partial = cache.as_ref().unwrap();
    assert_eq!(partial.bounds(), rect(0, 0, 100, 100));
    assert_eq!(partial.regions()[0], region(1, rect(1, 0, 50, 100)));
    assert_eq!(partial.regions()[1], region(2, rect(i32::MAX, 0, 1, 100)));
    assert_eq!(partial.rect_for_region(RegionId::new(1)), Some(rect(1, 0, 50, 100)));
    assert_eq!(partial.rect_for_region(RegionId::new(2)), None);

    let mut none: Option<ActiveTabSyncCache> = None;
    assert!(!shift_active_tab_sync_cache(&mut none, Some(TabId::new(1)), rect(0, 0, 1, 1), 0, 0));
}

#[test]
fn sync_step_shows_skips_or_syncs() {
    let bounds = rect(0, 0, 100, 100);
    let mut cache = remember_active_tab_sync_regions(
        Some(TabId::new(1)),
        bounds,
        vec![region(1, rect(0, 0, 100, 100))],
    );
    assert_eq!(active_tab_sync_step(&mut cache, Some(TabId::new(1)), bounds, true), ActiveTabSyncStep::ShowActiveTab);
    assert_eq!(active_tab_sync_step(&mut cache, Some(TabId::new(1)), bounds, false), ActiveTabSyncStep::AlreadySynced);
    assert_eq!(
        active_tab_sync_step(&mut cache, Some(TabId::new(1)), rect(3, 4, 100, 100), false),
        ActiveTabSyncStep::Sync { cache_offset: Some((3, 4)) }
    );
    assert_eq!(
        active_tab_sync_step(&mut cache, Some(TabId::new(1)), rect(0, 0, 50, 100), false),
        ActiveTabSyncStep::Sync { cache_offset: None }
    );
}

#[test]
fn after_sync_the_same_bounds_are_skipped() {
    let old_bounds = rect(0, 0, 100, 100);
    let new_bounds = rect(3, 4, 100, 100);
    let tab = Some(TabId::new(1));

    let mut shifted = remember_active_tab_sync_regions(tab, old_bounds, vec![region(1, rect(0, 0, 100, 100))]);
    active_tab_sync_cache_after_sync(&mut shifted, tab, new_bounds, None, Some((3, 4)));
    assert_eq!(shifted.as_ref().unwrap().regions(), &[region(1, rect(3, 4, 100, 100))][..]);
    assert_eq!(active_tab_sync_step(&mut shifted, tab, new_bounds, false), ActiveTabSyncStep::AlreadySynced);

    let mut computed = None;
    active_tab_sync_cache_after_sync(&mut computed, tab, new_bounds, Some(vec![region(9, new_bounds)]), None);
    assert_eq!(computed.as_ref().unwrap().regions(), &[region(9, new_bounds)][..]);
    assert_eq!(active_tab_sync_step(&mut computed, tab, new_bounds, false), ActiveTabSyncStep::AlreadySynced);

    let mut failed = remember_active_tab_sync_regions(tab, old_bounds, vec![region(1, rect(i32::MAX, 0, 1, 1))]);
    active_tab_sync_cache_after_sync(&mut failed, tab, new_bounds, None, Some((3, 4)));
    assert!(failed.as_ref().unwrap().regions().is_empty());
    assert_eq!(failed.as_ref().unwrap().bounds(), new_bounds);

    let mut no_tab = remember_active_tab_sync_regions(tab, old_bounds, Vec::new());
    active_tab_sync_cache_after_sync(&mut no_tab, None, new_bounds, None, None);
    assert!(no_tab.is_none());
}

#[test]
fn splitter_drag_regions_are_taken_only_for_same_tab_and_bounds() {
    let bounds = rect(0, 0, 100, 100);
    let regions = vec![region(1, rect(0, 0, 50, 100))];
    let mut cache = Some(SplitterDragLayoutCache { tab_id: TabId::new(1), bounds, regions: regions.clone() });
    assert_eq!(take_splitter_drag_regions(&mut cache, TabId::new(2), bounds), None);
    assert!(cache.is_some());
    assert_eq!(take_splitter_drag_regions(&mut cache, TabId::new(1), rect(1, 0, 100, 100)), None);
    assert!(cache.is_some());
    assert_eq!(take_splitter_drag_regions(&mut cache, TabId::new(1), bounds), Some(regions));
    assert!(cache.is_none());
    assert_eq!(take_splitter_drag_regions(&mut cache, TabId::new(1), bounds), None);
}
