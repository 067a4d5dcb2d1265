use j3grid_docker::geometry::TabId;
use j3grid_docker::wide_text::{
    replace_wide_null, sync_paint_tab_labels, wide_null, CachedTabLabel, WideText,
    WIDE_REPLACEMENT_CHARACTER,
};

#[test]
fn wide_text_replace_str_updates_nul_terminated_buffer() {
    let mut text = WideText::new("Ready");

    assert_eq!(
        text.wide(),
        &[b'R' as u16, b'e' as u16, b'a' as u16, b'd' as u16, b'y' as u16, 0]
    );

    text.replace_str("Go");

    assert_eq!(text.wide(), &[b'G' as u16, b'o' as u16, 0]);
}

#[test]
fn wide_text_helpers_replace_internal_nul_before_terminator() {
    let wide = wide_null("A\0B");

    assert_eq!(
        wide,
        vec![b'A' as u16, WIDE_REPLACEMENT_CHARACTER, b'B' as u16, 0]
    );

    let mut buffer = Vec::new();
    replace_wide_null(&mut buffer, "C\0D");

    assert_eq!(
        buffer,
        vec![b'C' as u16, WIDE_REPLACEMENT_CHARACTER, b'D' as u16, 0]
    );
}

#[test]
fn wide_text_keeps_buffer_for_same_value() {
    let mut text = WideText::new("Ready");
    let wide = text.wide().as_ptr();

    text.replace_str("Ready");

    assert_eq!(text.wide().as_ptr(), wide);
    assert_eq!(
        text.wide(),
        &[b'R' as u16, b'e' as u16, b'a' as u16, b'd' as u16, b'y' as u16, 0]
    );
}

#[test]
fn wide_null_encodes_utf16_surrogate_pairs() {
    let text = "가\u{1F600}";
    let mut expected: Vec<u16> = text.encode_utf16().collect();
    expected.push(0);
    assert_eq!(wide_null(text), expected);
    assert_eq!(wide_null("\u{1F600}"), vec![0xD83D, 0xDE00, 0]);
    assert_eq!(wide_null(""), vec![0]);
}

#[test]
fn wide_text_replace_takes_owned_text() {
    let mut text = WideText::new("one");
    text.replace(String::from("two"));
    assert_eq!(text.text(), "two");
    assert_eq!(text.wide(), wide_null("two").as_slice());
}

#[test]
fn paint_tab_labels_follow_the_given_tabs() {
    let mut cache = vec![
        CachedTabLabel::new(TabId::new(1), "stale hidden"),
        CachedTabLabel::new(TabId::new(2), "stale hidden 2"),
        CachedTabLabel::new(TabId::new(3), "stale hidden 3"),
    ];
    let labels = [(TabId::new(5), "Tab 5"), (TabId::new(6), "Tab 6")];
    sync_paint_tab_labels(&mut cache, &labels);
    let actual: Vec<(TabId, String)> = cache
        .iter()
        .map(|label| (label.tab_id(), label.label.text().to_owned()))
        .collect();
    assert_eq!(
        actual,
        vec![(TabId::new(5), String::from("Tab 5")), (TabId::new(6), String::from("Tab 6"))]
    );
    assert_eq!(cache[1].wide(), wide_null("Tab 6").as_slice());

    let more = [(TabId::new(5), "Tab 5"), (TabId::new(6), "Six"), (TabId::new(7), "Seven")];
    sync_paint_tab_labels(&mut cache, &more);
    assert_eq!(cache.len(), 3);
    assert_eq!(cache[2].label.text(), "Seven");
    assert_eq!(cache[1].label.text(), "Six");
}

#[test]
fn cached_tab_label_set_updates_id_and_text() {
    let mut label = CachedTabLabel::new(TabId::new(1), "a");
    label.set(TabId::new(2), "b");
    assert_eq!(label.tab_id(), TabId::new(2));
    assert_eq!(label.wide(), &[b'b' as u16, 0]);
}

struct PaintTab {
    tab_id: TabId,
    name: String,
}

fn paint_tab(tab_id: u64, name: &str) -> PaintTab {
    PaintTab { tab_id: TabId::new(tab_id), name: name.to_owned() }
}

fn paint_tab_index(tabs: &[PaintTab], tab_id: TabId) -> usize {
    tabs.iter().position(|tab| tab.tab_id == tab_id).expect("expected test tab to exist")
}

/// A window of visible tabs around the active one that leaves tabs hidden on
/// both sides, as an overflowing tab strip does.
fn overflow_visible_range(tab_count: usize, active_index: usize) -> (usize, usize) {
    let first = active_index.saturating_sub(1).max(1);
    let end = (active_index + 3).min(tab_count - 1);
    assert!(first > 0 && end < tab_count && end - first >= 2);
    (first, end)
}

fn sync_visible_tab_labels(cache: &mut Vec<CachedTabLabel>, tabs: &[PaintTab], range: (usize, usize)) {
    let labels: Vec<(TabId, &str)> =
        tabs[range.0..range.1].iter().map(|tab| (tab.tab_id, tab.name.as_str())).collect();
    sync_paint_tab_labels(cache, &labels);
}

fn assert_cache_matches_visible_tabs(cache: &[CachedTabLabel], tabs: &[PaintTab], range: (usize, usize)) {
    let actual: Vec<(TabId, &str)> =
        cache.iter().map(|label| (label.tab_id(), label.label.text())).collect();
    let expected: Vec<(TabId, &str)> =
        tabs[range.0..range.1].iter().map(|tab| (tab.tab_id, tab.name.as_str())).collect();
    assert_eq!(actual, expected);
    assert_eq!(cache.len(), range.1 - range.0);
}

#[test]
fn visible_tab_label_cache_tracks_only_overflow_range_after_tab_changes() {
    let active_tab = TabId::new(7);
    let mut tabs: Vec<PaintTab> =
        (1..=12u64).map(|tab_id| paint_tab(tab_id, &format!("Tab {tab_id}"))).collect();
    let mut cache = vec![
        CachedTabLabel::new(TabId::new(1), "stale hidden"),
        CachedTabLabel::new(TabId::new(2), "stale hidden 2"),
    ];

    let mut range = overflow_visible_range(tabs.len(), paint_tab_index(&tabs, active_tab));
    sync_visible_tab_labels(&mut cache, &tabs, range);
    assert_cache_matches_visible_tabs(&cache, &tabs, range);
    assert!(cache.len() < tabs.len());
    assert!(!cache.iter().any(|label| label.label.text() == "Tab 1"));

    tabs[range.0].name = "Renamed visible tab".to_owned();
    sync_visible_tab_labels(&mut cache, &tabs, range);
    assert_cache_matches_visible_tabs(&cache, &tabs, range);

    tabs.push(paint_tab(99, "Added tab"));
    range = overflow_visible_range(tabs.len(), paint_tab_index(&tabs, active_tab));
    sync_visible_tab_labels(&mut cache, &tabs, range);
    assert_cache_matches_visible_tabs(&cache, &tabs, range);

    let delete_index = (range.0..range.1)
        .find(|&index| tabs[index].tab_id != active_tab)
        .expect("expected a non-active visible tab to delete");
    tabs.remove(delete_index);
    range = overflow_visible_range(tabs.len(), paint_tab_index(&tabs, active_tab));
    sync_visible_tab_labels(&mut cache, &tabs, range);
    assert_cache_matches_visible_tabs(&cache, &tabs, range);

    let reorder_from = range.0;
    let moved = tabs.remove(reorder_from);
    let reorder_to = range.1.min(tabs.len());
    tabs.insert(reorder_to, moved);
    range = overflow_visible_range(tabs.len(), paint_tab_index(&tabs, active_tab));
    sync_visible_tab_labels(&mut cache, &tabs, range);
    assert_cache_matches_visible_tabs(&cache, &tabs, range);
    assert!(cache.len() < tabs.len());
}
