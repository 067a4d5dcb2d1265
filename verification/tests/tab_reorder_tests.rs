use j3grid_docker::geometry::TabId;
use j3grid_docker::status_text::TabStatusLabel;
use j3grid_docker::tab_reorder::{
    automatic_active_after_deletion_status_label, before_tab_id_for_insertion_index,
    overflow_tab_for_selection, scrolled_first_visible_index, tab_overflow_menu_items,
    tab_index, tab_strip_active_anchor_index, TabReorderAutoScroll, TabReorderDrag,
    TabReorderInsertion,
};

#[test]
fn reorder_drag_reports_only_changed_insertions() {
    let mut drag = TabReorderDrag::new(TabId::new(3));
    let first = TabReorderInsertion { before_tab_id: Some(TabId::new(1)), x: 40 };
    assert!(drag.record_insertion(first));
    assert!(!drag.record_insertion(first));
    let end = TabReorderInsertion { before_tab_id: None, x: 200 };
    assert!(drag.record_insertion(end));
    assert_eq!(drag.insertion, Some(end));
    assert_eq!(drag.tab_id, TabId::new(3));
}

#[test]
fn auto_scroll_moves_one_tab_when_possible() {
    assert_eq!(scrolled_first_visible_index(TabReorderAutoScroll::Backward, 2, 5, 9), Some(1));
    assert_eq!(scrolled_first_visible_index(TabReorderAutoScroll::Backward, 0, 5, 9), None);
    assert_eq!(scrolled_first_visible_index(TabReorderAutoScroll::Forward, 2, 5, 9), Some(3));
    assert_eq!(scrolled_first_visible_index(TabReorderAutoScroll::Forward, 4, 9, 9), None);
}

#[test]
fn tab_positions_and_insertion_targets() {
    let tabs = [TabId::new(4), TabId::new(7), TabId::new(9)];
    assert_eq!(tab_index(&tabs, TabId::new(7)), Some(1));
    assert_eq!(tab_index(&tabs, TabId::new(5)), None);
    assert_eq!(before_tab_id_for_insertion_index(&tabs, 0), Some(TabId::new(4)));
    assert_eq!(before_tab_id_for_insertion_index(&tabs, 3), None);
    assert_eq!(tab_strip_active_anchor_index(false, Some(2)), Some(2));
    assert_eq!(tab_strip_active_anchor_index(true, Some(2)), None);
}

fn label(id: u64, name: &str) -> TabStatusLabel {
    TabStatusLabel { tab_id: TabId::new(id), name: Some(name.to_owned()) }
}

#[test]
fn deleting_active_tab_activates_next_or_previous() {
    let tabs = [label(1, "One"), label(2, "Two"), label(3, "Three")];
    assert_eq!(
        automatic_active_after_deletion_status_label(&tabs, Some(TabId::new(2)), TabId::new(2)),
        Some(label(3, "Three"))
    );
    assert_eq!(
        automatic_active_after_deletion_status_label(&tabs, Some(TabId::new(3)), TabId::new(3)),
        Some(label(2, "Two"))
    );
    assert_eq!(
        automatic_active_after_deletion_status_label(&tabs, Some(TabId::new(1)), TabId::new(2)),
        None
    );
    assert_eq!(
        automatic_active_after_deletion_status_label(&tabs[..1], Some(TabId::new(1)), TabId::new(1)),
        None
    );
    assert_eq!(
        automatic_active_after_deletion_status_label(&tabs, Some(TabId::new(9)), TabId::new(9)),
        None
    );
}

#[test]
fn overflow_selection_maps_command_to_tab() {
    let entries = [(2000u16, TabId::new(5)), (2001u16, TabId::new(8))];
    assert_eq!(overflow_tab_for_selection(&entries, 2001, 0x10), Some(TabId::new(8)));
    assert_eq!(overflow_tab_for_selection(&entries, 2002, 0x10), None);
    assert_eq!(overflow_tab_for_selection(&entries, 0, 0x10), None);
    assert_eq!(overflow_tab_for_selection(&entries, 2000, 0), None);
}

#[test]
fn overflow_menu_lists_hidden_tabs_with_positions() {
    let tabs: Vec<(TabId, String)> = (1..=6).map(|id| (TabId::new(id), format!("T{id}"))).collect();
    let items = tab_overflow_menu_items(&tabs, 2, 4);
    let listed: Vec<(u16, TabId, &str)> =
        items.iter().map(|item| (item.command, item.tab_id, item.label.as_str())).collect();
    assert_eq!(
        listed,
        vec![
            (2000, TabId::new(1), "1 T1"),
            (2001, TabId::new(2), "2 T2"),
            (2002, TabId::new(5), "5 T5"),
            (2003, TabId::new(6), "6 T6"),
        ]
    );
    assert!(tab_overflow_menu_items(&tabs, 0, 6).is_empty());
}

#[test]
fn overflow_menu_stops_when_commands_run_out() {
    let tabs: Vec<(TabId, String)> = (0..1005).map(|id| (TabId::new(id), String::from("x"))).collect();
    let items = tab_overflow_menu_items(&tabs, 0, 0);
    assert_eq!(items.len(), 1000);
    assert_eq!(items[999].command, 2999);
    assert_eq!(items[999].tab_id, TabId::new(999));
}
