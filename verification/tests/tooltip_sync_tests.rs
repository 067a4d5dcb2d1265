use j3grid_docker::geometry::{TabId, UiRect, WindowHandle};
use j3grid_docker::layout::TAB_BAR_HEIGHT;
use j3grid_docker::settings::UiLanguage;
use j3grid_docker::tooltip_sync::{
    TabTooltipSyncKey, TabTooltipSyncKeySpec, TabTooltipSyncLayoutKey, TabTooltipUpdate,
};

fn titles(values: &[&str]) -> Vec<String> {
    values.iter().map(|value| (*value).to_owned()).collect()
}

#[test]
fn tab_tooltip_sync_key_spec_matches_same_window_sequence() -> Result<(), Box<dyn std::error::Error>>
{
    let tab_id = TabId::new(7);
    let rect = UiRect::new(20, 0, 140, TAB_BAR_HEIGHT);
    let first = WindowHandle::new(100).map_err(|e| format!("{e:?}"))?;
    let second = WindowHandle::new(200).map_err(|e| format!("{e:?}"))?;
    let spec = TabTooltipSyncKeySpec::new(
        tab_id,
        rect,
        vec![first.raw(), second.raw()],
        vec![Some("First".to_owned()), Some("Second".to_owned())],
    );
    let layout = TabTooltipSyncLayoutKey::new(
        UiLanguage::English,
        0,
        UiRect::new(0, 0, 320, TAB_BAR_HEIGHT),
        1,
        0,
        1,
    );
    let key = TabTooltipSyncKey {
        layout,
        tabs: vec![spec.clone()],
    };
    let renamed_title = "Renamed".to_owned();
    let mut renamed_spec = spec.clone();

    assert!(key.matches_layout(layout));
    assert!(!key.matches_layout(TabTooltipSyncLayoutKey::new(
        UiLanguage::English,
        1,
        UiRect::new(0, 0, 320, TAB_BAR_HEIGHT),
        1,
        0,
        1,
    )));
    assert!(key.contains_window(first.raw()));
    assert!(!key.contains_window(300));
    assert_eq!(key.tabs_for_window(second.raw()), vec![(tab_id, rect)]);
    assert_eq!(key.tabs_for_window(300).first(), None);
    assert!(spec.matches_windows(tab_id, rect, &[first, second]));
    assert!(!spec.matches_windows(tab_id, rect, &[first]));
    assert!(!spec.matches_windows(tab_id, rect, &[second, first]));
    assert!(!spec.matches_windows(TabId::new(8), rect, &[first, second]));
    assert!(!spec.matches_windows(
        tab_id,
        UiRect::new(21, 0, 141, TAB_BAR_HEIGHT),
        &[first, second]
    ));
    assert!(renamed_spec.update_window_title(second.raw(), Some(renamed_title.as_str())));
    assert_eq!(renamed_spec.present_titles(), titles(&["First", "Renamed"]));
    assert!(renamed_spec.update_window_title(first.raw(), None));
    assert_eq!(renamed_spec.present_titles(), titles(&["Renamed"]));

    Ok(())
}

#[test]
fn tab_tooltip_sync_key_updates_only_tabs_containing_renamed_window(
) -> Result<(), Box<dyn std::error::Error>> {
    let first_tab_id = TabId::new(7);
    let second_tab_id = TabId::new(8);
    let first_rect = UiRect::new(20, 0, 140, TAB_BAR_HEIGHT);
    let second_rect = UiRect::new(140, 0, 260, TAB_BAR_HEIGHT);
    let first = WindowHandle::new(100).map_err(|e| format!("{e:?}"))?;
    let renamed = WindowHandle::new(200).map_err(|e| format!("{e:?}"))?;
    let unrelated = WindowHandle::new(300).map_err(|e| format!("{e:?}"))?;
    let layout = TabTooltipSyncLayoutKey::new(
        UiLanguage::English,
        0,
        UiRect::new(0, 0, 320, TAB_BAR_HEIGHT),
        2,
        0,
        2,
    );
    let mut key = TabTooltipSyncKey {
        layout,
        tabs: vec![
            TabTooltipSyncKeySpec::new(
                first_tab_id,
                first_rect,
                vec![first.raw(), renamed.raw()],
                vec![Some("First".to_owned()), Some("Before".to_owned())],
            ),
            TabTooltipSyncKeySpec::new(
                second_tab_id,
                second_rect,
                vec![unrelated.raw()],
                vec![Some("Unrelated".to_owned())],
            ),
        ],
    };

    let updates =
        key.tooltip_sync_specs_for_window_title_change(renamed.raw(), Some("After".to_owned()));

    assert_eq!(updates.len(), 1);
    assert_eq!(
        updates[0],
        TabTooltipUpdate {
            tab_id: first_tab_id,
            rect: first_rect,
            titles: titles(&["First", "After"]),
        }
    );

    let updates = key.tooltip_sync_specs_for_window_title_change(renamed.raw(), None);

    assert_eq!(updates.len(), 1);
    assert_eq!(
        updates[0],
        TabTooltipUpdate {
            tab_id: first_tab_id,
            rect: first_rect,
            titles: titles(&["First"]),
        }
    );

    Ok(())
}

#[test]
fn tab_tooltip_sync_key_lists_windows_in_tab_order() {
    let layout = TabTooltipSyncLayoutKey::new(
        UiLanguage::Korean,
        3,
        UiRect::new(0, 0, 320, TAB_BAR_HEIGHT),
        2,
        0,
        2,
    );
    let mut key = TabTooltipSyncKey::new(layout, 2);
    assert!(key.tabs.is_empty());
    key.tabs.push(TabTooltipSyncKeySpec::new(
        TabId::new(1),
        UiRect::new(0, 0, 10, 10),
        vec![5, 6],
        vec![None, Some("six".to_owned())],
    ));
    key.tabs.push(TabTooltipSyncKeySpec::new(
        TabId::new(2),
        UiRect::new(10, 0, 20, 10),
        vec![7],
        vec![None],
    ));
    assert_eq!(key.window_hwnds(), vec![5, 6, 7]);
    assert!(key.tooltip_sync_specs_for_window_title_change(99, None).is_empty());
}
