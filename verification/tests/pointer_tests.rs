use j3grid_docker::geometry::TabId;
use j3grid_docker::pointer::{
    left_button_down_action, menu_position_failure_text, right_button_up_menu, LeftButtonAction,
    RightButtonMenu,
};
use j3grid_docker::ui_policy::{PendingTabAction, TabHit, TabHitTarget, CMD_SPLIT_VERTICAL};

#[test]
fn left_press_prefers_buttons_then_overflow_then_tabs() {
    let body = TabHit { tab_id: TabId::new(4), target: TabHitTarget::Body };
    let close = TabHit { tab_id: TabId::new(4), target: TabHitTarget::CloseButton };
    assert_eq!(
        left_button_down_action(Some(CMD_SPLIT_VERTICAL), true, Some(body), true, true),
        LeftButtonAction::ExecuteCommand(CMD_SPLIT_VERTICAL)
    );
    assert_eq!(
        left_button_down_action(None, true, Some(body), true, true),
        LeftButtonAction::ShowTabOverflowMenu
    );
    assert_eq!(
        left_button_down_action(None, false, Some(body), true, true),
        LeftButtonAction::BeginPendingTabClick(TabId::new(4), PendingTabAction::ClickOrReorder)
    );
    assert_eq!(
        left_button_down_action(None, false, Some(body), false, true),
        LeftButtonAction::BeginPendingTabClick(TabId::new(4), PendingTabAction::ClickOrWindowMove)
    );
    assert_eq!(
        left_button_down_action(None, false, Some(close), false, true),
        LeftButtonAction::CloseTab(TabId::new(4))
    );
}

#[test]
fn left_press_outside_tabs_depends_on_workspace_controls() {
    assert_eq!(left_button_down_action(None, false, None, true, true), LeftButtonAction::WorkspaceBody);
    assert_eq!(left_button_down_action(None, false, None, false, true), LeftButtonAction::BeginWindowMove);
    assert_eq!(left_button_down_action(None, false, None, false, false), LeftButtonAction::Ignore);
}

#[test]
fn right_release_picks_menu_by_hit() {
    assert_eq!(right_button_up_menu(true, Some(TabId::new(1)), true, true), RightButtonMenu::Options);
    assert_eq!(
        right_button_up_menu(false, Some(TabId::new(1)), true, true),
        RightButtonMenu::TabContext(TabId::new(1))
    );
    assert_eq!(right_button_up_menu(false, None, true, false), RightButtonMenu::TabBlank);
    assert_eq!(right_button_up_menu(false, None, false, true), RightButtonMenu::Region);
    assert_eq!(right_button_up_menu(false, None, false, false), RightButtonMenu::NoMenu);
}

#[test]
fn menu_position_failures_name_the_menu() {
    assert_eq!(menu_position_failure_text(RightButtonMenu::Options), Some("옵션 메뉴 위치를 계산할 수 없습니다."));
    assert_eq!(
        menu_position_failure_text(RightButtonMenu::TabContext(TabId::new(2))),
        Some("탭 메뉴 위치를 계산할 수 없습니다.")
    );
    assert_eq!(menu_position_failure_text(RightButtonMenu::TabBlank), Some("탭바 메뉴 위치를 계산할 수 없습니다."));
    assert_eq!(menu_position_failure_text(RightButtonMenu::Region), None);
}
