use vstd::prelude::*;

use crate::geometry::TabId;
use crate::ui_policy::{tab_press_action_from_hit, PendingTabAction, TabHit, TabHitTarget, TabPressAction};

verus! {

/// What a left-button press in the main window's client area does.
#[derive(Debug, Clone, Copy, PartialEq, Eq, Structural)]
pub enum LeftButtonAction {
    /// A toolbar button was pressed.
    ExecuteCommand(u16),
    /// The tab overflow dropdown was pressed.
    ShowTabOverflowMenu,
    /// A tab body was pressed: wait for a click or a drag.
    BeginPendingTabClick(TabId, PendingTabAction),
    /// A tab's close button was pressed.
    CloseTab(TabId),
    /// The tab bar was pressed while the workspace controls are hidden.
    BeginWindowMove,
    /// The workspace body was pressed: a splitter drag or a region pick.
    WorkspaceBody,
    /// Nothing to do.
    Ignore,
}

/// The action of a left-button press, from what the point hits: a toolbar
/// button, the overflow dropdown, a tab, then the tab bar or the
/// workspace body depending on whether the workspace controls are shown.
pub fn left_button_down_action(
    button_command: Option<u16>,
    overflow_dropdown_hit: bool,
    tab_hit: Option<TabHit>,
    workspace_ui_visible: bool,
    on_tab_bar: bool,
) -> (a: LeftButtonAction)
    ensures
        a == (match button_command {
            Some(command) => LeftButtonAction::ExecuteCommand(command),
            None => if overflow_dropdown_hit {
                LeftButtonAction::ShowTabOverflowMenu
            } else {
                match tab_hit {
                    Some(hit) => match hit.target {
                        TabHitTarget::CloseButton => LeftButtonAction::CloseTab(hit.tab_id),
                        TabHitTarget::Body => LeftButtonAction::BeginPendingTabClick(
                            hit.tab_id,
                            if workspace_ui_visible {
                                PendingTabAction::ClickOrReorder
                            } else {
                                PendingTabAction::ClickOrWindowMove
                            },
                        ),
                    },
                    None => if workspace_ui_visible {
                        LeftButtonAction::WorkspaceBody
                    } else if on_tab_bar {
                        LeftButtonAction::BeginWindowMove
                    } else {
                        LeftButtonAction::Ignore
                    },
                }
            },
        }),
{
    if let Some(command) = button_command {
        return LeftButtonAction::ExecuteCommand(command);
    }
    if overflow_dropdown_hit {
        return LeftButtonAction::ShowTabOverflowMenu;
    }
    if let Some(hit) = tab_hit {
        return match tab_press_action_from_hit(hit, workspace_ui_visible) {
            TabPressAction::Pending(action) => LeftButtonAction::BeginPendingTabClick(
                hit.tab_id,
                action,
            ),
            TabPressAction::Close(tab_id) => LeftButtonAction::CloseTab(tab_id),
        };
    }
    if !workspace_ui_visible {
        if on_tab_bar {
            return LeftButtonAction::BeginWindowMove;
        }
        return LeftButtonAction::Ignore;
    }
    LeftButtonAction::WorkspaceBody
}

/// The menu a right-button release opens.
#[derive(Debug, Clone, Copy, PartialEq, Eq, Structural)]
pub enum RightButtonMenu {
    Options,
    TabContext(TabId),
    TabBlank,
    /// The menu of the region under the point, if there is one.
    Region,
    NoMenu,
}

/// The menu of a right-button release, from what the point hits: the
/// toolbar toggle, a tab, the empty part of the tab strip, else (with the
/// workspace controls shown) the workspace body.
pub fn right_button_up_menu(
    on_toolbar_toggle: bool,
    context_tab: Option<TabId>,
    on_empty_tab_strip: bool,
    workspace_ui_visible: bool,
) -> (m: RightButtonMenu)
    ensures
        m == (if on_toolbar_toggle {
            RightButtonMenu::Options
        } else {
            match context_tab {
                Some(tab_id) => RightButtonMenu::TabContext(tab_id),
                None => if on_empty_tab_strip {
                    RightButtonMenu::TabBlank
                } else if workspace_ui_visible {
                    RightButtonMenu::Region
                } else {
                    RightButtonMenu::NoMenu
                },
            }
        }),
{
    if on_toolbar_toggle {
        return RightButtonMenu::Options;
    }
    if let Some(tab_id) = context_tab {
        return RightButtonMenu::TabContext(tab_id);
    }
    if on_empty_tab_strip {
        return RightButtonMenu::TabBlank;
    }
    if workspace_ui_visible {
        RightButtonMenu::Region
    } else {
        RightButtonMenu::NoMenu
    }
}

/// The status shown when the screen position of a menu cannot be computed.
pub fn menu_position_failure_text(menu: RightButtonMenu) -> (t: Option<&'static str>)
    ensures
        t matches Some(s) ==> s@ == (match menu {
            RightButtonMenu::Options => "옵션 메뉴 위치를 계산할 수 없습니다."@,
            RightButtonMenu::TabContext(_) => "탭 메뉴 위치를 계산할 수 없습니다."@,
            _ => "탭바 메뉴 위치를 계산할 수 없습니다."@,
        }),
        t is Some <==> (menu matches RightButtonMenu::Options || menu matches RightButtonMenu::TabContext(_)
            || menu matches RightButtonMenu::TabBlank),
{
    match menu {
        RightButtonMenu::Options => Some("옵션 메뉴 위치를 계산할 수 없습니다."),
        RightButtonMenu::TabContext(_) => Some("탭 메뉴 위치를 계산할 수 없습니다."),
        RightButtonMenu::TabBlank => Some("탭바 메뉴 위치를 계산할 수 없습니다."),
        _ => None,
    }
}

} // verus!
