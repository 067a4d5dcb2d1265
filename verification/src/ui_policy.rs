use vstd::prelude::*;

use crate::geometry::{ClientPoint, TabId};
use crate::settings::WorkspaceOptions;
use crate::settings::UiLanguage;
use crate::text::{decimal_digits, decimal_string, push_decimal, push_str};
use crate::wide_text::{wide_null, wide_null_units};

verus! {

pub const CMD_TAB_ADD: u16 = 1001;
pub const CMD_SPLIT_VERTICAL: u16 = 1003;
pub const CMD_SPLIT_HORIZONTAL: u16 = 1004;
pub const CMD_REGION_DELETE: u16 = 1005;
pub const CMD_UNDOCK: u16 = 1006;
pub const CMD_WORKSPACE_UI_TOGGLE: u16 = 1007;
pub const CMD_ABOUT: u16 = 1008;
pub const CMD_TAB_RENAME_CONTEXT: u16 = 1009;
pub const CMD_TAB_CLOSE_CONTEXT: u16 = 1010;
pub const CMD_TAB_CLOSE_OTHER_CONTEXT: u16 = 1011;
pub const CMD_OPTIONS: u16 = 1015;
pub const CMD_DOCK_HIDDEN_WORKSPACE_UI_TOGGLE: u16 = 1016;
pub const CMD_WINDOW_MINIMIZE: u16 = 1018;
pub const CMD_WINDOW_MAXIMIZE_RESTORE: u16 = 1019;
pub const CMD_WINDOW_CLOSE: u16 = 1020;
pub const CMD_LANGUAGE_ENGLISH: u16 = 1022;
pub const CMD_LANGUAGE_KOREAN: u16 = 1023;
pub const CMD_TAB_PRESET_SAVE: u16 = 1024;
pub const CMD_TAB_PRESET_LOAD: u16 = 1025;
pub const CMD_TAB_PRESET_DELETE: u16 = 1026;
pub const CMD_TAB_PRESET_EDIT: u16 = 1027;
pub const CMD_TAB_OVERFLOW_BASE: u16 = 2000;
pub const CMD_TAB_OVERFLOW_END: u16 = 3000;
pub const CMD_TAB_PRESET_BASE: u16 = 3000;
pub const CMD_TAB_PRESET_END: u16 = 4000;
pub const CMD_TAB_PRESET_DELETE_BASE: u16 = 4000;
pub const CMD_TAB_PRESET_DELETE_END: u16 = 5000;
pub const CMD_TAB_PRESET_EDIT_BASE: u16 = 5000;
pub const CMD_TAB_PRESET_EDIT_END: u16 = 6000;

/// A press on a tab moves this far before it counts as a drag.
pub const TAB_DRAG_MOVE_THRESHOLD: i32 = 4;

/// The part of a tab a point hits.
#[derive(Debug, Clone, Copy, PartialEq, Eq, Structural)]
pub enum TabHitTarget {
    Body,
    CloseButton,
}

/// A tab and the part of it a point hits.
#[derive(Debug, Clone, Copy, PartialEq, Eq, Structural)]
pub struct TabHit {
    pub tab_id: TabId,
    pub target: TabHitTarget,
}

/// What a press on a tab body may turn into.
#[derive(Debug, Clone, Copy, PartialEq, Eq, Structural)]
pub enum PendingTabAction {
    ClickOrReorder,
    ClickOrWindowMove,
}

/// What a press on a tab does.
#[derive(Debug, Clone, Copy, PartialEq, Eq, Structural)]
pub enum TabPressAction {
    Pending(PendingTabAction),
    Close(TabId),
}

/// A press on a tab body that is not yet a click or a drag.
#[derive(Debug, Clone, Copy, PartialEq, Eq, Structural)]
pub struct PendingTabClick {
    pub tab_id: TabId,
    pub point: ClientPoint,
    pub action: PendingTabAction,
}

/// What a pointer move during a pending tab press starts.
#[derive(Debug, Clone, Copy, PartialEq, Eq, Structural)]
pub enum PendingTabMoveOutcome {
    ContinueClick,
    StartReorder(TabId),
    StartWindowMove,
}

/// An action of the tab context menu.
#[derive(Debug, Clone, Copy, PartialEq, Eq, Structural)]
pub enum TabContextAction {
    Rename,
    Close,
    CloseOther,
}

pub open spec fn abs_diff(a: i32, b: i32) -> int {
    if a >= b {
        a - b
    } else {
        b - a
    }
}

pub open spec fn exceeds_move_threshold(start: ClientPoint, current: ClientPoint) -> bool {
    abs_diff(current.x, start.x) >= TAB_DRAG_MOVE_THRESHOLD || abs_diff(current.y, start.y)
        >= TAB_DRAG_MOVE_THRESHOLD
}

/// A pointer has moved far enough from where a tab was pressed to drag it.
pub fn tab_drag_exceeds_move_threshold(start: ClientPoint, current: ClientPoint) -> (b: bool)
    ensures
        b == exceeds_move_threshold(start, current),
{
    let dx: i64 = current.x as i64 - start.x as i64;
    let dy: i64 = current.y as i64 - start.y as i64;
    let adx: i64 = if dx < 0 { -dx } else { dx };
    let ady: i64 = if dy < 0 { -dy } else { dy };
    adx >= TAB_DRAG_MOVE_THRESHOLD as i64 || ady >= TAB_DRAG_MOVE_THRESHOLD as i64
}

/// With the workspace controls shown a tab drag reorders tabs; hidden, it
/// moves the window.
pub fn pending_tab_action_for_workspace_ui(workspace_ui_visible: bool) -> (a: PendingTabAction)
    ensures
        a == (if workspace_ui_visible {
            PendingTabAction::ClickOrReorder
        } else {
            PendingTabAction::ClickOrWindowMove
        }),
{
    if workspace_ui_visible {
        PendingTabAction::ClickOrReorder
    } else {
        PendingTabAction::ClickOrWindowMove
    }
}

/// A press on a close button closes the tab; on a body it waits for a
/// click or a drag.
pub fn tab_press_action_from_hit(hit: TabHit, workspace_ui_visible: bool) -> (a: TabPressAction)
    ensures
        a == (match hit.target {
            TabHitTarget::Body => TabPressAction::Pending(
                if workspace_ui_visible {
                    PendingTabAction::ClickOrReorder
                } else {
                    PendingTabAction::ClickOrWindowMove
                },
            ),
            TabHitTarget::CloseButton => TabPressAction::Close(hit.tab_id),
        }),
{
    match hit.target {
        TabHitTarget::Body => TabPressAction::Pending(
            pending_tab_action_for_workspace_ui(workspace_ui_visible),
        ),
        TabHitTarget::CloseButton => TabPressAction::Close(hit.tab_id),
    }
}

/// A short move keeps the click; past the threshold the press starts a
/// reorder or a window move, as the press decided.
pub fn pending_tab_move_outcome(pending: PendingTabClick, current: ClientPoint) -> (o:
    PendingTabMoveOutcome)
    ensures
        o == (if !exceeds_move_threshold(pending.point, current) {
            PendingTabMoveOutcome::ContinueClick
        } else {
            match pending.action {
                PendingTabAction::ClickOrReorder => PendingTabMoveOutcome::StartReorder(
                    pending.tab_id,
                ),
                PendingTabAction::ClickOrWindowMove => PendingTabMoveOutcome::StartWindowMove,
            }
        }),
{
    if !tab_drag_exceeds_move_threshold(pending.point, current) {
        return PendingTabMoveOutcome::ContinueClick;
    }
    match pending.action {
        PendingTabAction::ClickOrReorder => PendingTabMoveOutcome::StartReorder(pending.tab_id),
        PendingTabAction::ClickOrWindowMove => PendingTabMoveOutcome::StartWindowMove,
    }
}

/// A click switches to a tab only when released over the body of the tab
/// that was pressed.
pub fn pending_tab_release_switch_target(
    pending: PendingTabClick,
    released_body_tab: Option<TabId>,
) -> (t: Option<TabId>)
    ensures
        t == (match released_body_tab {
            Some(id) => if id == pending.tab_id {
                Some(id)
            } else {
                None
            },
            None => None,
        }),
{
    match released_body_tab {
        Some(id) => if id == pending.tab_id {
            Some(id)
        } else {
            None
        },
        None => None,
    }
}

/// The tab whose body a hit is on.
pub fn tab_body_target_from_hit(hit: Option<TabHit>) -> (t: Option<TabId>)
    ensures
        t == (match hit {
            Some(h) => if h.target == TabHitTarget::Body {
                Some(h.tab_id)
            } else {
                None
            },
            None => None,
        }),
{
    match hit {
        Some(hit) => match hit.target {
            TabHitTarget::Body => Some(hit.tab_id),
            TabHitTarget::CloseButton => None,
        },
        None => None,
    }
}

/// The tab a context menu acts on: the tab hit, body or close button.
pub fn tab_context_target_from_hit(hit: Option<TabHit>) -> (t: Option<TabId>)
    ensures
        t == (match hit {
            Some(h) => Some(h.tab_id),
            None => None,
        }),
{
    match hit {
        Some(hit) => Some(hit.tab_id),
        None => None,
    }
}

/// The context-menu action of a command id.
pub fn tab_context_action_from_command(command_id: u16) -> (a: Option<TabContextAction>)
    ensures
        a == (if command_id == CMD_TAB_RENAME_CONTEXT {
            Some(TabContextAction::Rename)
        } else if command_id == CMD_TAB_CLOSE_CONTEXT {
            Some(TabContextAction::Close)
        } else if command_id == CMD_TAB_CLOSE_OTHER_CONTEXT {
            Some(TabContextAction::CloseOther)
        } else {
            None
        }),
{
    if command_id == CMD_TAB_RENAME_CONTEXT {
        Some(TabContextAction::Rename)
    } else if command_id == CMD_TAB_CLOSE_CONTEXT {
        Some(TabContextAction::Close)
    } else if command_id == CMD_TAB_CLOSE_OTHER_CONTEXT {
        Some(TabContextAction::CloseOther)
    } else {
        None
    }
}

impl TabContextAction {
    /// The name of the action in traces.
    pub fn trace_name(self) -> (n: &'static str)
        ensures
            n@ == (match self {
                TabContextAction::Rename => "rename"@,
                TabContextAction::Close => "close"@,
                TabContextAction::CloseOther => "close-other"@,
            }),
    {
        match self {
            TabContextAction::Rename => "rename",
            TabContextAction::Close => "close",
            TabContextAction::CloseOther => "close-other",
        }
    }
}

/// The command a popup menu returned: none when it was dismissed (0) or
/// its owner window handle is null, or when the value is not a command id.
pub fn popup_selected_command(selected: i32, hwnd: isize) -> (c: Option<u16>)
    ensures
        c == (if selected == 0 || hwnd == 0 || selected < 0 || selected > u16::MAX {
            None
        } else {
            Some(selected as u16)
        }),
{
    if selected == 0 || hwnd == 0 {
        return None;
    }
    if selected < 0 || selected > u16::MAX as i32 {
        return None;
    }
    Some(selected as u16)
}

/// The `index`-th command id of the range `[base, end)`.
pub fn command_for_index(base: u16, end: u16, index: usize) -> (c: Option<u16>)
    ensures
        c == (if index <= u16::MAX && base + index <= u16::MAX && base + index < end {
            Some((base + index) as u16)
        } else {
            None
        }),
{
    if index > u16::MAX as usize {
        return None;
    }
    let offset = index as u16;
    if base as u32 + offset as u32 > u16::MAX as u32 {
        return None;
    }
    let command = base + offset;
    if command < end {
        Some(command)
    } else {
        None
    }
}

/// The index of a command id within the range `[base, end)`.
pub fn command_index_from_range(command_id: u16, base: u16, end: u16) -> (i: Option<usize>)
    ensures
        i == (if base <= command_id && command_id < end {
            Some((command_id - base) as usize)
        } else {
            None
        }),
{
    if base <= command_id && command_id < end {
        Some((command_id - base) as usize)
    } else {
        None
    }
}

/// The command id that selects the `index`-th hidden tab.
pub fn tab_overflow_command_for_index(index: usize) -> (c: Option<u16>)
    ensures
        c == (if index < CMD_TAB_OVERFLOW_END - CMD_TAB_OVERFLOW_BASE {
            Some((CMD_TAB_OVERFLOW_BASE + index) as u16)
        } else {
            None
        }),
{
    command_for_index(CMD_TAB_OVERFLOW_BASE, CMD_TAB_OVERFLOW_END, index)
}

/// Mapping an index to a command and back gives the index again.
pub proof fn lemma_command_index_round_trip(base: u16, end: u16, index: usize)
    requires
        index <= u16::MAX,
        base + index < end,
    ensures
        ({
            let c = (base + index) as u16;
            &&& base <= c < end
            &&& (c - base) as usize == index
        }),
{
}

/// The tabs "close other tabs" closes, in order: every tab but the target;
/// none when the target is not among the tabs.
pub fn close_other_tab_targets(tab_ids: &[TabId], target_tab_id: TabId) -> (r: Option<Vec<TabId>>)
    ensures
        tab_ids@.contains(target_tab_id) ==> (r matches Some(v) && v@ == tab_ids@.filter(
            |t: TabId| t != target_tab_id,
        )),
        !tab_ids@.contains(target_tab_id) ==> r is None,
{
    let mut found_target = false;
    let mut targets: Vec<TabId> = Vec::new();
    let mut k: usize = 0;
    while k < tab_ids.len()
        invariant
            k <= tab_ids@.len(),
            found_target == tab_ids@.subrange(0, k as int).contains(target_tab_id),
            targets@ == tab_ids@.subrange(0, k as int).filter(|t: TabId| t != target_tab_id),
        decreases tab_ids@.len() - k,
    {
        let tab_id = tab_ids[k];
        proof {
            let prefix = tab_ids@.subrange(0, k as int);
            assert(tab_ids@.subrange(0, k + 1 as int) =~= prefix.push(tab_id));
            vstd::seq_lib::lemma_seq_contains_after_push(prefix, tab_id, target_tab_id);
            prefix.lemma_filter_push(tab_id, |t: TabId| t != target_tab_id);
        }
        if tab_id == target_tab_id {
            found_target = true;
        } else {
            targets.push(tab_id);
        }
        k += 1;
    }
    assert(tab_ids@.subrange(0, tab_ids@.len() as int) =~= tab_ids@);
    if found_target {
        Some(targets)
    } else {
        None
    }
}

/// The number shown for the next new tab: the next tab id, capped at
/// `u32::MAX`.
pub fn next_tab_number(next_tab_id: u64) -> (n: u32)
    ensures
        n == (if next_tab_id <= u32::MAX {
            next_tab_id as u32
        } else {
            u32::MAX
        }),
{
    if next_tab_id <= u32::MAX as u64 {
        next_tab_id as u32
    } else {
        u32::MAX
    }
}

/// The default name of a new tab preset: `Tab Preset {n}` where `n` is one
/// more than the number of presets (saturating).
pub fn next_tab_preset_name(existing_count: usize) -> (name: String)
    ensures
        name@ == "Tab Preset "@ + decimal_digits(
            (if existing_count == usize::MAX {
                existing_count
            } else {
                (existing_count + 1) as usize
            }) as nat,
        ),
{
    let next = existing_count.saturating_add(1);
    let mut name = String::new();
    push_str(&mut name, "Tab Preset ");
    push_decimal(&mut name, next as u64);
    name
}

/// A tab id in traces, or `end` for none.
pub fn optional_tab_id_trace_text(tab_id: Option<TabId>) -> (t: String)
    ensures
        t@ == (match tab_id {
            Some(id) => decimal_digits(id.id as nat),
            None => "end"@,
        }),
{
    match tab_id {
        Some(tab_id) => decimal_string(tab_id.value()),
        None => "end".to_owned(),
    }
}

/// The native main menu is shown exactly when the workspace controls are.
pub fn main_menu_visible_for_workspace_ui(workspace_ui_visible: bool) -> (b: bool)
    ensures
        b == workspace_ui_visible,
{
    workspace_ui_visible
}

/// After a resize the main menu is rebuilt when it is shown and the
/// maximized state differs from the one it was built for.
pub fn main_menu_needs_refresh_after_size(
    workspace_ui_visible: bool,
    cached_maximized: Option<bool>,
    current_maximized: bool,
) -> (b: bool)
    ensures
        b == (workspace_ui_visible && cached_maximized != Some(current_maximized)),
{
    main_menu_visible_for_workspace_ui(workspace_ui_visible) && match cached_maximized {
        Some(cached) => cached != current_maximized,
        None => true,
    }
}

/// Drops are tested against the workspace layout when the controls are
/// shown, or when docking with hidden controls is enabled.
pub fn drop_uses_workspace_hit_test(
    workspace_ui_visible: bool,
    workspace_options: WorkspaceOptions,
) -> (b: bool)
    ensures
        b == (workspace_ui_visible || workspace_options.dock_hidden_workspace_ui),
{
    workspace_ui_visible || workspace_options.dock_hidden_workspace_ui()
}

/// The splitter overlay can be used when the controls are shown, or when
/// docking with hidden controls is enabled.
pub fn splitter_overlay_workspace_enabled(
    workspace_ui_visible: bool,
    dock_hidden_workspace_ui: bool,
) -> (b: bool)
    ensures
        b == (workspace_ui_visible || dock_hidden_workspace_ui),
{
    workspace_ui_visible || dock_hidden_workspace_ui
}

/// The splitter overlay shows while Ctrl is held over an enabled,
/// non-minimized workspace that is not being dragged.
pub fn splitter_overlay_should_show(
    workspace_ui_visible: bool,
    dock_hidden_workspace_ui: bool,
    is_minimized: bool,
    pointer_drag_active: bool,
    ctrl_down: bool,
) -> (b: bool)
    ensures
        b == ((workspace_ui_visible || dock_hidden_workspace_ui) && !is_minimized
            && !pointer_drag_active && ctrl_down),
{
    splitter_overlay_workspace_enabled(workspace_ui_visible, dock_hidden_workspace_ui)
        && !is_minimized && !pointer_drag_active && ctrl_down
}

/// A pending change of the workspace-controls visibility.
#[derive(Debug, Clone, Copy, PartialEq, Eq, Structural)]
pub struct WorkspaceUiVisibilityTransition {
    pub previous_visible: bool,
    pub desired_visible: bool,
}

impl WorkspaceUiVisibilityTransition {
    pub fn from_current(current_visible: bool) -> (t: Self)
        ensures
            t.previous_visible == current_visible,
            t.desired_visible == !current_visible,
    {
        WorkspaceUiVisibilityTransition {
            previous_visible: current_visible,
            desired_visible: !current_visible,
        }
    }
}

/// Visibility of the workspace controls: the committed state and, while
/// the window chrome is being changed, the pending toggle.
#[derive(Debug, Clone, Copy, PartialEq, Eq, Structural)]
pub struct WorkspaceUiVisibility {
    pub committed_visible: bool,
    pub transition: Option<WorkspaceUiVisibilityTransition>,
}

/// The transition that toggles a committed visibility.
pub open spec fn transition_from(current_visible: bool) -> WorkspaceUiVisibilityTransition {
    WorkspaceUiVisibilityTransition { previous_visible: current_visible, desired_visible: !current_visible }
}

/// The visibility while a toggle of `v` is under way.
pub open spec fn toggling(v: WorkspaceUiVisibility) -> WorkspaceUiVisibility {
    WorkspaceUiVisibility {
        committed_visible: v.committed_visible,
        transition: Some(transition_from(v.committed_visible)),
    }
}

/// The visibility once a transition is committed.
pub open spec fn committed_to(t: WorkspaceUiVisibilityTransition) -> WorkspaceUiVisibility {
    WorkspaceUiVisibility { committed_visible: t.desired_visible, transition: None }
}

/// The visibility once a transition is rolled back.
pub open spec fn rolled_back_from(t: WorkspaceUiVisibilityTransition) -> WorkspaceUiVisibility {
    WorkspaceUiVisibility { committed_visible: t.previous_visible, transition: None }
}

/// The visibility layout and menus follow.
pub open spec fn effective(v: WorkspaceUiVisibility) -> bool {
    match v.transition {
        Some(t) => t.desired_visible,
        None => v.committed_visible,
    }
}

impl WorkspaceUiVisibility {
    pub fn new(visible: bool) -> (v: Self)
        ensures
            v.committed_visible == visible,
            v.transition is None,
    {
        WorkspaceUiVisibility { committed_visible: visible, transition: None }
    }

    /// The visibility layout and menus follow: the pending target during a
    /// toggle, else the committed state.
    pub fn effective_visible(self) -> (b: bool)
        ensures
            b == effective(self),
    {
        match self.transition {
            Some(transition) => transition.desired_visible,
            None => self.committed_visible,
        }
    }

    pub fn committed_visible(self) -> (b: bool)
        ensures
            b == self.committed_visible,
    {
        self.committed_visible
    }

    /// Starts toggling the committed visibility.
    pub fn begin_toggle(&mut self) -> (t: WorkspaceUiVisibilityTransition)
        ensures
            t == transition_from(old(self).committed_visible),
            *final(self) == toggling(*old(self)),
    {
        let transition = WorkspaceUiVisibilityTransition::from_current(self.committed_visible);
        self.transition = Some(transition);
        transition
    }

    /// Completes a toggle.
    pub fn commit(&mut self, transition: WorkspaceUiVisibilityTransition)
        ensures
            *final(self) == committed_to(transition),
    {
        self.committed_visible = transition.desired_visible;
        self.transition = None;
    }

    /// Abandons a toggle.
    pub fn rollback(&mut self, transition: WorkspaceUiVisibilityTransition)
        ensures
            *final(self) == rolled_back_from(transition),
    {
        self.committed_visible = transition.previous_visible;
        self.transition = None;
    }
}

/// A toggle shows its target while under way; rolled back, it leaves a
/// settled visibility as it was; committed, it flips it.
pub proof fn lemma_toggle_commit_rollback(v: WorkspaceUiVisibility)
    requires
        v.transition is None,
    ensures
        effective(toggling(v)) == !effective(v),
        toggling(v).committed_visible == v.committed_visible,
        rolled_back_from(transition_from(v.committed_visible)) == v,
        committed_to(transition_from(v.committed_visible)).committed_visible == !v.committed_visible,
        effective(committed_to(transition_from(v.committed_visible))) == effective(toggling(v)),
{
}

/// Minimized state of the main window, and whether the active tab still
/// has to be shown again after a restore.
#[derive(Debug, Clone, Copy, PartialEq, Eq, Structural)]
pub struct MainWindowFrameState {
    pub is_minimized: bool,
    pub active_tab_show_pending: bool,
    pub main_menu_maximized: Option<bool>,
}

/// The frame state after a minimize.
pub open spec fn minimized(s: MainWindowFrameState) -> MainWindowFrameState {
    if s.is_minimized {
        s
    } else {
        MainWindowFrameState { is_minimized: true, active_tab_show_pending: true, ..s }
    }
}

/// The frame state after a restore or a resize.
pub open spec fn restored(s: MainWindowFrameState) -> MainWindowFrameState {
    MainWindowFrameState {
        is_minimized: false,
        active_tab_show_pending: s.active_tab_show_pending || s.is_minimized,
        ..s
    }
}

impl MainWindowFrameState {
    pub fn new() -> (s: Self)
        ensures
            !s.is_minimized,
            !s.active_tab_show_pending,
            s.main_menu_maximized is None,
    {
        MainWindowFrameState {
            is_minimized: false,
            active_tab_show_pending: false,
            main_menu_maximized: None,
        }
    }

    pub fn is_minimized(&self) -> (b: bool)
        ensures
            b == self.is_minimized,
    {
        self.is_minimized
    }

    /// Records a minimize; false when the window was already minimized.
    pub fn mark_minimized(&mut self) -> (changed: bool)
        ensures
            changed == !old(self).is_minimized,
            *final(self) == minimized(*old(self)),
    {
        if self.is_minimized {
            return false;
        }
        self.is_minimized = true;
        self.active_tab_show_pending = true;
        true
    }

    /// Records a restore or resize; leaving the minimized state makes the
    /// active tab pending to be shown.
    pub fn mark_restored_or_resized(&mut self)
        ensures
            *final(self) == restored(*old(self)),
    {
        let was_minimized = self.is_minimized;
        self.is_minimized = false;
        if was_minimized {
            self.active_tab_show_pending = true;
        }
    }

    pub fn active_tab_show_pending(&self) -> (b: bool)
        ensures
            b == self.active_tab_show_pending,
    {
        self.active_tab_show_pending
    }

    pub fn complete_active_tab_show(&mut self)
        ensures
            *final(self) == (MainWindowFrameState { active_tab_show_pending: false, ..*old(self) }),
    {
        self.active_tab_show_pending = false;
    }

    /// The active tab's windows are hidden while minimized or before they
    /// are shown again.
    pub fn active_tab_hidden_for_shutdown(&self) -> (b: bool)
        ensures
            b == (self.is_minimized || self.active_tab_show_pending),
    {
        self.is_minimized || self.active_tab_show_pending
    }

    pub fn main_menu_maximized(&self) -> (m: Option<bool>)
        ensures
            m == self.main_menu_maximized,
    {
        self.main_menu_maximized
    }

    pub fn clear_main_menu_size_cache(&mut self)
        ensures
            *final(self) == (MainWindowFrameState { main_menu_maximized: None, ..*old(self) }),
    {
        self.main_menu_maximized = None;
    }

    pub fn cache_main_menu_size(&mut self, is_maximized: bool)
        ensures
            *final(self) == (MainWindowFrameState {
                main_menu_maximized: Some(is_maximized),
                ..*old(self)
            }),
    {
        self.main_menu_maximized = Some(is_maximized);
    }
}

/// After a minimize the active tab counts as hidden; a restore that
/// follows leaves the window shown with the active tab still to be shown,
/// and only completing that show clears it.
pub proof fn lemma_minimize_restore_shows_active_tab(s: MainWindowFrameState)
    ensures
        minimized(s).is_minimized,
        !restored(minimized(s)).is_minimized,
        restored(minimized(s)).active_tab_show_pending,
        restored(minimized(s)).main_menu_maximized == s.main_menu_maximized,
        !s.is_minimized ==> minimized(s).active_tab_show_pending,
{
}

/// The step a text-input dialog cleanup runs.
#[derive(Debug, Clone, Copy, PartialEq, Eq, Structural)]
pub enum DialogCleanupStep {
    DestroyDialog,
    EnableOwner,
    FocusOwner,
}

impl DialogCleanupStep {
    pub fn trace_name(self) -> (n: &'static str)
        ensures
            n@ == (match self {
                DialogCleanupStep::DestroyDialog => "destroy"@,
                DialogCleanupStep::EnableOwner => "enable"@,
                DialogCleanupStep::FocusOwner => "focus"@,
            }),
    {
        match self {
            DialogCleanupStep::DestroyDialog => "destroy",
            DialogCleanupStep::EnableOwner => "enable",
            DialogCleanupStep::FocusOwner => "focus",
        }
    }
}

/// The steps that close a text-input dialog: destroy it when it is still
/// alive, then re-enable and focus its owner.
pub fn cleanup_text_input_dialog_steps(dialog_alive: bool) -> (steps: Vec<DialogCleanupStep>)
    ensures
        dialog_alive ==> steps@ == seq![
            DialogCleanupStep::DestroyDialog,
            DialogCleanupStep::EnableOwner,
            DialogCleanupStep::FocusOwner,
        ],
        !dialog_alive ==> steps@ == seq![
            DialogCleanupStep::EnableOwner,
            DialogCleanupStep::FocusOwner,
        ],
{
    let mut steps: Vec<DialogCleanupStep> = Vec::new();
    if dialog_alive {
        steps.push(DialogCleanupStep::DestroyDialog);
    }
    steps.push(DialogCleanupStep::EnableOwner);
    steps.push(DialogCleanupStep::FocusOwner);
    assert(steps@ =~= (if dialog_alive {
        seq![
            DialogCleanupStep::DestroyDialog,
            DialogCleanupStep::EnableOwner,
            DialogCleanupStep::FocusOwner,
        ]
    } else {
        seq![DialogCleanupStep::EnableOwner, DialogCleanupStep::FocusOwner]
    }));
    steps
}

/// Where the about dialog links to.
pub const ABOUT_LINK_URL: &'static str = "https://github.com/edgarp9";

pub open spec fn about_link_markup() -> Seq<char> {
    "<a href=\""@ + ABOUT_LINK_URL@ + "\">"@ + ABOUT_LINK_URL@ + "</a>"@
}

/// The link of the about dialog, as link-control markup.
pub fn about_dialog_link_markup() -> (m: String)
    ensures
        m@ == about_link_markup(),
{
    let mut markup = String::new();
    push_str(&mut markup, "<a href=\"");
    push_str(&mut markup, ABOUT_LINK_URL);
    push_str(&mut markup, "\">");
    push_str(&mut markup, ABOUT_LINK_URL);
    push_str(&mut markup, "</a>");
    markup
}

/// `ShellExecuteW` reports success with a value above 32.
pub fn shell_execute_succeeded(result: usize) -> (b: bool)
    ensures
        b == (result > 32),
{
    result > 32
}

pub open spec fn about_version_text(package_version: Seq<char>) -> Seq<char> {
    "j3GridDocker "@ + package_version
}

/// The texts the about dialog shows, ready for the window system.
#[derive(Debug, Clone, PartialEq, Eq)]
pub struct AboutDialogState {
    pub language: UiLanguage,
    pub version: Vec<u16>,
    pub link_markup: Vec<u16>,
    pub ok_label: Vec<u16>,
    pub done: bool,
}

impl AboutDialogState {
    /// The about dialog of the given package version.
    pub fn new(language: UiLanguage, package_version: &str) -> (s: Self)
        ensures
            s.language == language,
            s.version@ == wide_null_units(about_version_text(package_version@)),
            s.link_markup@ == wide_null_units(about_link_markup()),
            s.ok_label@ == wide_null_units(
                match language {
                    UiLanguage::English => "OK"@,
                    UiLanguage::Korean => "확인"@,
                },
            ),
            !s.done,
    {
        let mut version_text = String::new();
        push_str(&mut version_text, "j3GridDocker ");
        push_str(&mut version_text, package_version);
        let markup = about_dialog_link_markup();
        let ok = match language {
            UiLanguage::English => "OK",
            UiLanguage::Korean => "확인",
        };
        AboutDialogState {
            language,
            version: wide_null(version_text.as_str()),
            link_markup: wide_null(markup.as_str()),
            ok_label: wide_null(ok),
            done: false,
        }
    }
}

} // verus!
