use vstd::prelude::*;

use crate::settings::UiLanguage;
use crate::ui_policy::{
    command_index_from_range, tab_context_action_from_command, TabContextAction, CMD_ABOUT,
    CMD_DOCK_HIDDEN_WORKSPACE_UI_TOGGLE, CMD_LANGUAGE_ENGLISH, CMD_LANGUAGE_KOREAN, CMD_OPTIONS,
    CMD_REGION_DELETE, CMD_SPLIT_HORIZONTAL, CMD_SPLIT_VERTICAL, CMD_TAB_ADD,
    CMD_TAB_CLOSE_CONTEXT, CMD_TAB_CLOSE_OTHER_CONTEXT, CMD_TAB_OVERFLOW_BASE,
    CMD_TAB_OVERFLOW_END, CMD_TAB_PRESET_BASE,
    CMD_TAB_PRESET_DELETE, CMD_TAB_PRESET_DELETE_BASE, CMD_TAB_PRESET_DELETE_END,
    CMD_TAB_PRESET_EDIT, CMD_TAB_PRESET_EDIT_BASE, CMD_TAB_PRESET_EDIT_END, CMD_TAB_PRESET_END,
    CMD_TAB_PRESET_LOAD, CMD_TAB_PRESET_SAVE, CMD_TAB_RENAME_CONTEXT, CMD_UNDOCK,
    CMD_WINDOW_CLOSE, CMD_WINDOW_MAXIMIZE_RESTORE, CMD_WINDOW_MINIMIZE, CMD_WORKSPACE_UI_TOGGLE,
};

verus! {

/// How a region is split in two.
#[derive(Debug, Clone, Copy, PartialEq, Eq, Structural)]
pub enum SplitDirection {
    Vertical,
    Horizontal,
}

/// What a menu or toolbar command asks the main window to do.
#[derive(Debug, Clone, PartialEq, Eq)]
pub enum MainCommand {
    ApplyTabPreset(String),
    DeleteTabPreset(String),
    EditTabPreset(String),
    AddTab,
    SplitActiveRegion(SplitDirection),
    DeleteActiveRegion,
    UndockActiveRegion,
    ToggleWorkspaceUi,
    SaveActiveTabPreset,
    ShowTabPresetMenu,
    ShowEditTabPresetMenu,
    ShowDeleteTabPresetMenu,
    ShowOptionsMenu,
    ToggleDockHiddenWorkspaceUi,
    SetUiLanguage(UiLanguage),
    MinimizeWindow,
    ToggleWindowMaximizeRestore,
    CloseWindow,
    ShowAboutDialog,
    TabContext(TabContextAction),
}

/// The preset named by a command of the range `[base, end)`: the one at
/// the command's offset in the preset list.
pub open spec fn preset_for_command(
    preset_names: Seq<String>,
    command_id: u16,
    base: u16,
    end: u16,
) -> Option<String> {
    if base <= command_id < end && command_id - base < preset_names.len() {
        Some(preset_names[command_id - base])
    } else {
        None
    }
}

/// The commands with a fixed id.
pub open spec fn fixed_command(command_id: u16) -> Option<MainCommand> {
    if command_id == CMD_TAB_ADD {
        Some(MainCommand::AddTab)
    } else if command_id == CMD_SPLIT_VERTICAL {
        Some(MainCommand::SplitActiveRegion(SplitDirection::Vertical))
    } else if command_id == CMD_SPLIT_HORIZONTAL {
        Some(MainCommand::SplitActiveRegion(SplitDirection::Horizontal))
    } else if command_id == CMD_REGION_DELETE {
        Some(MainCommand::DeleteActiveRegion)
    } else if command_id == CMD_UNDOCK {
        Some(MainCommand::UndockActiveRegion)
    } else if command_id == CMD_WORKSPACE_UI_TOGGLE {
        Some(MainCommand::ToggleWorkspaceUi)
    } else if command_id == CMD_TAB_PRESET_SAVE {
        Some(MainCommand::SaveActiveTabPreset)
    } else if command_id == CMD_TAB_PRESET_LOAD {
        Some(MainCommand::ShowTabPresetMenu)
    } else if command_id == CMD_TAB_PRESET_EDIT {
        Some(MainCommand::ShowEditTabPresetMenu)
    } else if command_id == CMD_TAB_PRESET_DELETE {
        Some(MainCommand::ShowDeleteTabPresetMenu)
    } else if command_id == CMD_OPTIONS {
        Some(MainCommand::ShowOptionsMenu)
    } else if command_id == CMD_DOCK_HIDDEN_WORKSPACE_UI_TOGGLE {
        Some(MainCommand::ToggleDockHiddenWorkspaceUi)
    } else if command_id == CMD_LANGUAGE_ENGLISH {
        Some(MainCommand::SetUiLanguage(UiLanguage::English))
    } else if command_id == CMD_LANGUAGE_KOREAN {
        Some(MainCommand::SetUiLanguage(UiLanguage::Korean))
    } else if command_id == CMD_WINDOW_MINIMIZE {
        Some(MainCommand::MinimizeWindow)
    } else if command_id == CMD_WINDOW_MAXIMIZE_RESTORE {
        Some(MainCommand::ToggleWindowMaximizeRestore)
    } else if command_id == CMD_WINDOW_CLOSE {
        Some(MainCommand::CloseWindow)
    } else if command_id == CMD_ABOUT {
        Some(MainCommand::ShowAboutDialog)
    } else if command_id == CMD_TAB_RENAME_CONTEXT {
        Some(MainCommand::TabContext(TabContextAction::Rename))
    } else if command_id == CMD_TAB_CLOSE_CONTEXT {
        Some(MainCommand::TabContext(TabContextAction::Close))
    } else if command_id == CMD_TAB_CLOSE_OTHER_CONTEXT {
        Some(MainCommand::TabContext(TabContextAction::CloseOther))
    } else {
        None
    }
}

/// The command id that stands for an action on the toolbar and in the
/// menus: each fixed action has the id of the constant named after it, and
/// the preset actions, whose ids depend on the preset list, have none.
pub open spec fn command_id_of_action(action: MainCommand) -> Option<u16> {
    match action {
        MainCommand::ApplyTabPreset(_) => None,
        MainCommand::DeleteTabPreset(_) => None,
        MainCommand::EditTabPreset(_) => None,
        MainCommand::AddTab => Some(CMD_TAB_ADD),
        MainCommand::SplitActiveRegion(SplitDirection::Vertical) => Some(CMD_SPLIT_VERTICAL),
        MainCommand::SplitActiveRegion(SplitDirection::Horizontal) => Some(CMD_SPLIT_HORIZONTAL),
        MainCommand::DeleteActiveRegion => Some(CMD_REGION_DELETE),
        MainCommand::UndockActiveRegion => Some(CMD_UNDOCK),
        MainCommand::ToggleWorkspaceUi => Some(CMD_WORKSPACE_UI_TOGGLE),
        MainCommand::SaveActiveTabPreset => Some(CMD_TAB_PRESET_SAVE),
        MainCommand::ShowTabPresetMenu => Some(CMD_TAB_PRESET_LOAD),
        MainCommand::ShowEditTabPresetMenu => Some(CMD_TAB_PRESET_EDIT),
        MainCommand::ShowDeleteTabPresetMenu => Some(CMD_TAB_PRESET_DELETE),
        MainCommand::ShowOptionsMenu => Some(CMD_OPTIONS),
        MainCommand::ToggleDockHiddenWorkspaceUi => Some(CMD_DOCK_HIDDEN_WORKSPACE_UI_TOGGLE),
        MainCommand::SetUiLanguage(UiLanguage::English) => Some(CMD_LANGUAGE_ENGLISH),
        MainCommand::SetUiLanguage(UiLanguage::Korean) => Some(CMD_LANGUAGE_KOREAN),
        MainCommand::MinimizeWindow => Some(CMD_WINDOW_MINIMIZE),
        MainCommand::ToggleWindowMaximizeRestore => Some(CMD_WINDOW_MAXIMIZE_RESTORE),
        MainCommand::CloseWindow => Some(CMD_WINDOW_CLOSE),
        MainCommand::ShowAboutDialog => Some(CMD_ABOUT),
        MainCommand::TabContext(TabContextAction::Rename) => Some(CMD_TAB_RENAME_CONTEXT),
        MainCommand::TabContext(TabContextAction::Close) => Some(CMD_TAB_CLOSE_CONTEXT),
        MainCommand::TabContext(TabContextAction::CloseOther) => Some(CMD_TAB_CLOSE_OTHER_CONTEXT),
    }
}

/// Every fixed command id asks for the action its constant names, and
/// every fixed action is asked for by exactly its own id: the split
/// buttons split in their own directions, the language commands pick
/// their own languages, and the tab context commands act as labelled.
pub proof fn lemma_fixed_commands_name_their_actions()
    ensures
        forall|command_id: u16| #[trigger] fixed_command(command_id) is Some ==> command_id_of_action(
            fixed_command(command_id)->0,
        ) == Some(command_id),
        forall|action: MainCommand| #[trigger] command_id_of_action(action) is Some ==> fixed_command(
            command_id_of_action(action)->0,
        ) == Some(action),
{
    assert forall|action: MainCommand| #[trigger] command_id_of_action(action) is Some implies fixed_command(
        command_id_of_action(action)->0,
    ) == Some(action) by {
        match action {
            MainCommand::SplitActiveRegion(d) => {
                match d {
                    SplitDirection::Vertical => {},
                    SplitDirection::Horizontal => {},
                }
            },
            MainCommand::SetUiLanguage(l) => {
                match l {
                    UiLanguage::English => {},
                    UiLanguage::Korean => {},
                }
            },
            MainCommand::TabContext(t) => {
                match t {
                    TabContextAction::Rename => {},
                    TabContextAction::Close => {},
                    TabContextAction::CloseOther => {},
                }
            },
            _ => {},
        }
    }
}

/// The preset a command of the range `[base, end)` names, if the list has
/// one at the command's offset.
pub fn tab_preset_name_for_command(
    preset_names: &[String],
    command_id: u16,
    base: u16,
    end: u16,
) -> (r: Option<String>)
    ensures
        match preset_for_command(preset_names@, command_id, base, end) {
            Some(name) => r matches Some(s) && s@ == name@,
            None => r is None,
        },
{
    let index = match command_index_from_range(command_id, base, end) {
        Some(index) => index,
        None => {
            return None;
        },
    };
    if index < preset_names.len() {
        Some(preset_names[index].clone())
    } else {
        None
    }
}

/// What a command id asks for: a preset command (apply, delete, edit) when
/// the id falls in one of their ranges and names a listed preset, else the
/// fixed command of that id, if any.
pub fn main_command_for_id(command_id: u16, preset_names: &[String]) -> (r: Option<MainCommand>)
    ensures
        match preset_for_command(preset_names@, command_id, CMD_TAB_PRESET_BASE, CMD_TAB_PRESET_END) {
            Some(name) => r matches Some(MainCommand::ApplyTabPreset(s)) && s@ == name@,
            None => match preset_for_command(
                preset_names@,
                command_id,
                CMD_TAB_PRESET_DELETE_BASE,
                CMD_TAB_PRESET_DELETE_END,
            ) {
                Some(name) => r matches Some(MainCommand::DeleteTabPreset(s)) && s@ == name@,
                None => match preset_for_command(
                    preset_names@,
                    command_id,
                    CMD_TAB_PRESET_EDIT_BASE,
                    CMD_TAB_PRESET_EDIT_END,
                ) {
                    Some(name) => r matches Some(MainCommand::EditTabPreset(s)) && s@ == name@,
                    None => r == fixed_command(command_id),
                },
            },
        },
        r is Some && command_id_of_action(r->0) is Some ==> command_id_of_action(r->0) == Some(
            command_id,
        ),
        forall|action: MainCommand| #[trigger] command_id_of_action(action) == Some(command_id)
            ==> r == Some(action),
{
    proof {
        lemma_fixed_commands_name_their_actions();
        if fixed_command(command_id) is Some {
            lemma_fixed_commands_outside_dynamic_ranges(command_id, preset_names@);
        }
        assert forall|action: MainCommand| #[trigger] command_id_of_action(action) == Some(command_id)
            implies fixed_command(command_id) is Some by {}
    }
    if let Some(name) = tab_preset_name_for_command(
        preset_names,
        command_id,
        CMD_TAB_PRESET_BASE,
        CMD_TAB_PRESET_END,
    ) {
        return Some(MainCommand::ApplyTabPreset(name));
    }
    if let Some(name) = tab_preset_name_for_command(
        preset_names,
        command_id,
        CMD_TAB_PRESET_DELETE_BASE,
        CMD_TAB_PRESET_DELETE_END,
    ) {
        return Some(MainCommand::DeleteTabPreset(name));
    }
    if let Some(name) = tab_preset_name_for_command(
        preset_names,
        command_id,
        CMD_TAB_PRESET_EDIT_BASE,
        CMD_TAB_PRESET_EDIT_END,
    ) {
        return Some(MainCommand::EditTabPreset(name));
    }
    if command_id == CMD_TAB_ADD {
        Some(MainCommand::AddTab)
    } else if command_id == CMD_SPLIT_VERTICAL {
        Some(MainCommand::SplitActiveRegion(SplitDirection::Vertical))
    } else if command_id == CMD_SPLIT_HORIZONTAL {
        Some(MainCommand::SplitActiveRegion(SplitDirection::Horizontal))
    } else if command_id == CMD_REGION_DELETE {
        Some(MainCommand::DeleteActiveRegion)
    } else if command_id == CMD_UNDOCK {
        Some(MainCommand::UndockActiveRegion)
    } else if command_id == CMD_WORKSPACE_UI_TOGGLE {
        Some(MainCommand::ToggleWorkspaceUi)
    } else if command_id == CMD_TAB_PRESET_SAVE {
        Some(MainCommand::SaveActiveTabPreset)
    } else if command_id == CMD_TAB_PRESET_LOAD {
        Some(MainCommand::ShowTabPresetMenu)
    } else if command_id == CMD_TAB_PRESET_EDIT {
        Some(MainCommand::ShowEditTabPresetMenu)
    } else if command_id == CMD_TAB_PRESET_DELETE {
        Some(MainCommand::ShowDeleteTabPresetMenu)
    } else if command_id == CMD_OPTIONS {
        Some(MainCommand::ShowOptionsMenu)
    } else if command_id == CMD_DOCK_HIDDEN_WORKSPACE_UI_TOGGLE {
        Some(MainCommand::ToggleDockHiddenWorkspaceUi)
    } else if command_id == CMD_LANGUAGE_ENGLISH {
        Some(MainCommand::SetUiLanguage(UiLanguage::English))
    } else if command_id == CMD_LANGUAGE_KOREAN {
        Some(MainCommand::SetUiLanguage(UiLanguage::Korean))
    } else if command_id == CMD_WINDOW_MINIMIZE {
        Some(MainCommand::MinimizeWindow)
    } else if command_id == CMD_WINDOW_MAXIMIZE_RESTORE {
        Some(MainCommand::ToggleWindowMaximizeRestore)
    } else if command_id == CMD_WINDOW_CLOSE {
        Some(MainCommand::CloseWindow)
    } else if command_id == CMD_ABOUT {
        Some(MainCommand::ShowAboutDialog)
    } else {
        match tab_context_action_from_command(command_id) {
            Some(action) => Some(MainCommand::TabContext(action)),
            None => None,
        }
    }
}

/// The fixed command ids lie below the dynamic menu ranges, which follow
/// one another without overlap; so a fixed id means the same command
/// whatever presets are listed.
pub proof fn lemma_fixed_commands_outside_dynamic_ranges(command_id: u16, preset_names: Seq<String>)
    requires
        fixed_command(command_id) is Some,
    ensures
        command_id < CMD_TAB_OVERFLOW_BASE,
        CMD_TAB_OVERFLOW_BASE < CMD_TAB_OVERFLOW_END <= CMD_TAB_PRESET_BASE,
        CMD_TAB_PRESET_BASE < CMD_TAB_PRESET_END <= CMD_TAB_PRESET_DELETE_BASE,
        CMD_TAB_PRESET_DELETE_BASE < CMD_TAB_PRESET_DELETE_END <= CMD_TAB_PRESET_EDIT_BASE,
        CMD_TAB_PRESET_EDIT_BASE < CMD_TAB_PRESET_EDIT_END,
        preset_for_command(preset_names, command_id, CMD_TAB_PRESET_BASE, CMD_TAB_PRESET_END) is None,
        preset_for_command(
            preset_names,
            command_id,
            CMD_TAB_PRESET_DELETE_BASE,
            CMD_TAB_PRESET_DELETE_END,
        ) is None,
        preset_for_command(preset_names, command_id, CMD_TAB_PRESET_EDIT_BASE, CMD_TAB_PRESET_EDIT_END)
            is None,
{
}

/// The English or the Korean text of a menu label.
pub open spec fn label_for(language: UiLanguage, english: &'static str, korean: &'static str) -> &'static str {
    match language {
        UiLanguage::English => english,
        UiLanguage::Korean => korean,
    }
}

/// Picks the label of the current language.
pub fn ui_text(language: UiLanguage, english: &'static str, korean: &'static str) -> (r: &'static str)
    ensures
        r == label_for(language, english, korean),
{
    match language {
        UiLanguage::English => english,
        UiLanguage::Korean => korean,
    }
}

/// An entry of a popup menu.
#[derive(Debug, Clone, Copy, PartialEq, Eq)]
pub enum MenuEntry {
    /// A command with its label.
    Command { command: u16, label: &'static str },
    Separator,
}

pub open spec fn command_entry(command: u16, label: &'static str) -> MenuEntry {
    MenuEntry::Command { command, label }
}

/// The entries of the menu of the empty part of the tab strip: a new tab;
/// with an active tab, its rename and close commands and the preset
/// commands; then the window commands.
pub open spec fn tab_blank_menu_entries(
    language: UiLanguage,
    has_active_tab: bool,
    maximized: bool,
) -> Seq<MenuEntry> {
    let head = seq![command_entry(CMD_TAB_ADD, label_for(language, "New tab", "새 탭"))];
    let tab_part = if has_active_tab {
        seq![
            command_entry(
                CMD_TAB_RENAME_CONTEXT,
                label_for(language, "Rename active tab", "활성 탭 이름 변경"),
            ),
            command_entry(CMD_TAB_CLOSE_CONTEXT, label_for(language, "Close active tab", "활성 탭 닫기")),
            command_entry(
                CMD_TAB_CLOSE_OTHER_CONTEXT,
                label_for(language, "Close other tabs", "다른 탭 닫기"),
            ),
            MenuEntry::Separator,
            command_entry(
                CMD_TAB_PRESET_SAVE,
                label_for(language, "Save active tab preset...", "활성 탭 preset 저장..."),
            ),
            command_entry(
                CMD_TAB_PRESET_LOAD,
                label_for(language, "Load active tab preset...", "활성 탭 preset 불러오기..."),
            ),
            command_entry(
                CMD_TAB_PRESET_EDIT,
                label_for(language, "Edit tab preset...", "탭 preset 편집..."),
            ),
            command_entry(
                CMD_TAB_PRESET_DELETE,
                label_for(language, "Delete tab preset...", "탭 preset 삭제..."),
            ),
        ]
    } else {
        Seq::empty()
    };
    let tail = seq![
        MenuEntry::Separator,
        command_entry(CMD_WINDOW_MINIMIZE, label_for(language, "Minimize window", "창 최소화")),
        command_entry(CMD_WINDOW_MAXIMIZE_RESTORE, maximize_restore_label(language, maximized)),
        command_entry(CMD_WINDOW_CLOSE, label_for(language, "Close window", "창 닫기")),
    ];
    head + tab_part + tail
}

/// The label a command is shown under in the menus, in each language.
pub open spec fn command_label(language: UiLanguage, maximized: bool, command: u16) -> &'static str {
    if command == CMD_TAB_ADD {
        label_for(language, "New tab", "새 탭")
    } else if command == CMD_TAB_RENAME_CONTEXT {
        label_for(language, "Rename active tab", "활성 탭 이름 변경")
    } else if command == CMD_TAB_CLOSE_CONTEXT {
        label_for(language, "Close active tab", "활성 탭 닫기")
    } else if command == CMD_TAB_CLOSE_OTHER_CONTEXT {
        label_for(language, "Close other tabs", "다른 탭 닫기")
    } else if command == CMD_TAB_PRESET_SAVE {
        label_for(language, "Save active tab preset...", "활성 탭 preset 저장...")
    } else if command == CMD_TAB_PRESET_LOAD {
        label_for(language, "Load active tab preset...", "활성 탭 preset 불러오기...")
    } else if command == CMD_TAB_PRESET_EDIT {
        label_for(language, "Edit tab preset...", "탭 preset 편집...")
    } else if command == CMD_TAB_PRESET_DELETE {
        label_for(language, "Delete tab preset...", "탭 preset 삭제...")
    } else if command == CMD_WINDOW_MINIMIZE {
        label_for(language, "Minimize window", "창 최소화")
    } else if command == CMD_WINDOW_MAXIMIZE_RESTORE {
        maximize_restore_label(language, maximized)
    } else if command == CMD_WINDOW_CLOSE {
        label_for(language, "Close window", "창 닫기")
    } else {
        ""
    }
}

/// A label names the tab context command it is the label of: whatever
/// command a menu shows under the label of closing the active tab is that
/// command, and likewise for closing the other tabs and for renaming.
pub open spec fn label_names_its_command(label: &'static str, command: u16) -> bool {
    &&& (label@ == "Close active tab"@ || label@ == "활성 탭 닫기"@) ==> command
        == CMD_TAB_CLOSE_CONTEXT
    &&& (label@ == "Close other tabs"@ || label@ == "다른 탭 닫기"@) ==> command
        == CMD_TAB_CLOSE_OTHER_CONTEXT
    &&& (label@ == "Rename active tab"@ || label@ == "활성 탭 이름 변경"@) ==> command
        == CMD_TAB_RENAME_CONTEXT
}

proof fn lemma_command_label_names_command(language: UiLanguage, maximized: bool, command: u16)
    ensures
        label_names_its_command(command_label(language, maximized, command), command),
{
    reveal_strlit("New tab");
    reveal_strlit("새 탭");
    reveal_strlit("Rename active tab");
    reveal_strlit("활성 탭 이름 변경");
    reveal_strlit("Close active tab");
    reveal_strlit("활성 탭 닫기");
    reveal_strlit("Close other tabs");
    reveal_strlit("다른 탭 닫기");
    reveal_strlit("Save active tab preset...");
    reveal_strlit("활성 탭 preset 저장...");
    reveal_strlit("Load active tab preset...");
    reveal_strlit("활성 탭 preset 불러오기...");
    reveal_strlit("Edit tab preset...");
    reveal_strlit("탭 preset 편집...");
    reveal_strlit("Delete tab preset...");
    reveal_strlit("탭 preset 삭제...");
    reveal_strlit("Minimize window");
    reveal_strlit("창 최소화");
    reveal_strlit("Restore window");
    reveal_strlit("창 복원");
    reveal_strlit("Maximize window");
    reveal_strlit("창 최대화");
    reveal_strlit("Close window");
    reveal_strlit("창 닫기");
    reveal_strlit("");
    let l = command_label(language, maximized, command);
    if command != CMD_TAB_CLOSE_CONTEXT {
        assert(l@ != "Close active tab"@ && l@ != "활성 탭 닫기"@) by {
            if l@ =~= "Close active tab"@ {
                assert(l@[0] == "Close active tab"@[0]);
                assert(l@[6] == "Close active tab"@[6]);
            }
            if l@ =~= "활성 탭 닫기"@ {
                assert(l@[0] == "활성 탭 닫기"@[0]);
                assert(l@[5] == "활성 탭 닫기"@[5]);
            }
        }
    }
    if command != CMD_TAB_CLOSE_OTHER_CONTEXT {
        assert(l@ != "Close other tabs"@ && l@ != "다른 탭 닫기"@) by {
            if l@ =~= "Close other tabs"@ {
                assert(l@[0] == "Close other tabs"@[0]);
                assert(l@[6] == "Close other tabs"@[6]);
            }
            if l@ =~= "다른 탭 닫기"@ {
                assert(l@[0] == "다른 탭 닫기"@[0]);
            }
        }
    }
    if command != CMD_TAB_RENAME_CONTEXT {
        assert(l@ != "Rename active tab"@ && l@ != "활성 탭 이름 변경"@) by {
            if l@ =~= "Rename active tab"@ {
                assert(l@[0] == "Rename active tab"@[0]);
            }
            if l@ =~= "활성 탭 이름 변경"@ {
                assert(l@[0] == "활성 탭 이름 변경"@[0]);
                assert(l@[5] == "활성 탭 이름 변경"@[5]);
            }
        }
    }
}

/// Each entry of the tab strip menu carries the command its label names,
/// in every language and state: its label is the label of its command,
/// the entry labelled as closing the active tab closes the active tab, the
/// one labelled as closing the other tabs closes the others, and the rename
/// entry renames.
pub proof fn lemma_tab_blank_menu_labels_name_their_commands(
    language: UiLanguage,
    has_active_tab: bool,
    maximized: bool,
)
    ensures
        forall|i: int|
            0 <= i < tab_blank_menu_entries(language, has_active_tab, maximized).len() && (
            #[trigger] tab_blank_menu_entries(language, has_active_tab, maximized)[i]) is Command
                ==> {
                let e = tab_blank_menu_entries(language, has_active_tab, maximized)[i];
                &&& e->label == command_label(language, maximized, e->command)
                &&& label_names_its_command(e->label, e->command)
            },
{
    let es = tab_blank_menu_entries(language, has_active_tab, maximized);
    assert forall|i: int| 0 <= i < es.len() && (#[trigger] es[i]) is Command implies {
        &&& es[i]->label == command_label(language, maximized, es[i]->command)
        &&& label_names_its_command(es[i]->label, es[i]->command)
    } by {
        lemma_command_label_names_command(language, maximized, es[i]->command);
    }
}

/// The entries of the menu of the empty part of the tab strip.
pub fn tab_blank_context_menu_items(
    language: UiLanguage,
    has_active_tab: bool,
    maximized: bool,
) -> (items: Vec<MenuEntry>)
    ensures
        items@ == tab_blank_menu_entries(language, has_active_tab, maximized),
{
    let mut items: Vec<MenuEntry> = Vec::new();
    items.push(MenuEntry::Command { command: CMD_TAB_ADD, label: ui_text(language, "New tab", "새 탭") });
    if has_active_tab {
        items.push(
            MenuEntry::Command {
                command: CMD_TAB_RENAME_CONTEXT,
                label: ui_text(language, "Rename active tab", "활성 탭 이름 변경"),
            },
        );
        items.push(
            MenuEntry::Command {
                command: CMD_TAB_CLOSE_CONTEXT,
                label: ui_text(language, "Close active tab", "활성 탭 닫기"),
            },
        );
        items.push(
            MenuEntry::Command {
                command: CMD_TAB_CLOSE_OTHER_CONTEXT,
                label: ui_text(language, "Close other tabs", "다른 탭 닫기"),
            },
        );
        items.push(MenuEntry::Separator);
        items.push(
            MenuEntry::Command {
                command: CMD_TAB_PRESET_SAVE,
                label: ui_text(language, "Save active tab preset...", "활성 탭 preset 저장..."),
            },
        );
        items.push(
            MenuEntry::Command {
                command: CMD_TAB_PRESET_LOAD,
                label: ui_text(language, "Load active tab preset...", "활성 탭 preset 불러오기..."),
            },
        );
        items.push(
            MenuEntry::Command {
                command: CMD_TAB_PRESET_EDIT,
                label: ui_text(language, "Edit tab preset...", "탭 preset 편집..."),
            },
        );
        items.push(
            MenuEntry::Command {
                command: CMD_TAB_PRESET_DELETE,
                label: ui_text(language, "Delete tab preset...", "탭 preset 삭제..."),
            },
        );
    }
    items.push(MenuEntry::Separator);
    items.push(
        MenuEntry::Command {
            command: CMD_WINDOW_MINIMIZE,
            label: ui_text(language, "Minimize window", "창 최소화"),
        },
    );
    items.push(
        MenuEntry::Command {
            command: CMD_WINDOW_MAXIMIZE_RESTORE,
            label: window_maximize_restore_menu_label(language, maximized),
        },
    );
    items.push(
        MenuEntry::Command { command: CMD_WINDOW_CLOSE, label: ui_text(language, "Close window", "창 닫기") },
    );
    assert(items@ =~= tab_blank_menu_entries(language, has_active_tab, maximized));
    items
}

/// The label of the maximize/restore window command: it offers to restore
/// a maximized window and to maximize any other.
pub open spec fn maximize_restore_label(language: UiLanguage, maximized: bool) -> &'static str {
    if maximized {
        label_for(language, "Restore window", "창 복원")
    } else {
        label_for(language, "Maximize window", "창 최대화")
    }
}

/// The label of the maximize/restore window command for the window's state.
pub fn window_maximize_restore_menu_label(language: UiLanguage, maximized: bool) -> (r: &'static str)
    ensures
        r == maximize_restore_label(language, maximized),
{
    if maximized {
        ui_text(language, "Restore window", "창 복원")
    } else {
        ui_text(language, "Maximize window", "창 최대화")
    }
}

} // verus!
