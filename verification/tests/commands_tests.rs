use std::collections::HashSet;

use j3grid_docker::commands::{
    main_command_for_id, tab_preset_name_for_command, MainCommand, SplitDirection,
};
use j3grid_docker::layout::{button_spec, COMMAND_BUTTON_COUNT};
use j3grid_docker::settings::UiLanguage;
use j3grid_docker::ui_policy::{
    TabContextAction, CMD_ABOUT, CMD_DOCK_HIDDEN_WORKSPACE_UI_TOGGLE, CMD_LANGUAGE_ENGLISH,
    CMD_LANGUAGE_KOREAN, CMD_OPTIONS, CMD_REGION_DELETE, CMD_SPLIT_HORIZONTAL, CMD_SPLIT_VERTICAL,
    CMD_TAB_ADD, CMD_TAB_CLOSE_CONTEXT, CMD_TAB_CLOSE_OTHER_CONTEXT, CMD_TAB_OVERFLOW_BASE,
    CMD_TAB_OVERFLOW_END, CMD_TAB_PRESET_BASE, CMD_TAB_PRESET_DELETE, CMD_TAB_PRESET_DELETE_BASE,
    CMD_TAB_PRESET_DELETE_END, CMD_TAB_PRESET_EDIT, CMD_TAB_PRESET_EDIT_BASE,
    CMD_TAB_PRESET_EDIT_END, CMD_TAB_PRESET_END, CMD_TAB_PRESET_LOAD, CMD_TAB_PRESET_SAVE,
    CMD_TAB_RENAME_CONTEXT, CMD_UNDOCK, CMD_WINDOW_CLOSE, CMD_WINDOW_MAXIMIZE_RESTORE,
    CMD_WINDOW_MINIMIZE, CMD_WORKSPACE_UI_TOGGLE,
};

#[test]
fn command_ids_do_not_overlap_with_dynamic_menu_ranges() {
    let mut fixed_commands = (0..COMMAND_BUTTON_COUNT)
        .map(|index| ("toolbar", button_spec(index).command))
        .collect::<Vec<_>>();
    fixed_commands.extend([
        ("view-workspace-toggle", CMD_WORKSPACE_UI_TOGGLE),
        ("top-bar-new-tab", CMD_TAB_ADD),
        ("tab-preset-save", CMD_TAB_PRESET_SAVE),
        ("tab-preset-load", CMD_TAB_PRESET_LOAD),
        ("tab-preset-delete", CMD_TAB_PRESET_DELETE),
        ("tab-preset-edit", CMD_TAB_PRESET_EDIT),
        ("legacy-options-menu", CMD_OPTIONS),
        ("tab-context-rename", CMD_TAB_RENAME_CONTEXT),
        ("tab-context-close", CMD_TAB_CLOSE_CONTEXT),
        ("tab-context-close-other", CMD_TAB_CLOSE_OTHER_CONTEXT),
        ("options-dock-hidden-workspace-ui", CMD_DOCK_HIDDEN_WORKSPACE_UI_TOGGLE),
        ("options-language-english", CMD_LANGUAGE_ENGLISH),
        ("options-language-korean", CMD_LANGUAGE_KOREAN),
        ("window-minimize", CMD_WINDOW_MINIMIZE),
        ("window-maximize-restore", CMD_WINDOW_MAXIMIZE_RESTORE),
        ("window-close", CMD_WINDOW_CLOSE),
        ("help-about", CMD_ABOUT),
    ]);

    assert!((0..COMMAND_BUTTON_COUNT).all(|index| matches!(
        button_spec(index).command,
        CMD_SPLIT_VERTICAL | CMD_SPLIT_HORIZONTAL | CMD_REGION_DELETE | CMD_UNDOCK
    )));
    assert!(!(0..COMMAND_BUTTON_COUNT)
        .any(|index| matches!(button_spec(index).command, CMD_OPTIONS | CMD_ABOUT)));

    let mut seen = HashSet::new();
    for (label, command) in fixed_commands {
        assert!(seen.insert(command), "duplicate command id {command}");
        assert!(
            command < CMD_TAB_OVERFLOW_BASE,
            "{label} command {command} overlaps dynamic menu command space"
        );
        assert!(!(CMD_TAB_OVERFLOW_BASE..CMD_TAB_OVERFLOW_END).contains(&command));
        assert!(!(CMD_TAB_PRESET_BASE..CMD_TAB_PRESET_END).contains(&command));
        assert!(!(CMD_TAB_PRESET_DELETE_BASE..CMD_TAB_PRESET_DELETE_END).contains(&command));
        assert!(!(CMD_TAB_PRESET_EDIT_BASE..CMD_TAB_PRESET_EDIT_END).contains(&command));
    }

    assert!(CMD_TAB_OVERFLOW_BASE < CMD_TAB_OVERFLOW_END);
    assert!(CMD_TAB_OVERFLOW_END <= CMD_TAB_PRESET_BASE);
    assert!(CMD_TAB_PRESET_BASE < CMD_TAB_PRESET_END);
    assert!(CMD_TAB_PRESET_END <= CMD_TAB_PRESET_DELETE_BASE);
    assert!(CMD_TAB_PRESET_DELETE_BASE < CMD_TAB_PRESET_DELETE_END);
    assert!(CMD_TAB_PRESET_DELETE_END <= CMD_TAB_PRESET_EDIT_BASE);
    assert!(CMD_TAB_PRESET_EDIT_BASE < CMD_TAB_PRESET_EDIT_END);
}

fn names() -> Vec<String> {
    vec!["Work".to_owned(), "Games".to_owned()]
}

#[test]
fn preset_commands_name_the_listed_preset() {
    let names = names();
    assert_eq!(
        tab_preset_name_for_command(&names, CMD_TAB_PRESET_BASE + 1, CMD_TAB_PRESET_BASE, CMD_TAB_PRESET_END),
        Some("Games".to_owned())
    );
    assert_eq!(
        tab_preset_name_for_command(&names, CMD_TAB_PRESET_BASE + 2, CMD_TAB_PRESET_BASE, CMD_TAB_PRESET_END),
        None
    );
    assert_eq!(
        main_command_for_id(CMD_TAB_PRESET_BASE, &names),
        Some(MainCommand::ApplyTabPreset("Work".to_owned()))
    );
    assert_eq!(
        main_command_for_id(CMD_TAB_PRESET_DELETE_BASE + 1, &names),
        Some(MainCommand::DeleteTabPreset("Games".to_owned()))
    );
    assert_eq!(
        main_command_for_id(CMD_TAB_PRESET_EDIT_BASE, &names),
        Some(MainCommand::EditTabPreset("Work".to_owned()))
    );
    assert_eq!(main_command_for_id(CMD_TAB_PRESET_EDIT_BASE + 5, &names), None);
}

#[test]
fn fixed_commands_map_to_their_actions() {
    let names = names();
    assert_eq!(main_command_for_id(CMD_TAB_ADD, &names), Some(MainCommand::AddTab));
    assert_eq!(
        main_command_for_id(CMD_SPLIT_HORIZONTAL, &names),
        Some(MainCommand::SplitActiveRegion(SplitDirection::Horizontal))
    );
    assert_eq!(
        main_command_for_id(CMD_LANGUAGE_KOREAN, &names),
        Some(MainCommand::SetUiLanguage(UiLanguage::Korean))
    );
    assert_eq!(
        main_command_for_id(CMD_TAB_CLOSE_OTHER_CONTEXT, &[]),
        Some(MainCommand::TabContext(TabContextAction::CloseOther))
    );
    assert_eq!(main_command_for_id(CMD_WINDOW_CLOSE, &[]), Some(MainCommand::CloseWindow));
    assert_eq!(main_command_for_id(1002, &names), None);
    assert_eq!(main_command_for_id(CMD_TAB_OVERFLOW_BASE, &names), None);
}
