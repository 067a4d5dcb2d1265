use j3grid_docker::commands::{
    tab_blank_context_menu_items, window_maximize_restore_menu_label, MenuEntry,
};
use j3grid_docker::settings::{
    PreservedStartupSessionSettings, SettingsError, UiLanguage, WorkspaceOptions,
    WorkspaceTabPresetsOnlySettings,
};
use j3grid_docker::startup::{
    initial_tab_name, startup_settings_plan, SettingsSaveMode, SettingsSavePolicy,
};
use j3grid_docker::ui_policy::{
    CMD_TAB_ADD, CMD_TAB_PRESET_DELETE, CMD_WINDOW_CLOSE, CMD_WINDOW_MAXIMIZE_RESTORE, CMD_WINDOW_MINIMIZE,
};

#[test]
fn startup_plan_preserves_loaded_session() {
    let settings = WorkspaceTabPresetsOnlySettings::new(
        3,
        vec!["preset".to_owned()],
        WorkspaceOptions::new_with_language(true, UiLanguage::Korean),
        PreservedStartupSessionSettings::new("schema_version = 1\n".to_owned()),
    );
    let plan = startup_settings_plan(Ok(Some(settings)));
    assert_eq!(plan.save_policy, SettingsSavePolicy::PreserveStartupSessionUntilWorkspaceChange);
    assert_eq!(plan.workspace_options, WorkspaceOptions::new_with_language(true, UiLanguage::Korean));
    assert_eq!(plan.tab_presets, vec!["preset".to_owned()]);
    assert_eq!(plan.saved_tab_count, 3);
    assert_eq!(plan.preserved_startup_session.unwrap().content, "schema_version = 1\n");
    assert!(plan.load_error.is_none());
}

#[test]
fn startup_plan_without_file_or_after_failure() {
    let none = startup_settings_plan::<String>(Ok(None));
    assert_eq!(none.save_policy, SettingsSavePolicy::Enabled);
    assert!(none.preserved_startup_session.is_none());
    assert_eq!(none.workspace_options, WorkspaceOptions::default());

    let error = SettingsError::UnsupportedVersion { path: "s.toml".to_owned(), version: 2 };
    let failed = startup_settings_plan::<String>(Err(error.clone()));
    assert_eq!(failed.save_policy, SettingsSavePolicy::WaitForWorkspaceChange);
    assert_eq!(failed.load_error, Some(error));
    assert!(failed.tab_presets.is_empty());
}

#[test]
fn initial_tab_is_created_only_for_empty_workspace() {
    assert_eq!(initial_tab_name(0), Some("Tab 0"));
    assert_eq!(initial_tab_name(2), None);
}

#[test]
fn tab_blank_menu_lists_tab_commands_only_with_active_tab() {
    let without = tab_blank_context_menu_items(UiLanguage::English, false, false);
    assert_eq!(
        without,
        vec![
            MenuEntry::Command { command: CMD_TAB_ADD, label: "New tab" },
            MenuEntry::Separator,
            MenuEntry::Command { command: CMD_WINDOW_MINIMIZE, label: "Minimize window" },
            MenuEntry::Command { command: CMD_WINDOW_MAXIMIZE_RESTORE, label: "Maximize window" },
            MenuEntry::Command { command: CMD_WINDOW_CLOSE, label: "Close window" },
        ]
    );
    let with = tab_blank_context_menu_items(UiLanguage::Korean, true, true);
    assert_eq!(with.len(), 13);
    assert_eq!(with[0], MenuEntry::Command { command: CMD_TAB_ADD, label: "새 탭" });
    assert_eq!(with[4], MenuEntry::Separator);
    assert_eq!(with[8], MenuEntry::Command { command: CMD_TAB_PRESET_DELETE, label: "탭 preset 삭제..." });
    assert_eq!(with[11], MenuEntry::Command { command: CMD_WINDOW_MAXIMIZE_RESTORE, label: "창 복원" });
}

#[test]
fn settings_save_policy_waits_after_load_failure() {
    let policy = SettingsSavePolicy::WaitForWorkspaceChange;

    assert!(!policy.can_save());
}

#[test]
fn settings_save_policy_keeps_waiting_after_load_failure_options_change() {
    let mut policy = SettingsSavePolicy::WaitForWorkspaceChange;

    policy.allow_after_workspace_options_change();

    assert_eq!(policy, SettingsSavePolicy::WaitForWorkspaceChange);
    assert_eq!(policy.save_mode(), None);
    assert!(!policy.can_save());
}

#[test]
fn settings_save_policy_allows_save_after_workspace_change() {
    let mut policy = SettingsSavePolicy::WaitForWorkspaceChange;

    policy.allow_after_workspace_change();

    assert_eq!(policy, SettingsSavePolicy::Enabled);
    assert!(policy.can_save());
    assert_eq!(policy.save_mode(), Some(SettingsSaveMode::FullWorkspace));
}

#[test]
fn settings_save_policy_preserves_startup_session_for_options_only_change() {
    let mut policy = SettingsSavePolicy::PreserveStartupSessionUntilWorkspaceChange;

    policy.allow_after_workspace_options_change();

    assert_eq!(
        policy.save_mode(),
        Some(SettingsSaveMode::OptionsOnlyPreservingStartupSession)
    );
    assert!(policy.can_save());
}

#[test]
fn settings_save_policy_saves_full_workspace_after_explicit_workspace_change() {
    let mut policy = SettingsSavePolicy::PreserveStartupSessionUntilWorkspaceChange;

    policy.allow_after_workspace_change();

    assert_eq!(policy.save_mode(), Some(SettingsSaveMode::FullWorkspace));
    assert!(policy.can_save());
}

#[test]
fn window_maximize_restore_menu_label_matches_current_state() {
    assert_eq!(window_maximize_restore_menu_label(UiLanguage::English, false), "Maximize window");
    assert_eq!(window_maximize_restore_menu_label(UiLanguage::English, true), "Restore window");
    assert_eq!(window_maximize_restore_menu_label(UiLanguage::Korean, false), "창 최대화");
}
