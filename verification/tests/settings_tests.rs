use j3grid_docker::settings::{
    apply_workspace_options_patch, ensure_settings_size, ensure_supported_schema_from_root_content,
    ensure_supported_schema_version, layout_depth_exceeded_error, path_for_executable,
    read_layout_depth, read_layout_node_depth, LayoutNodeShape,
    check_tab_preset_layout, ensure_layout_split_depth, LayoutDepthExceeded,
    MAX_SETTINGS_LAYOUT_SPLIT_DEPTH,
    root_schema_version, schema_version_from_entry, serialized_workspace_options_table,
    settings_path_components_error, tab_presets_only_settings_from_startup, temp_file_name,
    ui_language_setting_name, workspace_options_content_from_full_table,
    workspace_options_content_preserving_session,
    workspace_options_patch_plan, IgnoredItemCount, OptionsPatchOutcome, OptionsPatchPlan,
    PreservedStartupSessionSettings, SettingsError, SettingsFileStore, SettingsNodeDtoDepth,
    UiLanguage, WorkspaceOptions, WorkspaceStartupSettings, WorkspaceTabPresetsOnlySettings,
    MAX_SETTINGS_FILE_BYTES, MAX_SETTINGS_LAYOUT_DTO_SPLIT_DEPTH, SETTINGS_SCHEMA_VERSION,
};
use j3grid_docker::settings_document::{
    root_line_assigns_workspace_options, SettingsTomlDocument, TomlContentSection,
};

const BODY: &str = "dock_hidden_workspace_ui = true\nui_language = \"korean\"\n";

fn content_before<'a>(content: &'a str, marker: &str) -> &'a str {
    let index = content.find(marker).expect("marker was not found");
    &content[..index]
}

fn startup(schema_version: u32) -> WorkspaceStartupSettings<String> {
    WorkspaceStartupSettings {
        schema_version,
        active_tab_id: Some(1),
        next_tab_id: 3,
        next_region_id: 2,
        tabs: IgnoredItemCount { count: 2 },
        tab_presets: vec![String::from("Keep")],
        options: WorkspaceOptions::new_with_language(true, UiLanguage::Korean),
    }
}

#[test]
fn workspace_options_default_is_english_without_hidden_docking() {
    let options = WorkspaceOptions::default();
    assert!(!options.dock_hidden_workspace_ui());
    assert_eq!(options.ui_language(), UiLanguage::English);
    assert_eq!(WorkspaceOptions::new(true).ui_language(), UiLanguage::English);
    assert_eq!(ui_language_setting_name(UiLanguage::English), "english");
    assert_eq!(ui_language_setting_name(UiLanguage::Korean), "korean");
}

#[test]
fn schema_version_checks_report_exact_errors() {
    assert_eq!(ensure_supported_schema_version("s.toml", SETTINGS_SCHEMA_VERSION), Ok(()));
    assert_eq!(
        ensure_supported_schema_version("s.toml", 2),
        Err(SettingsError::UnsupportedVersion { path: "s.toml".to_owned(), version: 2 })
    );
    assert_eq!(schema_version_from_entry("p", Some(Some(1))), Ok(1));
    assert_eq!(
        schema_version_from_entry("p", None),
        Err(SettingsError::TomlDeserialize {
            path: "p".to_owned(),
            message: "missing field `schema_version`".to_owned()
        })
    );
    assert_eq!(
        schema_version_from_entry("p", Some(Some(-1))),
        Err(SettingsError::TomlDeserialize {
            path: "p".to_owned(),
            message: "schema_version must be an unsigned 32-bit integer".to_owned()
        })
    );
    assert_eq!(
        schema_version_from_entry("p", Some(None)),
        Err(SettingsError::TomlDeserialize {
            path: "p".to_owned(),
            message: "schema_version must be an unsigned 32-bit integer".to_owned()
        })
    );
}

#[test]
fn root_schema_version_reads_the_root_table() {
    assert_eq!(root_schema_version("p", "schema_version = 1\n"), Ok(1));
    assert_eq!(root_schema_version("p", "schema_version = 7\nx = 'a'\n"), Ok(7));
    assert!(matches!(
        root_schema_version("p", "schema_version =\n"),
        Err(SettingsError::TomlDeserialize { .. })
    ));
    assert!(matches!(
        root_schema_version("p", "other = 1\n"),
        Err(SettingsError::TomlDeserialize { .. })
    ));
    assert!(matches!(
        root_schema_version("p", "schema_version = \"1\"\n"),
        Err(SettingsError::TomlDeserialize { .. })
    ));
    assert_eq!(ensure_supported_schema_from_root_content("p", "schema_version = 1\n"), Ok(()));
    assert!(matches!(
        ensure_supported_schema_from_root_content("p", "schema_version = 3\n"),
        Err(SettingsError::UnsupportedVersion { version: 3, .. })
    ));
}

#[test]
fn serialized_options_table_has_header_and_final_newline() {
    assert_eq!(serialized_workspace_options_table("a = 1"), "[options]\na = 1\n");
    assert_eq!(serialized_workspace_options_table("a = 1\n"), "[options]\na = 1\n");
    assert_eq!(serialized_workspace_options_table(""), "[options]\n");
}

#[test]
fn options_patch_plan_follows_the_document() {
    let with_section = SettingsTomlDocument::new("schema_version = 1\n[options]\na = 1\n");
    assert_eq!(
        workspace_options_patch_plan(&with_section),
        OptionsPatchPlan::ReplaceSection(TomlContentSection { start: 19, end: 35 })
    );
    let inline = SettingsTomlDocument::new("schema_version = 1\noptions = { a = 1 }\n");
    assert_eq!(workspace_options_patch_plan(&inline), OptionsPatchPlan::RewriteDocument);
    let dotted = SettingsTomlDocument::new("schema_version = 1\noptions.a = 1\n");
    assert_eq!(workspace_options_patch_plan(&dotted), OptionsPatchPlan::RewriteDocument);
    let none = SettingsTomlDocument::new("schema_version = 1\n[tabs]\n");
    assert_eq!(workspace_options_patch_plan(&none), OptionsPatchPlan::AppendSection);
    assert!(root_line_assigns_workspace_options("options = {}"));
    assert!(root_line_assigns_workspace_options(" \"options\" . a = 1"));
    assert!(!root_line_assigns_workspace_options("optionsx = 1"));
}

#[test]
fn options_patch_replaces_the_section_and_keeps_the_rest() {
    let content = "schema_version = 1\n\n[[tabs]]\nid = \"not-a-number\"\n\n[options]\nrestore_previous_session = false\n\n[tabs.layout]\nkind = \"region\"\n";
    let updated = match apply_workspace_options_patch(content, BODY, Ok(())) {
        Ok(OptionsPatchOutcome::Patched(updated)) => updated,
        other => panic!("unexpected outcome: {other:?}"),
    };
    assert_eq!(
        updated,
        format!(
            "schema_version = 1\n\n[[tabs]]\nid = \"not-a-number\"\n\n[options]\n{BODY}[tabs.layout]\nkind = \"region\"\n"
        )
    );
}

#[test]
fn options_patch_appends_a_missing_section_after_a_blank_line() {
    assert_eq!(
        apply_workspace_options_patch("schema_version = 1", BODY, Ok(())),
        Ok(OptionsPatchOutcome::Patched(format!("schema_version = 1\n\n[options]\n{BODY}")))
    );
    assert_eq!(
        apply_workspace_options_patch("schema_version = 1\n\n", BODY, Ok(())),
        Ok(OptionsPatchOutcome::Patched(format!("schema_version = 1\n\n[options]\n{BODY}")))
    );
    assert_eq!(
        apply_workspace_options_patch("", BODY, Ok(())),
        Ok(OptionsPatchOutcome::Patched(format!("[options]\n{BODY}")))
    );
}

#[test]
fn options_patch_asks_for_a_rewrite_of_inline_options() {
    assert_eq!(
        apply_workspace_options_patch("schema_version = 1\noptions = { a = 1 }\n", BODY, Ok(())),
        Ok(OptionsPatchOutcome::RewriteDocument)
    );
}

#[test]
fn options_patch_passes_on_the_schema_error() {
    let error = SettingsError::UnsupportedVersion { path: "p".to_owned(), version: 2 };
    assert_eq!(
        apply_workspace_options_patch("schema_version = 2\n", BODY, Err(error.clone())),
        Err(error)
    );
}

#[test]
fn settings_file_store_ignores_options_marker_inside_multiline_string() {
    let content = r#"
schema_version = 1
active_tab_id = 1
next_tab_id = 3
next_region_id = 2

[[tabs]]
id = "not-a-number"
name = 123
notes = """
keep this saved tab payload
[options]
restore_previous_session = true
"""
layout = "not-a-layout"

# real workspace options
[options]
restore_previous_session = false
"#;
    let before_saved_session = content_before(content, "# real workspace options");
    let updated = match workspace_options_content_preserving_session("p", content, BODY) {
        Ok(updated) => updated,
        other => panic!("unexpected outcome: {other:?}"),
    };
    assert_eq!(content_before(&updated, "# real workspace options"), before_saved_session);
    let saved: toml::Value = toml::from_str(&updated).expect("updated settings parse");
    let notes = saved["tabs"][0]["notes"].as_str().expect("notes were kept");
    assert!(notes.contains("[options]\nrestore_previous_session = true"));
    let options = saved["options"].as_table().expect("options were saved");
    assert!(!options.contains_key("restore_previous_session"));
    assert_eq!(options["ui_language"].as_str(), Some("korean"));
}

#[test]
fn settings_file_store_updates_quoted_options_table_without_appending_duplicate() {
    let content = r#"
schema_version = 1
active_tab_id = 1
next_tab_id = 3
next_region_id = 2

[[tabs]]
id = "not-a-number"
name = 123
placements = "not-an-array"
layout = "not-a-layout"

["options"]
restore_previous_session = false
"#;
    let store = SettingsFileStore::new("settings.toml");
    let loaded = store
        .load_workspace_for_startup(Some((content.to_owned(), Ok(startup(1)))))
        .expect("settings load")
        .expect("settings file was not loaded");
    let (_tab_presets, mut preserved) = loaded.into_tab_presets_and_preserved_session();
    let before_saved_session = content_before(&preserved.content, "[\"options\"]").to_owned();

    let updated = match store.save_workspace_options_preserving_startup_session(&preserved, BODY) {
        Ok(updated) => updated,
        other => panic!("unexpected outcome: {other:?}"),
    };
    preserved.record_saved_content(updated.clone());

    assert_eq!(preserved.content, updated);
    assert_eq!(content_before(&updated, "[options]"), before_saved_session);
    assert!(!updated.contains("[\"options\"]"));
    let saved: toml::Value = toml::from_str(&updated).expect("updated settings parse");
    let options = saved["options"].as_table().expect("options were saved");
    assert!(!options.contains_key("restore_previous_session"));
    assert_eq!(options["ui_language"].as_str(), Some("korean"));
}

#[test]
fn settings_file_store_preserving_session_rejects_unsupported_schema_without_rewriting() {
    let content = "\nschema_version = 2\nactive_tab_id = 1\n\n[options]\nrestore_previous_session = false\n";
    let store = SettingsFileStore::new("settings.toml");
    assert_eq!(
        store.save_workspace_options_preserving_session(Some(content.to_owned()), BODY),
        Err(SettingsError::UnsupportedVersion { path: "settings.toml".to_owned(), version: 2 })
    );
}

#[test]
fn settings_file_store_preserving_session_rejects_corrupt_root_schema_without_rewriting() {
    let content = "\nschema_version =\n\n[options]\nrestore_previous_session = false\n";
    let store = SettingsFileStore::new("settings.toml");
    assert!(matches!(
        store.save_workspace_options_preserving_session(Some(content.to_owned()), BODY),
        Err(SettingsError::TomlDeserialize { .. })
    ));
}

#[test]
fn settings_file_store_preserving_session_without_file_writes_nothing() {
    let store = SettingsFileStore::new("settings.toml");
    assert_eq!(store.save_workspace_options_preserving_session(None, BODY), Ok(None));
}

#[test]
fn settings_file_startup_load_keeps_presets_and_counts_tabs() {
    let store = SettingsFileStore::new("settings.toml");
    assert!(matches!(store.load_workspace_for_startup::<String>(None), Ok(None)));
    let loaded = store
        .load_workspace_for_startup(Some(("text".to_owned(), Ok(startup(1)))))
        .expect("settings load")
        .expect("settings file was not loaded");
    assert_eq!(loaded.saved_tab_count(), 2);
    assert_eq!(loaded.tab_presets(), &[String::from("Keep")]);
    assert_eq!(loaded.options(), WorkspaceOptions::new_with_language(true, UiLanguage::Korean));
    let (presets, preserved) = loaded.into_tab_presets_and_preserved_session();
    assert_eq!(presets, vec![String::from("Keep")]);
    assert_eq!(preserved, PreservedStartupSessionSettings::new("text".to_owned()));
}

#[test]
fn settings_file_startup_load_rejects_unsupported_schema() {
    let store = SettingsFileStore::new("settings.toml");
    assert!(matches!(
        store.load_workspace_for_startup(Some(("text".to_owned(), Ok(startup(9))))),
        Err(SettingsError::UnsupportedVersion { version: 9, .. })
    ));
    let parse_error = SettingsError::TomlDeserialize { path: "settings.toml".to_owned(), message: "bad".to_owned() };
    assert!(matches!(
        store.load_workspace_for_startup::<String>(Some(("text".to_owned(), Err(parse_error.clone())))),
        Err(error) if error == parse_error
    ));
    assert!(matches!(
        tab_presets_only_settings_from_startup("p", startup(0), String::new()),
        Err(SettingsError::UnsupportedVersion { version: 0, .. })
    ));
    let settings = WorkspaceTabPresetsOnlySettings::new(
        1,
        vec![1u8],
        WorkspaceOptions::default(),
        PreservedStartupSessionSettings::new(String::new()),
    );
    assert_eq!(settings.saved_tab_count(), 1);
}

#[test]
fn settings_path_for_executable_uses_executable_file_stem() {
    let path = path_for_executable("/opt/j3grid-docker-test-bin/custom-runner.exe")
        .expect("settings path");
    assert_eq!(path, "/opt/j3grid-docker-test-bin/custom-runner.toml");
    let store = SettingsFileStore::for_current_exe("/opt/bin/tool").expect("settings store");
    assert_eq!(store.path(), "/opt/bin/tool.toml");
    assert_eq!(
        SettingsFileStore::default_path("/opt/bin/tool.exe"),
        Ok("/opt/bin/tool.toml".to_owned())
    );
}

#[test]
fn settings_path_for_executable_needs_directory_and_stem() {
    assert_eq!(
        path_for_executable("tool.exe"),
        Err(SettingsError::ExecutableDirectoryMissing { path: "tool.exe".to_owned() })
    );
    assert_eq!(
        path_for_executable(""),
        Err(SettingsError::ExecutableDirectoryMissing { path: String::new() })
    );
    assert_eq!(
        settings_path_components_error("x", &Some("/a".to_owned()), &None),
        Some(SettingsError::ExecutableFileNameMissing { path: "x".to_owned() })
    );
    assert_eq!(
        settings_path_components_error("x", &Some(String::new()), &Some("s".to_owned())),
        Some(SettingsError::ExecutableDirectoryMissing { path: "x".to_owned() })
    );
    assert_eq!(
        settings_path_components_error("x", &Some("/a".to_owned()), &Some("s".to_owned())),
        None
    );
}

#[test]
fn oversized_settings_are_rejected() {
    assert_eq!(ensure_settings_size("p", MAX_SETTINGS_FILE_BYTES), Ok(()));
    assert_eq!(
        ensure_settings_size("p", MAX_SETTINGS_FILE_BYTES + 1),
        Err(SettingsError::FileTooLarge {
            path: "p".to_owned(),
            size: MAX_SETTINGS_FILE_BYTES + 1,
            max_size: MAX_SETTINGS_FILE_BYTES
        })
    );
    let error = SettingsError::FileTooLarge { path: "p".to_owned(), size: 1, max_size: 0 };
    assert_eq!(error.user_message(), "설정 파일 크기가 유효하지 않습니다.");
}

#[test]
fn temp_file_name_names_process_and_attempt() {
    assert_eq!(temp_file_name("settings.toml", 42, 7), ".settings.toml.42.7.writing");
}

#[test]
fn layout_depth_allows_exactly_the_configured_nesting() {
    let mut depth = SettingsNodeDtoDepth::root();
    assert_eq!(depth.remaining_split_depth, MAX_SETTINGS_LAYOUT_DTO_SPLIT_DEPTH);
    for _ in 0..MAX_SETTINGS_LAYOUT_DTO_SPLIT_DEPTH {
        assert!(depth.ensure_split_allowed().is_ok());
        depth = depth.child().expect("child depth");
    }
    assert_eq!(depth.ensure_split_allowed(), Err(layout_depth_exceeded_error()));
    assert_eq!(
        depth.child(),
        Err(String::from("settings layout split depth exceeds maximum: max_depth=64"))
    );
}

#[test]
fn options_update_rewrites_document_with_inline_options() {
    let content = "schema_version = 1\noptions = { dock_hidden_workspace_ui = false }\nnext_tab_id = 3\n";
    let updated = workspace_options_content_preserving_session("p", content, BODY)
        .expect("inline options are rewritten");
    let saved: toml::Value = toml::from_str(&updated).expect("rewritten settings parse");
    assert_eq!(saved["schema_version"].as_integer(), Some(1));
    assert_eq!(saved["next_tab_id"].as_integer(), Some(3));
    let options = saved["options"].as_table().expect("options were saved");
    assert_eq!(options["dock_hidden_workspace_ui"].as_bool(), Some(true));
    assert_eq!(options["ui_language"].as_str(), Some("korean"));
}

#[test]
fn full_table_rewrite_checks_schema_and_parse() {
    assert_eq!(
        workspace_options_content_from_full_table("p", "schema_version = 7\noptions.a = 1\n", BODY),
        Err(SettingsError::UnsupportedVersion { path: "p".to_owned(), version: 7 })
    );
    assert_eq!(
        workspace_options_content_from_full_table("p", "options.a = 1\n", BODY),
        Err(SettingsError::TomlDeserialize {
            path: "p".to_owned(),
            message: "missing field `schema_version`".to_owned(),
        })
    );
    assert!(matches!(
        workspace_options_content_from_full_table("p", "schema_version =", BODY),
        Err(SettingsError::TomlDeserialize { .. })
    ));
    assert!(matches!(
        workspace_options_content_from_full_table("p", "schema_version = 1\n", "= broken"),
        Err(SettingsError::TomlDeserialize { .. })
    ));
}

#[test]
fn options_update_succeeds_on_version_one_and_appends() {
    let store = SettingsFileStore::new("settings.toml");
    assert_eq!(
        store.save_workspace_options_preserving_session(Some("schema_version = 1\n".to_owned()), BODY),
        Ok(Some(format!("schema_version = 1\n\n[options]\n{BODY}")))
    );
    assert_eq!(
        store.save_workspace_options_preserving_session(Some("schema_version = \"x\"\n".to_owned()), BODY),
        Err(SettingsError::TomlDeserialize {
            path: "settings.toml".to_owned(),
            message: "schema_version must be an unsigned 32-bit integer".to_owned(),
        })
    );
}

fn region_node() -> LayoutNodeShape {
    LayoutNodeShape { split: false, first: None, second: None }
}

/// A layout whose splits nest `splits` levels deep along the first child.
fn nested_split_layout(splits: usize) -> LayoutNodeShape {
    let mut node = region_node();
    for _ in 0..splits {
        node = LayoutNodeShape {
            split: true,
            first: Some(Box::new(node)),
            second: Some(Box::new(region_node())),
        };
    }
    node
}

#[test]
fn layout_reader_accepts_nesting_up_to_the_reading_depth() {
    assert_eq!(read_layout_depth(&region_node()), Ok(()));
    assert_eq!(read_layout_depth(&nested_split_layout(64)), Ok(()));
    assert_eq!(read_layout_depth(&nested_split_layout(MAX_SETTINGS_LAYOUT_DTO_SPLIT_DEPTH)), Ok(()));
}

#[test]
fn layout_reader_rejects_nesting_past_the_reading_depth() {
    assert_eq!(
        read_layout_depth(&nested_split_layout(MAX_SETTINGS_LAYOUT_DTO_SPLIT_DEPTH + 1)),
        Err(String::from("settings layout split depth exceeds maximum: max_depth=64"))
    );
}

#[test]
fn layout_reader_counts_named_children_and_splits_at_the_given_depth() {
    let exhausted = SettingsNodeDtoDepth { remaining_split_depth: 0 };
    assert_eq!(read_layout_node_depth(&region_node(), exhausted), Ok(()));
    let split_leaf = LayoutNodeShape { split: true, first: None, second: None };
    assert_eq!(read_layout_node_depth(&split_leaf, exhausted), Err(layout_depth_exceeded_error()));
    let region_with_child =
        LayoutNodeShape { split: false, first: None, second: Some(Box::new(region_node())) };
    assert_eq!(read_layout_node_depth(&region_with_child, exhausted), Err(layout_depth_exceeded_error()));
    let one_level = SettingsNodeDtoDepth { remaining_split_depth: 1 };
    assert_eq!(read_layout_node_depth(&nested_split_layout(1), one_level), Ok(()));
    assert!(read_layout_node_depth(&nested_split_layout(2), one_level).is_err());
}

#[test]
fn layout_conversion_allows_splits_up_to_the_depth_limit() {
    assert_eq!(
        ensure_layout_split_depth(&nested_split_layout(MAX_SETTINGS_LAYOUT_SPLIT_DEPTH), MAX_SETTINGS_LAYOUT_SPLIT_DEPTH),
        Ok(())
    );
    assert_eq!(
        ensure_layout_split_depth(&nested_split_layout(MAX_SETTINGS_LAYOUT_SPLIT_DEPTH + 1), MAX_SETTINGS_LAYOUT_SPLIT_DEPTH),
        Err(LayoutDepthExceeded { max_depth: MAX_SETTINGS_LAYOUT_SPLIT_DEPTH })
    );
    assert_eq!(ensure_layout_split_depth(&region_node(), 0), Ok(()));
}

#[test]
fn tab_preset_layout_check_names_the_phase_that_refuses_it() {
    assert_eq!(check_tab_preset_layout("s.toml", &nested_split_layout(64)), Ok(()));
    assert_eq!(
        check_tab_preset_layout("s.toml", &nested_split_layout(65)),
        Err(SettingsError::InvalidDomain {
            path: "s.toml".to_owned(),
            message: "settings layout split depth exceeds maximum: max_depth=64".to_owned(),
        })
    );
    assert_eq!(
        check_tab_preset_layout("s.toml", &nested_split_layout(66)),
        Err(SettingsError::TomlDeserialize {
            path: "s.toml".to_owned(),
            message: "settings layout split depth exceeds maximum: max_depth=64".to_owned(),
        })
    );
}
