use j3grid_docker::settings_document::{find_workspace_options_table_section, TomlContentSection};
use j3grid_docker::toml_path::{
    toml_path_is_workspace_options_or_child, toml_path_is_workspace_options_table,
    toml_path_workspace_options_is_exact,
};

#[test]
fn toml_workspace_options_path_detection_handles_dotted_quoted_and_invalid_paths() {
    let cases = [
        ("options", Some(true)),
        (" options ", Some(true)),
        (r#""options""#, Some(true)),
        ("'options'", Some(true)),
        (r#""\u006fptions""#, Some(true)),
        ("options.child", Some(false)),
        ("options . child", Some(false)),
        (r#""options" . "child.name""#, Some(false)),
        ("'options' . ''", Some(false)),
        ("tabs.options", None),
        ("options.", None),
        ("options..child", None),
        (r#""op\qions""#, None),
    ];

    for (path, expected) in cases {
        assert_eq!(
            toml_path_workspace_options_is_exact(path),
            expected,
            "unexpected options path detection for {path:?}"
        );
    }

    assert!(toml_path_is_workspace_options_table(r#""options""#));
    assert!(!toml_path_is_workspace_options_table("options.child"));
    assert!(toml_path_is_workspace_options_or_child("options.child"));
    assert!(!toml_path_is_workspace_options_or_child("tabs.options"));
}

#[test]
fn find_workspace_options_table_section_includes_child_and_array_tables() {
    let content = r#"
schema_version = 1

[options]
restore_previous_session = false

[options.ui]
language = "korean"

[[options.history]]
name = "kept"

[tabs.layout]
kind = "region"
"#;
    let start = content.find("[options]").expect("options section was not found");
    let end = content.find("[tabs.layout]").expect("tabs section was not found");

    assert_eq!(
        find_workspace_options_table_section(content),
        Some(TomlContentSection { start, end })
    );
}

#[test]
fn find_workspace_options_table_section_runs_to_document_end() {
    let content = "schema_version = 1\n[options]\na = 1\n";
    let start = content.find("[options]").expect("options section was not found");
    assert_eq!(
        find_workspace_options_table_section(content),
        Some(TomlContentSection { start, end: content.len() })
    );
    assert_eq!(find_workspace_options_table_section("schema_version = 1\n"), None);
}

#[test]
fn find_workspace_options_table_section_ignores_headers_inside_multiline_strings() {
    let content = "notes = \"\"\"\n[options]\n\"\"\"\n[tabs]\n";
    assert_eq!(find_workspace_options_table_section(content), None);
}
