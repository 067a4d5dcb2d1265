use j3grid_docker::geometry::TabId;
use j3grid_docker::settings::UiLanguage;
use j3grid_docker::status_text::{
    tab_preset_apply_failure_status_text, tab_preset_apply_success_status_text_for_preset,
    tab_preset_delete_failure_status_text, tab_preset_delete_success_status_text,
    tab_preset_edit_failure_status_text, tab_preset_edit_success_status_text,
    tab_preset_program_failures_suffix, tab_preset_program_label,
    tab_preset_program_restore_timer_failure_report, tab_preset_save_success_status_text,
    tab_status_label_for_entry, TabPresetProgramFailure, TabPresetProgramLaunchError,
    TabPresetProgramRestoreReport, TabStatusLabel,
};

fn failure(label: &str, message: &str) -> TabPresetProgramFailure {
    TabPresetProgramFailure {
        label: label.to_owned(),
        message: message.to_owned(),
    }
}

#[test]
fn tab_status_label_names_tab_and_number() {
    let named = TabStatusLabel {
        tab_id: TabId::new(3),
        name: Some("Work".to_owned()),
    };
    let unnamed = TabStatusLabel {
        tab_id: TabId::new(4),
        name: None,
    };
    assert_eq!(tab_status_label_for_entry(UiLanguage::English, &named), "Work (tab 3)");
    assert_eq!(tab_status_label_for_entry(UiLanguage::Korean, &named), "Work (탭 3)");
    assert_eq!(tab_status_label_for_entry(UiLanguage::English, &unnamed), "tab 4");
    assert_eq!(tab_status_label_for_entry(UiLanguage::Korean, &unnamed), "탭 4");
}

#[test]
fn tab_preset_success_statuses_name_preset_and_counts() {
    assert_eq!(
        tab_preset_save_success_status_text(UiLanguage::English, "Grid", 2),
        "Tab preset saved: Grid. Program(s): 2"
    );
    assert_eq!(
        tab_preset_save_success_status_text(UiLanguage::Korean, "Grid", 2),
        "탭 preset 저장 완료: Grid. 프로그램 2개"
    );
    assert_eq!(
        tab_preset_delete_success_status_text(UiLanguage::English, "Grid"),
        "Tab preset deleted: Grid"
    );
    assert_eq!(
        tab_preset_delete_success_status_text(UiLanguage::Korean, "Grid"),
        "탭 preset 삭제 완료: Grid"
    );
    assert_eq!(
        tab_preset_edit_success_status_text(UiLanguage::English, "Grid", 0),
        "Tab preset edited: Grid. Program(s): 0"
    );
    assert_eq!(
        tab_preset_edit_success_status_text(UiLanguage::Korean, "Grid", 12),
        "탭 preset 편집 완료: Grid. 프로그램 12개"
    );
}

#[test]
fn tab_preset_failure_statuses_name_the_cause() {
    assert_eq!(
        tab_preset_edit_failure_status_text(UiLanguage::English, "Grid", "boom"),
        "Tab preset edit failed: Grid. Cause: boom"
    );
    assert_eq!(
        tab_preset_edit_failure_status_text(UiLanguage::Korean, "Grid", "실패"),
        "탭 preset 편집 실패: Grid. 원인: 실패"
    );
    assert_eq!(
        tab_preset_delete_failure_status_text(UiLanguage::English, "Grid", "boom"),
        "Tab preset delete failed: Grid. Cause: boom"
    );
    assert_eq!(
        tab_preset_delete_failure_status_text(UiLanguage::Korean, "Grid", "실패"),
        "탭 preset 삭제 실패: Grid. 원인: 실패"
    );
    let target = TabStatusLabel {
        tab_id: TabId::new(2),
        name: None,
    };
    assert_eq!(
        tab_preset_apply_failure_status_text(UiLanguage::English, "Grid", &target, "boom"),
        "Tab preset load failed: Grid -> tab 2. Cause: boom"
    );
    assert_eq!(
        tab_preset_apply_failure_status_text(UiLanguage::Korean, "Grid", &target, "실패"),
        "탭 preset 불러오기 실패: Grid -> 탭 2. 원인: 실패"
    );
}

#[test]
fn tab_preset_failures_suffix_lists_at_most_three() {
    assert_eq!(tab_preset_program_failures_suffix(UiLanguage::English, &[]), "");
    assert_eq!(
        tab_preset_program_failures_suffix(UiLanguage::English, &[failure("a", "x")]),
        ". Failed: a (x)"
    );
    assert_eq!(
        tab_preset_program_failures_suffix(
            UiLanguage::Korean,
            &[failure("a", "x"), failure("b", "y"), failure("c", "z"), failure("d", "w")]
        ),
        ". 실패: a (x), b (y), c (z), ..."
    );
}

#[test]
fn tab_preset_apply_success_status_reports_restore() {
    let target = TabStatusLabel {
        tab_id: TabId::new(1),
        name: Some("Main".to_owned()),
    };
    let mut restore = TabPresetProgramRestoreReport::new(3);
    restore.docked = 2;
    restore.failures.push(failure("editor", "not found"));
    assert_eq!(
        tab_preset_apply_success_status_text_for_preset(
            UiLanguage::English,
            "Grid",
            &target,
            1,
            &restore
        ),
        "Tab preset loaded: Grid -> Main (tab 1). Existing undocked: 1. Programs docked 2/3; failures 1. Failed: editor (not found)"
    );
    assert_eq!(
        tab_preset_apply_success_status_text_for_preset(
            UiLanguage::Korean,
            "Grid",
            &target,
            0,
            &TabPresetProgramRestoreReport::new(0)
        ),
        "탭 preset 불러오기 완료: Grid -> Main (탭 1). 기존 Undock 0개. 프로그램 dock 0/0개, 실패 0개"
    );
}

#[test]
fn restore_timer_failure_fails_every_pending_program() {
    let mut report = TabPresetProgramRestoreReport::new(2);
    report.failures.push(failure("first", "earlier"));
    let report = tab_preset_program_restore_timer_failure_report(
        report,
        vec!["second".to_owned(), "third".to_owned()],
        UiLanguage::English,
    );
    assert_eq!(report.expected, 2);
    assert_eq!(
        report.failures,
        vec![
            failure("first", "earlier"),
            failure("second", "program restore timer could not be started"),
            failure("third", "program restore timer could not be started"),
        ]
    );
    let korean = tab_preset_program_restore_timer_failure_report(
        TabPresetProgramRestoreReport::new(1),
        vec!["x".to_owned()],
        UiLanguage::Korean,
    );
    assert_eq!(
        korean.failures,
        vec![failure("x", "프로그램 복원 timer를 시작할 수 없습니다")]
    );
}

#[test]
fn tab_preset_program_label_prefers_non_blank_title() {
    assert_eq!(tab_preset_program_label(Some("Editor"), "C:\\bin\\ed.exe"), "Editor");
    assert_eq!(tab_preset_program_label(Some("  \t"), "C:\\bin\\ed.exe"), "C:\\bin\\ed.exe");
    assert_eq!(tab_preset_program_label(Some(""), "ed.exe"), "ed.exe");
    assert_eq!(tab_preset_program_label(None, "ed.exe"), "ed.exe");
}

#[test]
fn tab_preset_launch_errors_explain_the_failure() {
    let not_found = TabPresetProgramLaunchError::WindowNotFound {
        path: "ed.exe".to_owned(),
        process_id: 42,
    };
    assert_eq!(
        not_found.user_message(UiLanguage::English),
        "ed.exe started as process 42, but no top-level window was found"
    );
    assert_eq!(
        not_found.user_message(UiLanguage::Korean),
        "ed.exe 프로세스 42를 실행했지만 top-level window를 찾을 수 없습니다"
    );
    let spawn = TabPresetProgramLaunchError::Spawn {
        path: "ed.exe".to_owned(),
        cause: "denied".to_owned(),
    };
    assert_eq!(spawn.user_message(UiLanguage::English), "ed.exe could not be started: denied");
    assert_eq!(spawn.user_message(UiLanguage::Korean), "ed.exe 실행 실패: denied");
    let invalid = TabPresetProgramLaunchError::InvalidWindowHandle {
        path: "ed.exe".to_owned(),
        cause: "null".to_owned(),
    };
    assert_eq!(invalid.user_message(UiLanguage::English), "ed.exe: null");
}
