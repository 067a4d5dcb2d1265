use vstd::prelude::*;

use crate::geometry::TabId;
use crate::settings::UiLanguage;
use crate::text::{decimal_digits, is_unicode_whitespace, chars_of, is_whitespace_char, push_char, push_decimal, push_str};

verus! {

/// The English or the Korean text, by language.
pub open spec fn pick(language: UiLanguage, english: Seq<char>, korean: Seq<char>) -> Seq<char> {
    match language {
        UiLanguage::English => english,
        UiLanguage::Korean => korean,
    }
}

pub open spec fn num(n: usize) -> Seq<char> {
    decimal_digits(n as nat)
}

/// How a tab is named in status messages: its name if it has one, and
/// always its number.
#[derive(Debug, Clone, PartialEq, Eq)]
pub struct TabStatusLabel {
    pub tab_id: TabId,
    pub name: Option<String>,
}

pub open spec fn tab_label_text(language: UiLanguage, label: TabStatusLabel) -> Seq<char> {
    let tab_word = pick(language, "tab"@, "탭"@);
    match label.name {
        Some(name) => name@ + " ("@ + tab_word + " "@ + decimal_digits(label.tab_id.id as nat)
            + ")"@,
        None => tab_word + " "@ + decimal_digits(label.tab_id.id as nat),
    }
}

pub fn tab_status_label_for_entry(language: UiLanguage, label: &TabStatusLabel) -> (r: String)
    ensures
        r@ == tab_label_text(language, *label),
{
    let tab_word = match language {
        UiLanguage::English => "tab",
        UiLanguage::Korean => "탭",
    };
    let mut text = String::new();
    match &label.name {
        Some(name) => {
            push_str(&mut text, name.as_str());
            push_str(&mut text, " (");
            push_str(&mut text, tab_word);
            push_str(&mut text, " ");
            push_decimal(&mut text, label.tab_id.id);
            push_str(&mut text, ")");
        },
        None => {
            push_str(&mut text, tab_word);
            push_str(&mut text, " ");
            push_decimal(&mut text, label.tab_id.id);
        },
    }
    assert(text@ =~= tab_label_text(language, *label));
    text
}

pub open spec fn save_success_text(language: UiLanguage, name: Seq<char>, count: usize) -> Seq<
    char,
> {
    match language {
        UiLanguage::English => "Tab preset saved: "@ + name + ". Program(s): "@ + num(count),
        UiLanguage::Korean => "탭 preset 저장 완료: "@ + name + ". 프로그램 "@ + num(count) + "개"@,
    }
}

pub fn tab_preset_save_success_status_text(
    language: UiLanguage,
    preset_name: &str,
    program_count: usize,
) -> (r: String)
    ensures
        r@ == save_success_text(language, preset_name@, program_count),
{
    let mut text = String::new();
    match language {
        UiLanguage::English => {
            push_str(&mut text, "Tab preset saved: ");
            push_str(&mut text, preset_name);
            push_str(&mut text, ". Program(s): ");
            push_decimal(&mut text, program_count as u64);
        },
        UiLanguage::Korean => {
            push_str(&mut text, "탭 preset 저장 완료: ");
            push_str(&mut text, preset_name);
            push_str(&mut text, ". 프로그램 ");
            push_decimal(&mut text, program_count as u64);
            push_str(&mut text, "개");
        },
    }
    assert(text@ =~= save_success_text(language, preset_name@, program_count));
    text
}

pub open spec fn delete_success_text(language: UiLanguage, name: Seq<char>) -> Seq<char> {
    pick(language, "Tab preset deleted: "@ + name, "탭 preset 삭제 완료: "@ + name)
}

pub fn tab_preset_delete_success_status_text(language: UiLanguage, preset_name: &str) -> (r:
    String)
    ensures
        r@ == delete_success_text(language, preset_name@),
{
    let mut text = String::new();
    match language {
        UiLanguage::English => push_str(&mut text, "Tab preset deleted: "),
        UiLanguage::Korean => push_str(&mut text, "탭 preset 삭제 완료: "),
    }
    push_str(&mut text, preset_name);
    assert(text@ =~= delete_success_text(language, preset_name@));
    text
}

pub open spec fn edit_success_text(language: UiLanguage, name: Seq<char>, count: usize) -> Seq<
    char,
> {
    match language {
        UiLanguage::English => "Tab preset edited: "@ + name + ". Program(s): "@ + num(count),
        UiLanguage::Korean => "탭 preset 편집 완료: "@ + name + ". 프로그램 "@ + num(count) + "개"@,
    }
}

pub fn tab_preset_edit_success_status_text(
    language: UiLanguage,
    preset_name: &str,
    program_count: usize,
) -> (r: String)
    ensures
        r@ == edit_success_text(language, preset_name@, program_count),
{
    let mut text = String::new();
    match language {
        UiLanguage::English => {
            push_str(&mut text, "Tab preset edited: ");
            push_str(&mut text, preset_name);
            push_str(&mut text, ". Program(s): ");
            push_decimal(&mut text, program_count as u64);
        },
        UiLanguage::Korean => {
            push_str(&mut text, "탭 preset 편집 완료: ");
            push_str(&mut text, preset_name);
            push_str(&mut text, ". 프로그램 ");
            push_decimal(&mut text, program_count as u64);
            push_str(&mut text, "개");
        },
    }
    assert(text@ =~= edit_success_text(language, preset_name@, program_count));
    text
}

pub open spec fn edit_failure_text(language: UiLanguage, name: Seq<char>, cause: Seq<char>) -> Seq<
    char,
> {
    pick(
        language,
        "Tab preset edit failed: "@ + name + ". Cause: "@ + cause,
        "탭 preset 편집 실패: "@ + name + ". 원인: "@ + cause,
    )
}

/// The status after a failed edit; `cause` is the error's message in the
/// same language.
pub fn tab_preset_edit_failure_status_text(
    language: UiLanguage,
    preset_name: &str,
    cause: &str,
) -> (r: String)
    ensures
        r@ == edit_failure_text(language, preset_name@, cause@),
{
    let mut text = String::new();
    match language {
        UiLanguage::English => {
            push_str(&mut text, "Tab preset edit failed: ");
            push_str(&mut text, preset_name);
            push_str(&mut text, ". Cause: ");
        },
        UiLanguage::Korean => {
            push_str(&mut text, "탭 preset 편집 실패: ");
            push_str(&mut text, preset_name);
            push_str(&mut text, ". 원인: ");
        },
    }
    push_str(&mut text, cause);
    assert(text@ =~= edit_failure_text(language, preset_name@, cause@));
    text
}

pub open spec fn delete_failure_text(language: UiLanguage, name: Seq<char>, cause: Seq<char>) -> Seq<
    char,
> {
    pick(
        language,
        "Tab preset delete failed: "@ + name + ". Cause: "@ + cause,
        "탭 preset 삭제 실패: "@ + name + ". 원인: "@ + cause,
    )
}

/// The status after a failed delete; `cause` is the error's message in the
/// same language.
pub fn tab_preset_delete_failure_status_text(
    language: UiLanguage,
    preset_name: &str,
    cause: &str,
) -> (r: String)
    ensures
        r@ == delete_failure_text(language, preset_name@, cause@),
{
    let mut text = String::new();
    match language {
        UiLanguage::English => {
            push_str(&mut text, "Tab preset delete failed: ");
            push_str(&mut text, preset_name);
            push_str(&mut text, ". Cause: ");
        },
        UiLanguage::Korean => {
            push_str(&mut text, "탭 preset 삭제 실패: ");
            push_str(&mut text, preset_name);
            push_str(&mut text, ". 원인: ");
        },
    }
    push_str(&mut text, cause);
    assert(text@ =~= delete_failure_text(language, preset_name@, cause@));
    text
}

pub open spec fn apply_failure_text(
    language: UiLanguage,
    name: Seq<char>,
    target: TabStatusLabel,
    cause: Seq<char>,
) -> Seq<char> {
    let t = tab_label_text(language, target);
    pick(
        language,
        "Tab preset load failed: "@ + name + " -> "@ + t + ". Cause: "@ + cause,
        "탭 preset 불러오기 실패: "@ + name + " -> "@ + t + ". 원인: "@ + cause,
    )
}

/// The status after a preset failed to load into a tab; `cause` is the
/// error's message in the same language.
pub fn tab_preset_apply_failure_status_text(
    language: UiLanguage,
    preset_name: &str,
    target: &TabStatusLabel,
    cause: &str,
) -> (r: String)
    ensures
        r@ == apply_failure_text(language, preset_name@, *target, cause@),
{
    let target_text = tab_status_label_for_entry(language, target);
    let mut text = String::new();
    match language {
        UiLanguage::English => push_str(&mut text, "Tab preset load failed: "),
        UiLanguage::Korean => push_str(&mut text, "탭 preset 불러오기 실패: "),
    }
    push_str(&mut text, preset_name);
    push_str(&mut text, " -> ");
    push_str(&mut text, target_text.as_str());
    match language {
        UiLanguage::English => push_str(&mut text, ". Cause: "),
        UiLanguage::Korean => push_str(&mut text, ". 원인: "),
    }
    push_str(&mut text, cause);
    assert(text@ =~= apply_failure_text(language, preset_name@, *target, cause@));
    text
}

/// A preset program that could not be restored, and why.
#[derive(Debug, Clone, PartialEq, Eq)]
pub struct TabPresetProgramFailure {
    pub label: String,
    pub message: String,
}

/// How the restore of a preset's programs went.
#[derive(Debug, Clone, PartialEq, Eq)]
pub struct TabPresetProgramRestoreReport {
    pub expected: usize,
    pub docked: usize,
    pub failures: Vec<TabPresetProgramFailure>,
}

impl TabPresetProgramRestoreReport {
    pub fn new(expected: usize) -> (r: Self)
        ensures
            r.expected == expected,
            r.docked == 0,
            r.failures@.len() == 0,
    {
        TabPresetProgramRestoreReport { expected, docked: 0, failures: Vec::new() }
    }
}

pub open spec fn failure_entry(f: TabPresetProgramFailure) -> Seq<char> {
    f.label@ + " ("@ + f.message@ + ")"@
}

/// The first `n` failures, separated by commas.
pub open spec fn failure_list(failures: Seq<TabPresetProgramFailure>, n: int) -> Seq<char>
    decreases n,
{
    if n <= 0 {
        Seq::empty()
    } else if n == 1 {
        failure_entry(failures[0])
    } else {
        failure_list(failures, n - 1) + ", "@ + failure_entry(failures[n - 1])
    }
}

pub open spec fn failures_suffix(language: UiLanguage, failures: Seq<TabPresetProgramFailure>) -> Seq<
    char,
> {
    if failures.len() == 0 {
        Seq::empty()
    } else {
        let shown = if failures.len() < 3 {
            failures.len() as int
        } else {
            3
        };
        pick(language, ". Failed: "@, ". 실패: "@) + failure_list(failures, shown) + (if failures.len()
            > 3 {
            ", ..."@
        } else {
            Seq::empty()
        })
    }
}

/// The list of failed programs appended to a restore status: at most three
/// of them, then an ellipsis.
pub fn tab_preset_program_failures_suffix(
    language: UiLanguage,
    failures: &[TabPresetProgramFailure],
) -> (r: String)
    ensures
        r@ == failures_suffix(language, failures@),
{
    if failures.len() == 0 {
        return String::new();
    }
    let mut text = String::new();
    match language {
        UiLanguage::English => push_str(&mut text, ". Failed: "),
        UiLanguage::Korean => push_str(&mut text, ". 실패: "),
    }
    let ghost head = text@;
    let shown: usize = if failures.len() < 3 {
        failures.len()
    } else {
        3
    };
    let mut index: usize = 0;
    while index < shown
        invariant
            index <= shown <= failures@.len(),
            shown == (if failures@.len() < 3 {
                failures@.len() as int
            } else {
                3
            }),
            text@ == head + failure_list(failures@, index as int),
        decreases shown - index,
    {
        let failure = &failures[index];
        if index > 0 {
            push_str(&mut text, ", ");
        }
        push_str(&mut text, failure.label.as_str());
        push_str(&mut text, " (");
        push_str(&mut text, failure.message.as_str());
        push_char(&mut text, ')');
        proof {
            reveal_strlit(")");
            assert(")"@ =~= seq![')']);
        }
        assert(text@ =~= head + failure_list(failures@, index + 1));
        index += 1;
    }
    if failures.len() > 3 {
        push_str(&mut text, ", ...");
    }
    assert(text@ =~= failures_suffix(language, failures@));
    text
}

pub open spec fn apply_success_text(
    language: UiLanguage,
    name: Seq<char>,
    target: TabStatusLabel,
    undocked: usize,
    restore: TabPresetProgramRestoreReport,
) -> Seq<char> {
    let t = tab_label_text(language, target);
    let failures = restore.failures@;
    let suffix = failures_suffix(language, failures);
    match language {
        UiLanguage::English => "Tab preset loaded: "@ + name + " -> "@ + t + ". Existing undocked: "@
            + num(undocked) + ". Programs docked "@ + num(restore.docked) + "/"@ + num(
            restore.expected,
        ) + "; failures "@ + num(failures.len() as usize) + suffix,
        UiLanguage::Korean => "탭 preset 불러오기 완료: "@ + name + " -> "@ + t + ". 기존 Undock "@
            + num(undocked) + "개. 프로그램 dock "@ + num(restore.docked) + "/"@ + num(
            restore.expected,
        ) + "개, 실패 "@ + num(failures.len() as usize) + "개"@ + suffix,
    }
}

/// The status after a preset loaded into a tab: what was undocked, how
/// many programs were docked, and which failed.
pub fn tab_preset_apply_success_status_text_for_preset(
    language: UiLanguage,
    preset_name: &str,
    target: &TabStatusLabel,
    undocked: usize,
    restore: &TabPresetProgramRestoreReport,
) -> (r: String)
    ensures
        r@ == apply_success_text(language, preset_name@, *target, undocked, *restore),
{
    let target_text = tab_status_label_for_entry(language, target);
    let failures = restore.failures.len();
    let suffix = tab_preset_program_failures_suffix(language, restore.failures.as_slice());
    let mut text = String::new();
    match language {
        UiLanguage::English => {
            push_str(&mut text, "Tab preset loaded: ");
            push_str(&mut text, preset_name);
            push_str(&mut text, " -> ");
            push_str(&mut text, target_text.as_str());
            push_str(&mut text, ". Existing undocked: ");
            push_decimal(&mut text, undocked as u64);
            push_str(&mut text, ". Programs docked ");
            push_decimal(&mut text, restore.docked as u64);
            push_str(&mut text, "/");
            push_decimal(&mut text, restore.expected as u64);
            push_str(&mut text, "; failures ");
            push_decimal(&mut text, failures as u64);
        },
        UiLanguage::Korean => {
            push_str(&mut text, "탭 preset 불러오기 완료: ");
            push_str(&mut text, preset_name);
            push_str(&mut text, " -> ");
            push_str(&mut text, target_text.as_str());
            push_str(&mut text, ". 기존 Undock ");
            push_decimal(&mut text, undocked as u64);
            push_str(&mut text, "개. 프로그램 dock ");
            push_decimal(&mut text, restore.docked as u64);
            push_str(&mut text, "/");
            push_decimal(&mut text, restore.expected as u64);
            push_str(&mut text, "개, 실패 ");
            push_decimal(&mut text, failures as u64);
            push_str(&mut text, "개");
        },
    }
    push_str(&mut text, suffix.as_str());
    assert(text@ =~= apply_success_text(language, preset_name@, *target, undocked, *restore));
    text
}

/// The restore report once the restore timer could not start: every
/// program still pending fails with that reason.
pub fn tab_preset_program_restore_timer_failure_report(
    report: TabPresetProgramRestoreReport,
    pending_labels: Vec<String>,
    language: UiLanguage,
) -> (r: TabPresetProgramRestoreReport)
    ensures
        r.expected == report.expected,
        r.docked == report.docked,
        r.failures@.len() == report.failures@.len() + pending_labels@.len(),
        forall|i: int| 0 <= i < report.failures@.len() ==> r.failures@[i] == report.failures@[i],
        forall|i: int|
            0 <= i < pending_labels@.len() ==> {
                let f = #[trigger] r.failures@[report.failures@.len() + i];
                &&& f.label@ == pending_labels@[i]@
                &&& f.message@ == pick(
                    language,
                    "program restore timer could not be started"@,
                    "프로그램 복원 timer를 시작할 수 없습니다"@,
                )
            },
{
    let ghost initial = report.failures@;
    let ghost expected = report.expected;
    let ghost docked = report.docked;
    let mut result = report;
    let message = match language {
        UiLanguage::English => "program restore timer could not be started",
        UiLanguage::Korean => "프로그램 복원 timer를 시작할 수 없습니다",
    };
    let mut k: usize = 0;
    while k < pending_labels.len()
        invariant
            k <= pending_labels@.len(),
            result.expected == expected,
            result.docked == docked,
            result.failures@.len() == initial.len() + k,
            forall|i: int| 0 <= i < initial.len() ==> result.failures@[i] == initial[i],
            message@ == pick(
                language,
                "program restore timer could not be started"@,
                "프로그램 복원 timer를 시작할 수 없습니다"@,
            ),
            forall|i: int|
                0 <= i < k ==> {
                    let f = #[trigger] result.failures@[initial.len() + i];
                    &&& f.label@ == pending_labels@[i]@
                    &&& f.message@ == message@
                },
        decreases pending_labels@.len() - k,
    {
        let label = pending_labels[k].clone();
        result.failures.push(TabPresetProgramFailure { label, message: message.to_owned() });
        k += 1;
    }
    result
}

/// Whether every character of a text is white space.
pub fn is_blank(text: &str) -> (b: bool)
    ensures
        b == (forall|i: int| 0 <= i < text@.len() ==> is_unicode_whitespace(#[trigger] text@[i])),
{
    let chars = chars_of(text);
    let mut k: usize = 0;
    while k < chars.len()
        invariant
            k <= chars@.len(),
            chars@ == text@,
            forall|i: int| 0 <= i < k ==> is_unicode_whitespace(#[trigger] chars@[i]),
        decreases chars@.len() - k,
    {
        if !is_whitespace_char(chars[k]) {
            return false;
        }
        k += 1;
    }
    true
}

/// The label of a preset program: its title unless that is missing or
/// blank, else its executable path.
pub fn tab_preset_program_label(title: Option<&str>, executable_path: &str) -> (r: String)
    ensures
        r@ == (match title {
            Some(t) => if forall|i: int| 0 <= i < t@.len() ==> is_unicode_whitespace(
                #[trigger] t@[i],
            ) {
                executable_path@
            } else {
                t@
            },
            None => executable_path@,
        }),
{
    match title {
        Some(t) => {
            if is_blank(t) {
                executable_path.to_owned()
            } else {
                t.to_owned()
            }
        },
        None => executable_path.to_owned(),
    }
}

/// Why a preset program could not be docked.  The causes are the texts of
/// the underlying errors.
#[derive(Debug, Clone, PartialEq, Eq)]
pub enum TabPresetProgramLaunchError {
    Spawn { path: String, cause: String },
    WindowNotFound { path: String, process_id: u32 },
    InvalidWindowHandle { path: String, cause: String },
}

pub open spec fn launch_error_text(e: TabPresetProgramLaunchError, language: UiLanguage) -> Seq<
    char,
> {
    match e {
        TabPresetProgramLaunchError::Spawn { path, cause } => pick(
            language,
            path@ + " could not be started: "@ + cause@,
            path@ + " 실행 실패: "@ + cause@,
        ),
        TabPresetProgramLaunchError::WindowNotFound { path, process_id } => pick(
            language,
            path@ + " started as process "@ + decimal_digits(process_id as nat)
                + ", but no top-level window was found"@,
            path@ + " 프로세스 "@ + decimal_digits(process_id as nat)
                + "를 실행했지만 top-level window를 찾을 수 없습니다"@,
        ),
        TabPresetProgramLaunchError::InvalidWindowHandle { path, cause } => path@ + ": "@ + cause@,
    }
}

impl TabPresetProgramLaunchError {
    pub fn user_message(&self, language: UiLanguage) -> (r: String)
        ensures
            r@ == launch_error_text(*self, language),
    {
        let mut text = String::new();
        match self {
            TabPresetProgramLaunchError::Spawn { path, cause } => {
                push_str(&mut text, path.as_str());
                match language {
                    UiLanguage::English => push_str(&mut text, " could not be started: "),
                    UiLanguage::Korean => push_str(&mut text, " 실행 실패: "),
                }
                push_str(&mut text, cause.as_str());
            },
            TabPresetProgramLaunchError::WindowNotFound { path, process_id } => {
                push_str(&mut text, path.as_str());
                match language {
                    UiLanguage::English => {
                        push_str(&mut text, " started as process ");
                        push_decimal(&mut text, *process_id as u64);
                        push_str(&mut text, ", but no top-level window was found");
                    },
                    UiLanguage::Korean => {
                        push_str(&mut text, " 프로세스 ");
                        push_decimal(&mut text, *process_id as u64);
                        push_str(&mut text, "를 실행했지만 top-level window를 찾을 수 없습니다");
                    },
                }
            },
            TabPresetProgramLaunchError::InvalidWindowHandle { path, cause } => {
                push_str(&mut text, path.as_str());
                push_str(&mut text, ": ");
                push_str(&mut text, cause.as_str());
            },
        }
        assert(text@ =~= launch_error_text(*self, language));
        text
    }
}

} // verus!
